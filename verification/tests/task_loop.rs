use rust_core::task_loop::{adc_task, loop_new, loop_step, speed_from_mv, LoopAction};

const RELOAD: u32 = 24_000;

#[test]
fn tasks_run_in_turn_between_samples() {
    let mut s = loop_new();
    // the tick counts down from 0 after a wrap: 24000 - 23950 = 50 ticks
    assert_eq!(loop_step(&mut s, 23_950, RELOAD, true), LoopAction::ButtonTask);
    assert_eq!(loop_step(&mut s, 23_940, RELOAD, true), LoopAction::SysTask);
    assert_eq!(loop_step(&mut s, 23_930, RELOAD, true), LoopAction::AdcTask);
    assert_eq!(loop_step(&mut s, 23_920, RELOAD, true), LoopAction::ButtonTask);
    assert_eq!(s.upd_task, 1);
}

#[test]
fn encoder_is_sampled_once_per_window() {
    let mut s = loop_new();
    // 24000 - 23700 = 300 > 200 ticks since the last window
    assert_eq!(loop_step(&mut s, 23_700, RELOAD, false), LoopAction::SampleEncoder { telemetry: false });
    assert_eq!(loop_step(&mut s, 23_690, RELOAD, false), LoopAction::ResetWindow);
    assert_eq!(s.enc_last_upd, 23_690);
    assert_eq!(loop_step(&mut s, 23_600, RELOAD, false), LoopAction::ButtonTask);
}

#[test]
fn telemetry_on_every_fourth_sample_while_moving() {
    let mut s = loop_new();
    let mut tele = vec![];
    let mut now = 23_000u32;
    for _ in 0..10 {
        if let LoopAction::SampleEncoder { telemetry } = loop_step(&mut s, now, RELOAD, false) {
            tele.push(telemetry);
        }
        now -= 300;
        assert_eq!(loop_step(&mut s, now, RELOAD, false), LoopAction::ResetWindow);
        now -= 300;
    }
    assert_eq!(tele, vec![false, false, false, false, true, false, false, false, true, false]);
    let mut s = loop_new();
    s.print_cnt = 4;
    assert_eq!(loop_step(&mut s, 23_000, RELOAD, true), LoopAction::SampleEncoder { telemetry: false });
    assert_eq!(s.print_cnt, 1);
}

#[test]
fn potentiometer_hysteresis() {
    let mut s = loop_new();
    assert_eq!(adc_task(&mut s, 0), None);
    assert_eq!(s.old_count, -1);
    assert_eq!(adc_task(&mut s, 100), Some(100));
    assert_eq!(s.old_count, 100);
    assert_eq!(adc_task(&mut s, 110), None);
    assert_eq!(adc_task(&mut s, 89), Some(89));
    assert_eq!(speed_from_mv(500), 2000);
    assert_eq!(speed_from_mv(-500), 2000);
    assert_eq!(speed_from_mv(70_000), 4 * (70_000 % 65_536));
}
