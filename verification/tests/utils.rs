use rust_core::utils;
use rust_core::utils_core::{IirFilter, RingBuf};

#[test]
fn ring_buffer_reads_back_writes() {
    let mut r: RingBuf<i32, 4> = RingBuf::new(0);
    assert_eq!(r.curr(), None);
    assert_eq!(r.get_last_two(), None);
    r.push(1);
    assert_eq!(r.curr(), Some(1));
    assert_eq!(r.prev(), None);
    r.push(2);
    r.push(3);
    assert_eq!((r.curr(), r.prev(), r.prev2()), (Some(3), Some(2), Some(1)));
    assert_eq!(r.get_last_two(), Some((3, 2)));
    for v in 4..=10 {
        r.push(v);
    }
    assert_eq!((r.curr(), r.prev(), r.prev2()), (Some(10), Some(9), Some(8)));
}

#[test]
fn ring_buffer_of_two() {
    let mut r: utils::RingBuf<u8, 2> = utils::RingBuf::new(9);
    r.push(1);
    r.push(2);
    r.push(3);
    assert_eq!(r.get_last_two(), Some((3, 2)));
    assert_eq!(r.prev2(), None);
}

#[test]
fn integer_ema() {
    let mut f = IirFilter::new(2);
    assert_eq!(f.update(10), 20);
    assert_eq!(f.update(25), 30);
}

#[test]
fn fixed_point_ema() {
    // alpha = 0.25, x = 4.0 -> 1.0, then 1.75
    let mut f = utils::IirFilter::new(1 << 14);
    assert_eq!(f.update(4 << 16), 1 << 16);
    assert_eq!(f.update(4 << 16), (7 << 16) / 4);
    // negative products round toward -inf
    let mut g = utils::IirFilter::new(1 << 15);
    assert_eq!(g.update(-1), -1);
}

#[test]
fn power_of_two_capacity_check() {
    RingBuf::<u16, 8>::check();
    let r: RingBuf<u16, 8> = RingBuf::new(0);
    assert_eq!(r.prev2(), None);
}
