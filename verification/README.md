# rust_core

Motion-control core of a stepper axis with encoder feedback, written in Verus
and proved against its contracts.

- `src/` — the verified library:
  - `sat`: saturating and clamping integer helpers;
  - `adrc`: fixed-point active-disturbance-rejection controller;
  - `encoder_core`: quadrature counter unwrapping and the alpha-beta-gamma
    position/velocity/acceleration filter;
  - `utils_core`, `utils`, `fixed_point`: power-of-two ring buffer, IIR
    filters, and the calls into the `fixed` crate;
  - `motor`: trapezoidal speed ramp, step-pulse generation and the closed
    loop through the controller;
  - `sys`: the move-sequencing state machine;
  - `task_loop`: the decisions of the firmware's main loop (encoder
    sampling cadence, telemetry, task round robin, speed potentiometer);
  - `ui`: button debouncing and the status LED;
  - `serial_core`, `serial`: the command parser, command dispatch and the
    output formatting of the UART;
  - `host_cmd`, `host_log`: what the host sends to the board and how it
    splits and keeps what the board sends back.
- `tests/` — tests of the library on concrete values.
- `app/` — host programs: a board model that runs the firmware loop, a
  telemetry logger, a gain-tuning command and a filter simulation.
