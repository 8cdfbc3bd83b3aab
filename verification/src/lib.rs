//! Motion-control core for a stepper axis on a small microcontroller:
//! fixed-point ADRC controller, alpha-beta-gamma encoder filter, serial
//! command parser, stepper ramp generator and the system state machine.
pub mod sat;
pub mod adrc;
pub mod encoder_core;
pub mod serial_core;
pub mod utils_core;
pub mod fixed_point;
pub mod utils;
pub mod motor;
pub mod sys;
pub mod ui;
pub mod serial;
pub mod host_log;
pub mod host_cmd;
pub mod task_loop;
