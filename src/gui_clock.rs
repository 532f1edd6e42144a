//! The clock whose hands follow a time of day given as hours, minutes,
//! seconds and milliseconds.
pub mod utils;

pub use utils::{calculate_clock_angles, decompose_duration, ClockAngles, Time};
