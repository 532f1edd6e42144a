//! The clock that starts from a calendar date and time and follows the time
//! elapsed since.
pub mod smoothing;
pub mod utils;

pub use crate::pid::PID;
pub use smoothing::SmoothedHands;
pub use utils::{calculate_clock_angles, decompose_duration, HandAngles, Time};
