//! Verified core of a garden irrigation controller: the event flags of its
//! tasks, the widgets of its display, the sprinkler schedules, the user
//! session and the command line that drives them.
use vstd::prelude::*;

pub mod command_args;
pub mod command_line;
pub mod config;
pub mod date_time;
pub mod display;
pub mod gpio;
pub mod main_fsm;
pub mod screens;
pub mod session;
pub mod signals;
pub mod sprinkler;
pub mod storage;
pub mod system;
pub mod text_format;

verus! {

/// Sum of two counters, as the firmware's C entry point adds them.
pub fn app_add(left: u64, right: u64) -> (sum: u64)
    requires
        left + right <= u64::MAX,
    ensures
        sum == left + right,
{
    left + right
}

} // verus!
