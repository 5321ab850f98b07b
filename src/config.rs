//! Settings read once at start-up and never changed afterwards.

use vstd::prelude::*;

verus! {

/// The whole settings document.
#[derive(Clone, Copy, Debug, PartialEq, Eq, Structural)]
pub struct Config {
    pub notification: Notification,
    pub timer: Timer,
}

/// How a break notification is drawn.
#[derive(Clone, Copy, Debug, PartialEq, Eq, Structural)]
pub struct Notification {
    pub show_progress_bar: bool,
    /// Seconds between two progress updates.
    pub minimum_update_delay: u64,
}

/// When breaks come and how long they last, all in seconds.
#[derive(Clone, Copy, Debug, PartialEq, Eq, Structural)]
pub struct Timer {
    pub ignore_idle_inhibitors: bool,
    pub idle_timeout: u32,
    pub short_break_timeout: u64,
    pub long_break_timeout: u64,
    pub short_break_duration: u64,
    pub long_break_duration: u64,
}

pub open spec fn default_notification() -> Notification {
    Notification { show_progress_bar: true, minimum_update_delay: 1 }
}

/// Four minutes of inactivity count as idle; a short break of two minutes
/// every twenty minutes; a long break of four minutes every sixty-four.
pub open spec fn default_timer() -> Timer {
    Timer {
        ignore_idle_inhibitors: false,
        idle_timeout: 240,
        short_break_timeout: 1200,
        long_break_timeout: 3840,
        short_break_duration: 120,
        long_break_duration: 240,
    }
}

impl Default for Notification {
    fn default() -> (r: Self)
        ensures
            r == default_notification(),
    {
        Notification { show_progress_bar: true, minimum_update_delay: 1 }
    }
}

impl Default for Timer {
    fn default() -> (r: Self)
        ensures
            r == default_timer(),
    {
        Timer {
            ignore_idle_inhibitors: false,
            idle_timeout: 240,
            short_break_timeout: 1200,
            long_break_timeout: 3840,
            short_break_duration: 120,
            long_break_duration: 240,
        }
    }
}

impl Default for Config {
    fn default() -> (r: Self)
        ensures
            r.notification == default_notification(),
            r.timer == default_timer(),
    {
        Config { notification: Notification::default(), timer: Timer::default() }
    }
}

} // verus!
