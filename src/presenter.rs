//! What the break presenter decides while a break is on screen: how long to
//! sleep between two looks at the clock, when the progress bar moves, when
//! the break is over, and how long it really took.

use crate::config::Notification;
use crate::scheduler::add_capped;
use vstd::prelude::*;
use vstd::arithmetic::div_mod::{lemma_div_denominator, lemma_div_multiples_vanish_quotient};

verus! {

/// The whole percentage of a break of `duration` seconds that `elapsed_ms`
/// milliseconds cover, at most 100. A break of no length is complete at once.
pub open spec fn percent_of(elapsed_ms: u64, duration: u64) -> u64 {
    if duration == 0 {
        100
    } else if elapsed_ms * 100 / (duration * 1000) >= 100 {
        100
    } else {
        (elapsed_ms * 100 / (duration * 1000)) as u64
    }
}

proof fn lemma_percent_scale(e: int, d: int)
    requires
        e >= 0,
        d > 0,
    ensures
        (e * 100) / (d * 1000) == (e / 10) / d,
{
    lemma_div_multiples_vanish_quotient(100, e, 10 * d);
    assert(100 * (10 * d) == d * 1000) by (nonlinear_arith);
    lemma_div_denominator(e, 10, d);
}

/// What the presenter does after one step.
#[derive(Clone, Copy, Debug, PartialEq, Eq, Structural)]
pub struct StepOutcome {
    /// The new percentage to show, when the bar is shown and the whole
    /// percentage changed.
    pub update: Option<u64>,
    /// The break has lasted its nominal length: close the notification.
    pub finished: bool,
}

/// The progress of one break on screen.
#[derive(Clone, Copy, Debug, PartialEq, Eq, Structural)]
pub struct BreakProgress {
    /// Nominal length of the break, in seconds.
    pub duration: u64,
    pub show_progress_bar: bool,
    /// Seconds between two progress updates.
    pub update_delay: u64,
    /// Measured time on screen so far, in milliseconds.
    pub elapsed_ms: u64,
    /// The percentage shown last.
    pub percent: u64,
}

impl BreakProgress {
    pub open spec fn wf(&self) -> bool {
        self.percent == percent_of(self.elapsed_ms, self.duration) || (self.elapsed_ms == 0
            && self.percent == 0)
    }

    /// Whether the measured time covers the nominal length.
    pub open spec fn is_finished(&self) -> bool {
        self.elapsed_ms >= self.duration * 1000
    }

    /// A break of `duration` seconds, not yet started.
    pub fn new(duration: u64, notification: &Notification) -> (r: BreakProgress)
        ensures
            r.wf(),
            r.duration == duration,
            r.show_progress_bar == notification.show_progress_bar,
            r.update_delay == notification.minimum_update_delay,
            r.elapsed_ms == 0,
            r.percent == 0,
    {
        BreakProgress {
            duration,
            show_progress_bar: notification.show_progress_bar,
            update_delay: notification.minimum_update_delay,
            elapsed_ms: 0,
            percent: 0,
        }
    }

    /// Seconds to sleep before the next look at the clock: the update delay
    /// when the bar is shown, else the whole break in one sleep.
    pub fn step_secs(&self) -> (r: u64)
        ensures
            r == (if self.show_progress_bar {
                self.update_delay
            } else {
                self.duration
            }),
    {
        if self.show_progress_bar {
            self.update_delay
        } else {
            self.duration
        }
    }

    /// Records a step that measured `dt_ms` milliseconds on the clock.
    pub fn record_step(&mut self, dt_ms: u64) -> (r: StepOutcome)
        requires
            old(self).wf(),
        ensures
            final(self).wf(),
            final(self).duration == old(self).duration,
            final(self).show_progress_bar == old(self).show_progress_bar,
            final(self).update_delay == old(self).update_delay,
            final(self).elapsed_ms == add_capped(old(self).elapsed_ms, dt_ms),
            final(self).percent == percent_of(final(self).elapsed_ms, old(self).duration),
            r.finished == final(self).is_finished(),
            r.update == (if old(self).show_progress_bar && final(self).percent != old(
                self,
            ).percent {
                Some(final(self).percent)
            } else {
                None
            }),
    {
        self.elapsed_ms = self.elapsed_ms.saturating_add(dt_ms);
        let percent = if self.duration == 0 {
            100
        } else {
            let p = self.elapsed_ms / 10 / self.duration;
            proof {
                lemma_percent_scale(self.elapsed_ms as int, self.duration as int);
            }
            if p >= 100 {
                100
            } else {
                p
            }
        };
        let update = if self.show_progress_bar && percent != self.percent {
            Some(percent)
        } else {
            None
        };
        self.percent = percent;
        StepOutcome { update, finished: self.elapsed_ms / 1000 >= self.duration }
    }

    /// The measured time on screen, in whole seconds.
    pub fn actual_secs(&self) -> (r: u64)
        ensures
            r == self.elapsed_ms / 1000,
    {
        self.elapsed_ms / 1000
    }
}

} // verus!
