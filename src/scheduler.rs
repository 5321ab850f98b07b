//! The break scheduler: two countdowns advanced by measured wall-clock time,
//! frozen while the user is idle, reset across host suspends, and the rule
//! that decides which break, if any, is due on a tick.

use crate::config::Timer;
use crate::signal::{Signal, SignalChannel};
use vstd::prelude::*;

verus! {

/// The greatest common divisor, by Euclid's recurrence.
pub open spec fn gcd(a: nat, b: nat) -> nat
    decreases b,
{
    if b == 0 {
        a
    } else {
        gcd(b, a % b)
    }
}

/// Relies on gcd::binary_u64: the greatest common divisor of its arguments,
/// which is the other argument when one of them is zero.
#[verifier::external_body]
fn gcd_u64(a: u64, b: u64) -> (r: u64)
    ensures
        r == gcd(a as nat, b as nat),
{
    gcd::binary_u64(a, b)
}

/// The tick period in seconds: fine enough to land on every multiple of
/// both break periods, and never longer than one idle period plus a second.
pub open spec fn poll_interval_of(t: Timer) -> int {
    let g = gcd(t.short_break_timeout as nat, t.long_break_timeout as nat);
    if g <= t.idle_timeout + 1 {
        g as int
    } else {
        t.idle_timeout + 1
    }
}

/// `a + b`, held at `u64::MAX`.
pub open spec fn add_capped(a: u64, b: u64) -> u64 {
    if a + b > u64::MAX {
        u64::MAX
    } else {
        (a + b) as u64
    }
}

proof fn lemma_gcd_zero(a: nat, b: nat)
    ensures
        gcd(a, b) == 0 <==> (a == 0 && b == 0),
    decreases b,
{
    if b != 0 {
        lemma_gcd_zero(b, a % b);
    }
}

/// The signal that a non-blocking receive takes from a queue holding `q`.
pub open spec fn first_waiting(q: Seq<Signal>) -> Option<Signal> {
    if q.len() > 0 {
        Some(q[0])
    } else {
        None
    }
}

/// What such a receive leaves in the queue.
pub open spec fn after_poll(q: Seq<Signal>) -> Seq<Signal> {
    if q.len() > 0 {
        q.drop_first()
    } else {
        q
    }
}

#[derive(Clone, Copy, Debug, PartialEq, Eq, Structural)]
pub enum SchedulerError {
    /// Both break periods are zero, so no tick period can be derived.
    ZeroPollInterval,
}

/// Derives the tick period from the break periods and the idle timeout.
pub fn poll_interval(timer: &Timer) -> (r: Result<u64, SchedulerError>)
    ensures
        r is Err <==> (timer.short_break_timeout == 0 && timer.long_break_timeout == 0),
        match r {
            Ok(p) => p == poll_interval_of(*timer) && p > 0,
            Err(e) => e == SchedulerError::ZeroPollInterval,
        },
{
    let g = gcd_u64(timer.short_break_timeout, timer.long_break_timeout);
    proof {
        lemma_gcd_zero(timer.short_break_timeout as nat, timer.long_break_timeout as nat);
    }
    if g == 0 {
        return Err(SchedulerError::ZeroPollInterval);
    }
    let cap: u64 = timer.idle_timeout as u64 + 1;
    if g <= cap {
        Ok(g)
    } else {
        Ok(cap)
    }
}

/// Where the scheduler stands between two of its calls.
#[derive(Clone, Copy, Debug, PartialEq, Eq, Structural)]
pub enum Phase {
    /// Both countdowns advance with each tick.
    ActiveCounting,
    /// The user went idle; nothing advances until they resume.
    IdleWaiting,
    /// A short break is on screen.
    BreakInShort,
    /// A long break is on screen.
    BreakInLong,
}

/// What the caller is to do after a tick.
#[derive(Clone, Copy, Debug, PartialEq, Eq, Structural)]
pub enum TickAction {
    /// Sleep until the next tick.
    Continue,
    /// The gap since the last tick was a host suspend: both countdowns were
    /// cleared. Sleep until the next tick.
    SuspendReset,
    /// The user went idle: wait for signals until one resumes activity.
    WaitForResume,
    /// Show a short break of `duration` seconds.
    ShowShortBreak { duration: u64 },
    /// Show a long break of `duration` seconds.
    ShowLongBreak { duration: u64 },
}

/// The scheduler's whole state. Only the thread that runs the ticks owns it.
#[derive(Clone, Copy, Debug, PartialEq, Eq, Structural)]
pub struct BreakScheduler {
    pub timer: Timer,
    /// Seconds between two ticks.
    pub poll_interval: u64,
    /// Seconds of activity counted towards the next short break.
    pub short_elapsed: u64,
    /// Seconds of activity counted towards the next long break.
    pub long_elapsed: u64,
    pub phase: Phase,
}

impl BreakScheduler {
    pub open spec fn wf(&self) -> bool {
        &&& self.poll_interval > 0
        &&& self.poll_interval == poll_interval_of(self.timer)
    }

    /// A measured gap this long means the host itself slept through at
    /// least one idle timeout, so the user's activity is unknown.
    pub open spec fn is_suspend_gap(&self, dt: u64) -> bool {
        dt >= self.poll_interval + self.timer.idle_timeout
    }

    /// The same scheduler with both countdowns cleared and counting again.
    pub open spec fn cleared(self) -> BreakScheduler {
        BreakScheduler { short_elapsed: 0, long_elapsed: 0, phase: Phase::ActiveCounting, ..self }
    }

    /// The phase that the tick rules pick once the countdowns stand at
    /// `short` and `long`: idle first, then the long break, then the short one.
    pub open spec fn phase_for(self, short: u64, long: u64, polled: Option<Signal>) -> Phase {
        if polled == Some(Signal::Idled) {
            Phase::IdleWaiting
        } else if long >= self.timer.long_break_timeout {
            Phase::BreakInLong
        } else if short >= self.timer.short_break_timeout {
            Phase::BreakInShort
        } else {
            Phase::ActiveCounting
        }
    }

    /// The state after a tick that measured `dt` seconds since the previous
    /// one and found `polled` waiting in the signal channel.
    pub open spec fn after_tick(self, dt: u64, polled: Option<Signal>) -> BreakScheduler {
        if self.is_suspend_gap(dt) {
            self.cleared()
        } else {
            let short = add_capped(self.short_elapsed, dt);
            let long = add_capped(self.long_elapsed, dt);
            BreakScheduler {
                short_elapsed: short,
                long_elapsed: long,
                phase: self.phase_for(short, long, polled),
                ..self
            }
        }
    }

    /// What that tick asks of the caller.
    pub open spec fn tick_action(self, dt: u64, polled: Option<Signal>) -> TickAction {
        if self.is_suspend_gap(dt) {
            TickAction::SuspendReset
        } else {
            match self.after_tick(dt, polled).phase {
                Phase::IdleWaiting => TickAction::WaitForResume,
                Phase::BreakInLong => TickAction::ShowLongBreak {
                    duration: self.timer.long_break_duration,
                },
                Phase::BreakInShort => TickAction::ShowShortBreak {
                    duration: self.timer.short_break_duration,
                },
                Phase::ActiveCounting => TickAction::Continue,
            }
        }
    }

    /// The state after a signal arrives while waiting for the user.
    pub open spec fn after_idle_signal(self, s: Signal) -> BreakScheduler {
        match s {
            Signal::Resumed => self.cleared(),
            Signal::Idled => self,
        }
    }

    /// The state after each of `signals` arrives in turn while waiting.
    pub open spec fn after_idle_signals(self, signals: Seq<Signal>) -> BreakScheduler
        decreases signals.len(),
    {
        if signals.len() == 0 {
            self
        } else {
            self.after_idle_signals(signals.drop_last()).after_idle_signal(signals.last())
        }
    }

    /// A short break that took `actual` seconds overran its nominal length
    /// by at least one idle timeout: the user was away during it.
    pub open spec fn short_break_overran(self, actual: u64) -> bool {
        actual >= self.timer.short_break_duration + self.timer.idle_timeout
    }

    /// The state after a short break that took `actual` seconds.
    pub open spec fn after_short_break(self, actual: u64) -> BreakScheduler {
        BreakScheduler {
            short_elapsed: 0,
            long_elapsed: if self.short_break_overran(actual) {
                0
            } else {
                self.long_elapsed
            },
            phase: Phase::ActiveCounting,
            ..self
        }
    }

    /// The state after a long break.
    pub open spec fn after_long_break(self) -> BreakScheduler {
        self.cleared()
    }

    /// A scheduler for `timer`, counting from zero. Fails when no tick
    /// period can be derived.
    pub fn new(timer: Timer) -> (r: Result<BreakScheduler, SchedulerError>)
        ensures
            r is Err <==> (timer.short_break_timeout == 0 && timer.long_break_timeout == 0),
            match r {
                Ok(s) => {
                    &&& s.wf()
                    &&& s.timer == timer
                    &&& s.short_elapsed == 0
                    &&& s.long_elapsed == 0
                    &&& s.phase == Phase::ActiveCounting
                },
                Err(e) => e == SchedulerError::ZeroPollInterval,
            },
    {
        match poll_interval(&timer) {
            Ok(p) => Ok(
                BreakScheduler {
                    timer,
                    poll_interval: p,
                    short_elapsed: 0,
                    long_elapsed: 0,
                    phase: Phase::ActiveCounting,
                },
            ),
            Err(e) => Err(e),
        }
    }

    /// One tick: `dt` is the wall-clock time measured since the previous
    /// tick. Unless the gap was a host suspend, the oldest waiting signal,
    /// if any, is taken from `signals` and decides whether the user went idle.
    pub fn tick(&mut self, dt: u64, signals: &mut SignalChannel) -> (r: TickAction)
        requires
            old(self).wf(),
            old(self).phase == Phase::ActiveCounting,
            old(signals).wf(),
        ensures
            final(self).wf(),
            final(signals).wf(),
            old(self).is_suspend_gap(dt) ==> {
                &&& *final(self) == old(self).after_tick(dt, None)
                &&& r == old(self).tick_action(dt, None)
                &&& final(signals)@ == old(signals)@
            },
            !old(self).is_suspend_gap(dt) ==> {
                &&& *final(self) == old(self).after_tick(dt, first_waiting(old(signals)@))
                &&& r == old(self).tick_action(dt, first_waiting(old(signals)@))
                &&& final(signals)@ == after_poll(old(signals)@)
            },
    {
        let gap: u64 = self.poll_interval + self.timer.idle_timeout as u64;
        if dt >= gap {
            self.short_elapsed = 0;
            self.long_elapsed = 0;
            return TickAction::SuspendReset;
        }
        self.short_elapsed = self.short_elapsed.saturating_add(dt);
        self.long_elapsed = self.long_elapsed.saturating_add(dt);
        let idled = match signals.try_recv() {
            Some(Signal::Idled) => true,
            _ => false,
        };
        if idled {
            self.phase = Phase::IdleWaiting;
            TickAction::WaitForResume
        } else if self.long_elapsed >= self.timer.long_break_timeout {
            self.phase = Phase::BreakInLong;
            TickAction::ShowLongBreak { duration: self.timer.long_break_duration }
        } else if self.short_elapsed >= self.timer.short_break_timeout {
            self.phase = Phase::BreakInShort;
            TickAction::ShowShortBreak { duration: self.timer.short_break_duration }
        } else {
            TickAction::Continue
        }
    }

    /// Handles a signal received while waiting for the user to come back;
    /// tells whether it ended the wait. A resume also drops whatever signals
    /// are still waiting in `signals`: they belong to the idle period.
    pub fn receive_while_idle(&mut self, s: Signal, signals: &mut SignalChannel) -> (resumed: bool)
        requires
            old(self).wf(),
            old(self).phase == Phase::IdleWaiting,
            old(signals).wf(),
        ensures
            final(self).wf(),
            final(signals).wf(),
            *final(self) == old(self).after_idle_signal(s),
            resumed == (s == Signal::Resumed),
            resumed ==> final(signals)@ == Seq::<Signal>::empty(),
            !resumed ==> final(signals)@ == old(signals)@,
    {
        match s {
            Signal::Resumed => {
                signals.clear();
                self.short_elapsed = 0;
                self.long_elapsed = 0;
                self.phase = Phase::ActiveCounting;
                true
            },
            Signal::Idled => false,
        }
    }

    /// Records the end of a short break that took `actual` seconds.
    pub fn finish_short_break(&mut self, actual: u64)
        requires
            old(self).wf(),
            old(self).phase == Phase::BreakInShort,
        ensures
            final(self).wf(),
            *final(self) == old(self).after_short_break(actual),
    {
        let duration = self.timer.short_break_duration;
        if actual >= duration && actual - duration >= self.timer.idle_timeout as u64 {
            self.long_elapsed = 0;
        }
        self.short_elapsed = 0;
        self.phase = Phase::ActiveCounting;
    }

    /// Records the end of a long break.
    pub fn finish_long_break(&mut self)
        requires
            old(self).wf(),
            old(self).phase == Phase::BreakInLong,
        ensures
            final(self).wf(),
            *final(self) == old(self).after_long_break(),
    {
        self.short_elapsed = 0;
        self.long_elapsed = 0;
        self.phase = Phase::ActiveCounting;
    }
}

proof fn lemma_idled_signals_change_nothing(w: BreakScheduler, waiting: Seq<Signal>)
    requires
        forall|i: int| 0 <= i < waiting.len() ==> waiting[i] == Signal::Idled,
    ensures
        w.after_idle_signals(waiting) == w,
    decreases waiting.len(),
{
    if waiting.len() > 0 {
        lemma_idled_signals_change_nothing(w, waiting.drop_last());
    }
}

/// Once a tick observes `Idled`, neither countdown moves whatever further
/// `Idled` signals arrive, and the `Resumed` that ends the wait clears both.
pub proof fn lemma_idle_pause(s: BreakScheduler, dt: u64, waiting: Seq<Signal>)
    requires
        s.wf(),
        s.phase == Phase::ActiveCounting,
        !s.is_suspend_gap(dt),
        forall|i: int| 0 <= i < waiting.len() ==> waiting[i] == Signal::Idled,
    ensures
        s.after_tick(dt, Some(Signal::Idled)).phase == Phase::IdleWaiting,
        forall|k: int|
            #![trigger waiting.take(k)]
            0 <= k <= waiting.len() ==> {
                let w = s.after_tick(dt, Some(Signal::Idled));
                let v = w.after_idle_signals(waiting.take(k));
                &&& v.short_elapsed == w.short_elapsed
                &&& v.long_elapsed == w.long_elapsed
                &&& v.phase == Phase::IdleWaiting
            },
        ({
            let r = s.after_tick(dt, Some(Signal::Idled)).after_idle_signals(waiting).after_idle_signal(
                Signal::Resumed,
            );
            &&& r.short_elapsed == 0
            &&& r.long_elapsed == 0
            &&& r.phase == Phase::ActiveCounting
        }),
{
    let w = s.after_tick(dt, Some(Signal::Idled));
    assert forall|k: int| 0 <= k <= waiting.len() implies #[trigger] w.after_idle_signals(
        waiting.take(k),
    ) == w by {
        lemma_idled_signals_change_nothing(w, waiting.take(k));
    }
    lemma_idled_signals_change_nothing(w, waiting);
}

/// When a tick leaves both countdowns at or past their periods, only the
/// long break comes, and it clears both countdowns.
pub proof fn lemma_long_dominance(s: BreakScheduler, dt: u64, polled: Option<Signal>)
    requires
        s.wf(),
        s.phase == Phase::ActiveCounting,
        !s.is_suspend_gap(dt),
        polled != Some(Signal::Idled),
        s.after_tick(dt, polled).long_elapsed >= s.timer.long_break_timeout,
        s.after_tick(dt, polled).short_elapsed >= s.timer.short_break_timeout,
    ensures
        s.tick_action(dt, polled) == (TickAction::ShowLongBreak {
            duration: s.timer.long_break_duration,
        }),
        s.after_tick(dt, polled).phase == Phase::BreakInLong,
        s.after_tick(dt, polled).after_long_break().short_elapsed == 0,
        s.after_tick(dt, polled).after_long_break().long_elapsed == 0,
        s.after_tick(dt, polled).after_long_break().phase == Phase::ActiveCounting,
{
}

/// When a tick leaves only the short countdown at or past its period, the
/// short break comes; afterwards the short countdown is zero and the long
/// one is kept, unless the break overran by an idle timeout, which clears it.
pub proof fn lemma_short_only_reset(
    s: BreakScheduler,
    dt: u64,
    polled: Option<Signal>,
    actual: u64,
)
    requires
        s.wf(),
        s.phase == Phase::ActiveCounting,
        !s.is_suspend_gap(dt),
        polled != Some(Signal::Idled),
        s.after_tick(dt, polled).long_elapsed < s.timer.long_break_timeout,
        s.after_tick(dt, polled).short_elapsed >= s.timer.short_break_timeout,
    ensures
        s.tick_action(dt, polled) == (TickAction::ShowShortBreak {
            duration: s.timer.short_break_duration,
        }),
        s.after_tick(dt, polled).phase == Phase::BreakInShort,
        s.after_tick(dt, polled).after_short_break(actual).short_elapsed == 0,
        !s.short_break_overran(actual) ==> s.after_tick(dt, polled).after_short_break(
            actual,
        ).long_elapsed == s.after_tick(dt, polled).long_elapsed,
        s.short_break_overran(actual) ==> s.after_tick(dt, polled).after_short_break(
            actual,
        ).long_elapsed == 0,
{
}

/// A gap of at least one tick period plus one idle timeout clears both
/// countdowns, whatever they held and whatever signal is waiting.
pub proof fn lemma_suspend_gap(s: BreakScheduler, dt: u64, polled: Option<Signal>)
    requires
        s.wf(),
        s.phase == Phase::ActiveCounting,
        dt >= s.poll_interval + s.timer.idle_timeout,
    ensures
        s.after_tick(dt, polled).short_elapsed == 0,
        s.after_tick(dt, polled).long_elapsed == 0,
        s.after_tick(dt, polled).phase == Phase::ActiveCounting,
        s.tick_action(dt, polled) == TickAction::SuspendReset,
{
}

} // verus!
