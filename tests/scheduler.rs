use ianny::config::Timer;
use ianny::scheduler::{poll_interval, BreakScheduler, Phase, SchedulerError, TickAction};
use ianny::signal::{Signal, SignalChannel};

fn default_scheduler() -> BreakScheduler {
    BreakScheduler::new(Timer::default()).unwrap()
}

#[test]
fn default_timer_values() {
    let t = Timer::default();
    assert!(!t.ignore_idle_inhibitors);
    assert_eq!(t.idle_timeout, 240);
    assert_eq!(t.short_break_timeout, 1200);
    assert_eq!(t.long_break_timeout, 3840);
    assert_eq!(t.short_break_duration, 120);
    assert_eq!(t.long_break_duration, 240);
}

#[test]
fn poll_interval_is_gcd_of_default_periods() {
    // gcd(1200, 3840) = 240, below the idle cap of 241.
    assert_eq!(poll_interval(&Timer::default()), Ok(240));
}

#[test]
fn poll_interval_capped_by_idle_timeout() {
    let t = Timer { idle_timeout: 59, short_break_timeout: 600, long_break_timeout: 1800, ..Timer::default() };
    assert_eq!(poll_interval(&t), Ok(60));
    let t = Timer { idle_timeout: 10, ..t };
    assert_eq!(poll_interval(&t), Ok(11));
}

#[test]
fn poll_interval_with_one_zero_period() {
    let t = Timer { short_break_timeout: 0, long_break_timeout: 90, ..Timer::default() };
    assert_eq!(poll_interval(&t), Ok(90));
}

#[test]
fn zero_periods_fail_fast() {
    let t = Timer { short_break_timeout: 0, long_break_timeout: 0, ..Timer::default() };
    assert_eq!(poll_interval(&t), Err(SchedulerError::ZeroPollInterval));
    assert_eq!(BreakScheduler::new(t), Err(SchedulerError::ZeroPollInterval));
}

#[test]
fn new_scheduler_counts_from_zero() {
    let s = default_scheduler();
    assert_eq!(s.short_elapsed, 0);
    assert_eq!(s.long_elapsed, 0);
    assert_eq!(s.phase, Phase::ActiveCounting);
    assert_eq!(s.poll_interval, 240);
}

#[test]
fn short_break_after_ten_ticks() {
    let mut s = default_scheduler();
    let mut ch = SignalChannel::new();
    for _ in 0..9 {
        assert_eq!(s.tick(120, &mut ch), TickAction::Continue);
    }
    assert_eq!(s.tick(120, &mut ch), TickAction::ShowShortBreak { duration: 120 });
    assert_eq!(s.phase, Phase::BreakInShort);
    s.finish_short_break(120);
    assert_eq!(s.short_elapsed, 0);
    assert_eq!(s.long_elapsed, 1200);
    assert_eq!(s.phase, Phase::ActiveCounting);
}

#[test]
fn long_break_at_tick_thirty_two() {
    let mut s = default_scheduler();
    let mut ch = SignalChannel::new();
    for tick in 1..=31u64 {
        let action = s.tick(120, &mut ch);
        if tick % 10 == 0 {
            assert_eq!(action, TickAction::ShowShortBreak { duration: 120 });
            s.finish_short_break(120);
        } else {
            assert_eq!(action, TickAction::Continue);
        }
    }
    assert_eq!(s.long_elapsed, 3720);
    assert_eq!(s.tick(120, &mut ch), TickAction::ShowLongBreak { duration: 240 });
    assert_eq!(s.long_elapsed, 3840);
    s.finish_long_break();
    assert_eq!(s.short_elapsed, 0);
    assert_eq!(s.long_elapsed, 0);
}

#[test]
fn long_break_outranks_short_break() {
    let t = Timer { short_break_timeout: 100, long_break_timeout: 200, idle_timeout: 1000, ..Timer::default() };
    let mut s = BreakScheduler::new(t).unwrap();
    let mut ch = SignalChannel::new();
    assert_eq!(s.tick(99, &mut ch), TickAction::Continue);
    assert_eq!(s.tick(101, &mut ch), TickAction::ShowLongBreak { duration: 240 });
    assert!(s.short_elapsed >= 100);
    s.finish_long_break();
    assert_eq!((s.short_elapsed, s.long_elapsed), (0, 0));
}

#[test]
fn idle_resets_counters_on_resume() {
    let mut s = default_scheduler();
    let mut ch = SignalChannel::new();
    for _ in 0..4 {
        assert_eq!(s.tick(120, &mut ch), TickAction::Continue);
    }
    assert!(ch.try_send(Signal::Idled));
    assert_eq!(s.tick(120, &mut ch), TickAction::WaitForResume);
    assert_eq!(s.short_elapsed, 600);
    assert_eq!(s.long_elapsed, 600);
    assert_eq!(s.phase, Phase::IdleWaiting);
    // Fifty seconds later the user comes back.
    assert!(ch.try_send(Signal::Resumed));
    let signal = ch.try_recv().unwrap();
    assert!(s.receive_while_idle(signal, &mut ch));
    assert_eq!(s.short_elapsed, 0);
    assert_eq!(s.long_elapsed, 0);
    assert_eq!(s.phase, Phase::ActiveCounting);
}

#[test]
fn counters_frozen_while_idle() {
    let mut s = default_scheduler();
    let mut ch = SignalChannel::new();
    assert!(ch.try_send(Signal::Idled));
    assert_eq!(s.tick(200, &mut ch), TickAction::WaitForResume);
    for _ in 0..3 {
        assert!(!s.receive_while_idle(Signal::Idled, &mut ch));
        assert_eq!((s.short_elapsed, s.long_elapsed), (200, 200));
        assert_eq!(s.phase, Phase::IdleWaiting);
    }
    assert!(ch.try_send(Signal::Idled));
    assert!(s.receive_while_idle(Signal::Resumed, &mut ch));
    assert!(ch.is_empty());
    assert_eq!((s.short_elapsed, s.long_elapsed), (0, 0));
}

#[test]
fn stale_resumed_signal_is_consumed_and_counting_goes_on() {
    let mut s = default_scheduler();
    let mut ch = SignalChannel::new();
    assert!(ch.try_send(Signal::Resumed));
    assert_eq!(s.tick(120, &mut ch), TickAction::Continue);
    assert!(ch.is_empty());
    assert_eq!(s.short_elapsed, 120);
}

#[test]
fn short_break_overrun_resets_long_counter() {
    let mut s = default_scheduler();
    let mut ch = SignalChannel::new();
    for _ in 0..9 {
        s.tick(120, &mut ch);
    }
    assert_eq!(s.tick(120, &mut ch), TickAction::ShowShortBreak { duration: 120 });
    // 480 - 120 = 360 >= 240
    s.finish_short_break(480);
    assert_eq!(s.short_elapsed, 0);
    assert_eq!(s.long_elapsed, 0);
}

#[test]
fn short_break_overrun_just_below_idle_timeout_keeps_long_counter() {
    let mut s = default_scheduler();
    let mut ch = SignalChannel::new();
    for _ in 0..10 {
        s.tick(120, &mut ch);
    }
    assert_eq!(s.phase, Phase::BreakInShort);
    s.finish_short_break(359);
    assert_eq!(s.long_elapsed, 1200);
    let mut s2 = default_scheduler();
    for _ in 0..10 {
        s2.tick(120, &mut ch);
    }
    s2.finish_short_break(360);
    assert_eq!(s2.long_elapsed, 0);
}

#[test]
fn short_break_shorter_than_nominal_keeps_long_counter() {
    let mut s = default_scheduler();
    let mut ch = SignalChannel::new();
    for _ in 0..10 {
        s.tick(120, &mut ch);
    }
    s.finish_short_break(100);
    assert_eq!(s.long_elapsed, 1200);
}

#[test]
fn suspend_gap_clears_both_counters() {
    let mut s = default_scheduler();
    let mut ch = SignalChannel::new();
    for _ in 0..7 {
        s.tick(120, &mut ch);
    }
    assert_eq!(s.long_elapsed, 840);
    // poll interval 240 + idle timeout 240
    assert!(ch.try_send(Signal::Idled));
    assert_eq!(s.tick(480, &mut ch), TickAction::SuspendReset);
    assert_eq!((s.short_elapsed, s.long_elapsed), (0, 0));
    assert_eq!(s.phase, Phase::ActiveCounting);
    // The signal check was skipped: the signal is still waiting.
    assert_eq!(ch.len(), 1);
}

#[test]
fn gap_just_below_threshold_is_counted() {
    let mut s = default_scheduler();
    let mut ch = SignalChannel::new();
    assert_eq!(s.tick(479, &mut ch), TickAction::Continue);
    assert_eq!(s.short_elapsed, 479);
}

#[test]
fn counters_saturate() {
    let t = Timer { short_break_timeout: u64::MAX, long_break_timeout: u64::MAX, idle_timeout: u32::MAX, ..Timer::default() };
    let mut s = BreakScheduler::new(t).unwrap();
    assert_eq!(s.poll_interval, u32::MAX as u64 + 1);
    let mut ch = SignalChannel::new();
    s.tick(u32::MAX as u64, &mut ch);
    s.short_elapsed = u64::MAX - 1;
    s.long_elapsed = u64::MAX - 1;
    assert_eq!(s.tick(5, &mut ch), TickAction::ShowLongBreak { duration: 240 });
    assert_eq!(s.long_elapsed, u64::MAX);
}
