//! Countdown timers. The timers are bevy's; this module gives them a
//! mathematical view and states what each call does to it.

use bevy::time::Timer;
use bevy::time::TimerMode;
use std::time::Duration;
use vstd::prelude::*;

verus! {

/// Makes bevy's `Timer` known to the verifier, as a value whose inside it
/// does not see.
#[verifier::external_type_specification]
#[verifier::external_body]
pub struct ExTimer(bevy::time::Timer);

/// What a timer holds, with all times in nanoseconds.
pub struct TimerState {
    /// Length of one period.
    pub duration: nat,
    /// Time accumulated in the current period.
    pub elapsed: nat,
    /// Whether the timer starts a new period each time it runs out.
    pub repeating: bool,
    /// Whether the timer has reached its duration.
    pub finished: bool,
    /// How many periods ended during the latest tick.
    pub fired: nat,
    /// Whether ticking is suspended.
    pub paused: bool,
}

/// The state held by a bevy `Timer`: its duration, elapsed time, mode,
/// finished flag, count of periods ended in the latest tick, and pause flag.
/// Nothing is known of it but what the functions below say.
pub uninterp spec fn timer_state(t: Timer) -> TimerState;

/// A timer that this library can tick: its duration is a whole number of
/// nanoseconds that fits in 64 bits, and it has not run past it.
pub open spec fn timer_ok(s: TimerState) -> bool {
    &&& s.elapsed <= s.duration
    &&& s.duration <= u64::MAX
}

/// A timer as it is right after its creation.
pub open spec fn fresh(duration: nat, repeating: bool) -> TimerState {
    TimerState { duration, elapsed: 0, repeating, finished: false, fired: 0, paused: false }
}

/// A timer after a tick of `delta` nanoseconds.
///
/// A paused timer takes no time in: the tick ends no period, and a repeating
/// timer is no longer finished. A running one-shot timer stops at its
/// duration and stays finished. A running repeating timer wraps around, and
/// counts the periods that ended in a 32-bit counter.
pub open spec fn ticked(s: TimerState, delta: nat) -> TimerState {
    let total = s.elapsed + delta;
    if s.paused {
        TimerState {
            fired: 0,
            finished: if s.repeating {
                false
            } else {
                s.finished
            },
            ..s
        }
    } else if !s.repeating && s.finished {
        TimerState { fired: 0, ..s }
    } else if total < s.duration {
        TimerState { elapsed: total, finished: false, fired: 0, ..s }
    } else if !s.repeating {
        TimerState { elapsed: s.duration, finished: true, fired: 1, ..s }
    } else if s.duration == 0 {
        TimerState { elapsed: 0, finished: true, fired: u32::MAX as nat, ..s }
    } else {
        TimerState {
            elapsed: total % s.duration,
            finished: true,
            fired: (total / s.duration) % 0x1_0000_0000,
            ..s
        }
    }
}

/// A timer after it was reset: nothing elapsed, not finished.
pub open spec fn restarted(s: TimerState) -> TimerState {
    TimerState { elapsed: 0, finished: false, fired: 0, ..s }
}

/// Whether the latest tick ended a period.
pub open spec fn just_fired(s: TimerState) -> bool {
    s.fired > 0
}

/// `Timer::new` of bevy, with the duration given in nanoseconds: the new
/// timer has that duration and mode, no elapsed time, and is neither finished
/// nor paused.
#[verifier::external_body]
pub(crate) fn new_timer(duration_nanos: u64, repeating: bool) -> (t: Timer)
    ensures
        timer_state(t) == fresh(duration_nanos as nat, repeating),
{
    Timer::new(
        Duration::from_nanos(duration_nanos),
        if repeating { TimerMode::Repeating } else { TimerMode::Once },
    )
}

/// `Timer::tick` of bevy, with the step given in nanoseconds: the timer
/// advances as [`ticked`] says. A timer whose elapsed time or duration is
/// beyond 64 bits of nanoseconds is left out: the call adds the step to the
/// elapsed time before it wraps or clamps it, and panics where that sum
/// overflows.
#[verifier::external_body]
pub(crate) fn tick(t: &mut Timer, delta_nanos: u64)
    requires
        timer_ok(timer_state(*old(t))),
    ensures
        timer_state(*final(t)) == ticked(timer_state(*old(t)), delta_nanos as nat),
{
    t.tick(Duration::from_nanos(delta_nanos));
}

/// `Timer::finished` of bevy: whether the timer has reached its duration.
#[verifier::external_body]
pub(crate) fn finished(t: &Timer) -> (b: bool)
    ensures
        b == timer_state(*t).finished,
{
    t.finished()
}

/// `Timer::just_finished` of bevy: whether the latest tick ended a period.
#[verifier::external_body]
pub(crate) fn just_finished(t: &Timer) -> (b: bool)
    ensures
        b == just_fired(timer_state(*t)),
{
    t.just_finished()
}

/// `Timer::reset` of bevy: the elapsed time returns to zero and the timer is
/// no longer finished; duration, mode and pause are kept.
#[verifier::external_body]
pub(crate) fn reset(t: &mut Timer)
    ensures
        timer_state(*final(t)) == restarted(timer_state(*old(t))),
{
    t.reset();
}

/// A timer that can be ticked can be ticked again afterwards, and after a
/// reset.
pub proof fn lemma_timer_stays_ok(s: TimerState, delta: nat)
    requires
        timer_ok(s),
    ensures
        timer_ok(ticked(s, delta)),
        timer_ok(restarted(s)),
{
    let total = s.elapsed + delta;
    if s.repeating && s.duration > 0 && total >= s.duration {
        assert(total % s.duration < s.duration) by (nonlinear_arith)
            requires
                s.duration > 0,
                total >= 0,
        ;
    }
}

/// A running one-shot timer that has not finished is finished after a tick
/// exactly when the time it has accumulated reaches its duration.
pub proof fn lemma_one_shot_finishes(s: TimerState, delta: nat)
    requires
        !s.paused,
        !s.repeating,
        !s.finished,
    ensures
        ticked(s, delta).finished <==> s.elapsed + delta >= s.duration,
        ticked(s, delta).finished ==> ticked(s, delta).elapsed == s.duration,
        !ticked(s, delta).finished ==> ticked(s, delta).elapsed == s.elapsed + delta,
{
}

/// A running repeating timer fires on a tick exactly when the accumulated time
/// reaches its period, provided that the period is not zero and that fewer
/// than 2^32 periods end in the tick.
pub proof fn lemma_repeating_fires(s: TimerState, delta: nat)
    requires
        !s.paused,
        s.repeating,
        s.duration > 0,
        (s.elapsed + delta) / s.duration < 0x1_0000_0000,
    ensures
        just_fired(ticked(s, delta)) <==> s.elapsed + delta >= s.duration,
        ticked(s, delta).finished == just_fired(ticked(s, delta)),
{
    let total = s.elapsed + delta;
    let d = s.duration;
    if total >= d {
        assert(total / d >= 1) by (nonlinear_arith)
            requires
                total >= d,
                d > 0,
        ;
    }
}

} // verus!
