use vstd::prelude::*;

use crate::state::{State, TickResult, TimedState};
use crate::time::{span_between, Moment, Span};

verus! {

/// What a timer loop does after measuring the time on one of its ticks.
#[derive(Debug)]
pub enum TimerStep<C, T> {
    /// The phase goes on: report the time that remains, then wait for the next tick.
    Report(State<C>, Span),
    /// The phase is over: stop and hand back the phase that follows.
    Done(State<T>),
}

/// The time that remains of `phase` at the moment `now`, or `None` once its period has elapsed.
pub open spec fn remaining_at<S, N, P: TimedState<S, N>>(phase: P, now: nat) -> Option<nat> {
    let elapsed = span_between(phase.start_spec(), now);
    if elapsed < phase.period_spec() {
        Some((phase.period_spec() - elapsed) as nat)
    } else {
        None
    }
}

/// One round of a timer loop: ticks `phase` with the time elapsed from its start to `now`, and
/// says whether to report the remaining time or to finish with the successor phase.
pub fn timer_step<S, N, P: TimedState<S, N>>(phase: P, now: &Moment) -> (r: TimerStep<S, N>)
    ensures
        match r {
            TimerStep::Report(same, remaining) => remaining_at(phase, now@) == Some(remaining@)
                && same == phase.phase_spec(),
            TimerStep::Done(next) => remaining_at(phase, now@) is None && next
                == phase.successor_spec(),
        },
{
    let start = phase.start_time();
    let period = phase.period_length();
    let elapsed = now.duration_since(&start);
    match phase.tick(&elapsed) {
        TickResult::Continue(same) => {
            TimerStep::Report(same, Span::from_nanos(period.as_nanos() - elapsed.as_nanos()))
        },
        TickResult::Complete(next) => TimerStep::Done(next),
    }
}

/// Reports count down: at a later moment the remaining time is strictly smaller, and once a
/// phase is over it stays over, so nothing is reported after completion.
pub proof fn lemma_reports_count_down<S, N, P: TimedState<S, N>>(phase: P, t1: nat, t2: nat)
    requires
        phase.start_spec() <= t1,
        t1 < t2,
    ensures
        remaining_at(phase, t2) is Some ==> remaining_at(phase, t1) is Some && remaining_at(
            phase,
            t2,
        )->0 < remaining_at(phase, t1)->0,
        remaining_at(phase, t1) is None ==> remaining_at(phase, t2) is None,
{
}

/// A phase whose period is zero is over at its first tick.
pub proof fn lemma_zero_period_done_at_once<S, N, P: TimedState<S, N>>(phase: P, now: nat)
    requires
        phase.period_spec() == 0,
    ensures
        remaining_at(phase, now) is None,
{
}

} // verus!
