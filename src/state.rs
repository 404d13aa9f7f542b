use vstd::prelude::*;

use crate::time::{Moment, Span};

verus! {

/// The phase before any timing starts.
#[derive(Debug, Clone, Copy, PartialEq, Eq, Structural)]
pub struct PreWork;

/// An active work interval.
#[derive(Debug, Clone, PartialEq, Eq, Structural)]
pub struct Working {
    start_time: Moment,
    working_period: Span,
}

/// The work interval has elapsed; a break may follow.
#[derive(Debug, Clone, Copy, PartialEq, Eq, Structural)]
pub struct PostWork;

/// An active break interval.
#[derive(Debug, Clone, PartialEq, Eq, Structural)]
pub struct Break {
    start_time: Moment,
    break_length: Span,
}

/// The break interval has elapsed; the cycle is finished.
#[derive(Debug, Clone, Copy, PartialEq, Eq, Structural)]
pub struct Complete;

/// A phase of the cycle. Only the transitions that the cycle allows are defined on it.
#[derive(Debug, Clone, PartialEq, Eq, Structural)]
pub struct State<T> {
    state: T,
}

/// The outcome of one tick of a timed phase.
#[derive(Debug)]
pub enum TickResult<C, T> {
    /// The period has not elapsed: the same phase, unchanged.
    Continue(State<C>),
    /// The period has elapsed: the phase that follows.
    Complete(State<T>),
}

impl<C, T> TickResult<C, T> {
    /// The successor phase, if the tick completed the phase.
    pub fn complete_value(self) -> (r: Option<State<T>>)
        ensures
            r == (match self {
                TickResult::Continue(_) => None,
                TickResult::Complete(value) => Some(value),
            }),
    {
        match self {
            TickResult::Continue(_) => None,
            TickResult::Complete(value) => Some(value),
        }
    }
}

/// A phase that lasts for a set period from its start time, then gives way to the next one.
pub trait TimedState<SelfState, NextState>: Sized {
    /// The configured length of the phase, in nanoseconds.
    spec fn period_spec(&self) -> nat;

    /// The moment the phase started, in nanoseconds from the origin.
    spec fn start_spec(&self) -> nat;

    /// This phase as a value of the cycle.
    spec fn phase_spec(&self) -> State<SelfState>;

    /// The phase that follows once the period has elapsed.
    spec fn successor_spec(&self) -> State<NextState>;

    /// The configured length of the phase.
    fn period_length(&self) -> (r: Span)
        ensures
            r@ == self.period_spec(),
    ;

    /// The moment the phase started.
    fn start_time(&self) -> (r: Moment)
        ensures
            r@ == self.start_spec(),
    ;

    /// Decides, from the time elapsed since the start, whether the phase goes on.
    fn tick(self, elapsed_time: &Span) -> (r: TickResult<SelfState, NextState>)
        ensures
            elapsed_time@ < self.period_spec() ==> r == TickResult::<SelfState, NextState>::Continue(
                self.phase_spec(),
            ),
            elapsed_time@ >= self.period_spec() ==> r == TickResult::<SelfState, NextState>::Complete(
                self.successor_spec(),
            ),
    ;
}

/// The outcome of a tick: the phase goes on while strictly less than its period has elapsed.
pub open spec fn tick_spec<S, N, P: TimedState<S, N>>(phase: P, elapsed: nat) -> TickResult<S, N> {
    if elapsed < phase.period_spec() {
        TickResult::Continue(phase.phase_spec())
    } else {
        TickResult::Complete(phase.successor_spec())
    }
}

/// A phase that can be abandoned early, whatever time has elapsed.
pub trait StoppableState<StopState>: Sized {
    /// The phase that stopping leads to.
    spec fn stop_spec(&self) -> State<StopState>;

    /// Abandons the phase early.
    fn stop(self) -> (r: State<StopState>)
        ensures
            r == self.stop_spec(),
    ;
}

impl State<PreWork> {
    /// The start of a cycle, before any timing.
    pub fn new() -> (r: Self)
        ensures
            r == State::<PreWork>::pre_work(),
    {
        State { state: PreWork }
    }

    /// The phase before any timing starts.
    pub closed spec fn pre_work() -> State<PreWork> {
        State { state: PreWork }
    }

    /// Starts a work interval of `working_period` at `start_time`.
    pub fn start_working(self, working_period: Span, start_time: Moment) -> (r: State<Working>)
        ensures
            r.period_spec() == working_period@,
            r.start_spec() == start_time@,
    {
        State { state: Working { working_period, start_time } }
    }
}

impl StoppableState<PreWork> for State<Working> {
    open spec fn stop_spec(&self) -> State<PreWork> {
        State::<PreWork>::pre_work()
    }

    fn stop(self) -> (r: State<PreWork>) {
        State::new()
    }
}

impl TimedState<Working, PostWork> for State<Working> {
    closed spec fn period_spec(&self) -> nat {
        self.state.working_period@
    }

    closed spec fn start_spec(&self) -> nat {
        self.state.start_time@
    }

    open spec fn phase_spec(&self) -> State<Working> {
        *self
    }

    open spec fn successor_spec(&self) -> State<PostWork> {
        State::<PostWork>::post_work()
    }

    fn period_length(&self) -> (r: Span) {
        self.state.working_period
    }

    fn start_time(&self) -> (r: Moment) {
        self.state.start_time
    }

    fn tick(self, elapsed_time: &Span) -> (r: TickResult<Working, PostWork>) {
        if elapsed_time.as_nanos() < self.period_length().as_nanos() {
            TickResult::Continue(self)
        } else {
            TickResult::Complete(State { state: PostWork })
        }
    }
}

impl State<PostWork> {
    /// The phase after a work interval has elapsed.
    pub closed spec fn post_work() -> State<PostWork> {
        State { state: PostWork }
    }

    /// Starts a break of `break_length` at `start_time`.
    pub fn start_break(self, break_length: Span, start_time: Moment) -> (r: State<Break>)
        ensures
            r.period_spec() == break_length@,
            r.start_spec() == start_time@,
    {
        State { state: Break { break_length, start_time } }
    }
}

impl State<Complete> {
    /// The phase after a break has elapsed.
    pub closed spec fn complete() -> State<Complete> {
        State { state: Complete }
    }
}

impl StoppableState<Complete> for State<Break> {
    open spec fn stop_spec(&self) -> State<Complete> {
        State::<Complete>::complete()
    }

    fn stop(self) -> (r: State<Complete>) {
        State { state: Complete }
    }
}

impl TimedState<Break, Complete> for State<Break> {
    closed spec fn period_spec(&self) -> nat {
        self.state.break_length@
    }

    closed spec fn start_spec(&self) -> nat {
        self.state.start_time@
    }

    open spec fn phase_spec(&self) -> State<Break> {
        *self
    }

    open spec fn successor_spec(&self) -> State<Complete> {
        State::<Complete>::complete()
    }

    fn period_length(&self) -> (r: Span) {
        self.state.break_length
    }

    fn start_time(&self) -> (r: Moment) {
        self.state.start_time
    }

    fn tick(self, elapsed_time: &Span) -> (r: TickResult<Break, Complete>) {
        if elapsed_time.as_nanos() < self.period_length().as_nanos() {
            TickResult::Continue(self)
        } else {
            TickResult::Complete(State { state: Complete })
        }
    }
}

/// A marker phase has exactly one value: stopping a timed phase, or completing it, always
/// yields the same marker, whatever time has elapsed.
pub proof fn lemma_marker_phases_unique(a: State<PreWork>, b: State<PostWork>, c: State<Complete>)
    ensures
        a == State::<PreWork>::pre_work(),
        b == State::<PostWork>::post_work(),
        c == State::<Complete>::complete(),
{
    assert(a.state == PreWork);
    assert(b.state == PostWork);
    assert(c.state == Complete);
}

/// Stopping is unconditional: a work interval always stops into the phase before work, and a
/// break always stops into the completed cycle.
pub proof fn lemma_stop_unconditional(w: State<Working>, b: State<Break>)
    ensures
        w.stop_spec() == State::<PreWork>::pre_work(),
        b.stop_spec() == State::<Complete>::complete(),
{
}

/// While strictly less than its period has elapsed, a tick hands back the same phase, unchanged.
pub proof fn lemma_tick_before_period_continues(w: State<Working>, b: State<Break>, elapsed: nat)
    ensures
        elapsed < w.period_spec() ==> tick_spec(w, elapsed) == TickResult::<
            Working,
            PostWork,
        >::Continue(w),
        elapsed < b.period_spec() ==> tick_spec(b, elapsed) == TickResult::<
            Break,
            Complete,
        >::Continue(b),
{
}

/// Once the period has elapsed, a tick yields the successor marker: a work interval gives way to
/// the phase after work, a break to the completed cycle.
pub proof fn lemma_tick_after_period_completes(w: State<Working>, b: State<Break>, elapsed: nat)
    ensures
        elapsed >= w.period_spec() ==> tick_spec(w, elapsed) == TickResult::<
            Working,
            PostWork,
        >::Complete(State::<PostWork>::post_work()),
        elapsed >= b.period_spec() ==> tick_spec(b, elapsed) == TickResult::<
            Break,
            Complete,
        >::Complete(State::<Complete>::complete()),
{
}

/// A tick at exactly the period's length completes the phase.
pub proof fn lemma_tick_at_period_completes(w: State<Working>, b: State<Break>)
    ensures
        tick_spec(w, w.period_spec()) is Complete,
        tick_spec(b, b.period_spec()) is Complete,
{
}

/// A tick depends on the phase and the elapsed time alone: ticking the phase that a tick
/// continued with, at the same elapsed time, gives the same outcome again.
pub proof fn lemma_tick_continue_idempotent(w: State<Working>, b: State<Break>, elapsed: nat)
    ensures
        tick_spec(w, elapsed) matches TickResult::Continue(next) ==> tick_spec(next, elapsed)
            == tick_spec(w, elapsed),
        tick_spec(b, elapsed) matches TickResult::Continue(next) ==> tick_spec(next, elapsed)
            == tick_spec(b, elapsed),
{
}

} // verus!
