use pomodoro::state::{State, StoppableState, TickResult, TimedState, Working};
use pomodoro::time::{Moment, Span};

fn working(period: Span) -> State<Working> {
    State::new().start_working(period, Moment::from_nanos(0))
}

fn break_of(length: Span) -> State<pomodoro::state::Break> {
    let post_work = working(Span::from_secs(0))
        .tick(&Span::from_secs(0))
        .complete_value()
        .unwrap();
    post_work.start_break(length, Moment::from_nanos(0))
}

#[test]
fn working_state_remains_working_before_timeout() {
    let working_state = working(Span::from_secs(30));
    let new_state = working_state.tick(&Span::from_secs(5));
    assert!(matches!(new_state, TickResult::Continue(_)))
}

#[test]
fn working_state_transitions_to_post_work() {
    let working_state = working(Span::from_secs(30));
    let new_state = working_state.tick(&Span::from_millis(30_005));
    assert!(matches!(new_state, TickResult::Complete(_)))
}

#[test]
fn break_state_remains_break_before_timeout() {
    let break_state = break_of(Span::from_secs(30));
    let new_state = break_state.tick(&Span::from_secs(5));
    assert!(matches!(new_state, TickResult::Continue(_)))
}

#[test]
fn break_state_transitions_to_complete() {
    let break_state = break_of(Span::from_secs(30));
    let new_state = break_state.tick(&Span::from_millis(30_005));
    assert!(matches!(new_state, TickResult::Complete(_)))
}

#[test]
fn continue_carries_the_same_phase() {
    let working_state = working(Span::from_secs(30));
    let before = working_state.clone();
    match working_state.tick(&Span::from_millis(29_999)) {
        TickResult::Continue(same) => assert_eq!(same, before),
        TickResult::Complete(_) => panic!("a phase ended before its period"),
    }
}

#[test]
fn tick_at_exact_period_completes() {
    let working_state = working(Span::from_secs(30));
    assert!(matches!(
        working_state.tick(&Span::from_secs(30)),
        TickResult::Complete(_)
    ));
    let break_state = break_of(Span::from_millis(1500));
    assert!(matches!(
        break_state.tick(&Span::from_millis(1500)),
        TickResult::Complete(_)
    ));
}

#[test]
fn tick_one_nanosecond_before_period_continues() {
    let working_state = working(Span::from_secs(30));
    assert!(matches!(
        working_state.tick(&Span::from_nanos(29_999_999_999)),
        TickResult::Continue(_)
    ));
}

#[test]
fn zero_period_completes_at_once() {
    let working_state = working(Span::from_secs(0));
    assert!(matches!(
        working_state.tick(&Span::from_secs(0)),
        TickResult::Complete(_)
    ));
}

#[test]
fn ticking_a_continued_phase_again_gives_the_same_result() {
    let working_state = working(Span::from_secs(10));
    let elapsed = Span::from_secs(4);
    let first = match working_state.tick(&elapsed) {
        TickResult::Continue(same) => same,
        TickResult::Complete(_) => panic!("a phase ended before its period"),
    };
    let kept = first.clone();
    match first.tick(&elapsed) {
        TickResult::Continue(again) => assert_eq!(again, kept),
        TickResult::Complete(_) => panic!("a second tick at the same time completed"),
    }
}

#[test]
fn complete_value_is_the_successor_only_on_completion() {
    let continued = working(Span::from_secs(10)).tick(&Span::from_secs(1));
    assert!(continued.complete_value().is_none());
    let completed = working(Span::from_secs(10)).tick(&Span::from_secs(11));
    assert!(completed.complete_value().is_some());
}

#[test]
fn stopping_work_returns_to_pre_work() {
    let stopped = working(Span::from_secs(30)).stop();
    assert_eq!(stopped, State::new());
}

#[test]
fn stopping_a_break_completes_the_cycle() {
    let stopped = break_of(Span::from_secs(30)).stop();
    let completed = break_of(Span::from_secs(30))
        .tick(&Span::from_secs(30))
        .complete_value()
        .unwrap();
    assert_eq!(stopped, completed);
}

#[test]
fn started_phases_keep_their_period_and_start() {
    let working_state =
        State::new().start_working(Span::from_millis(2500), Moment::from_nanos(77));
    assert_eq!(working_state.period_length(), Span::from_millis(2500));
    assert_eq!(working_state.start_time(), Moment::from_nanos(77));
    let post_work = working_state
        .tick(&Span::from_secs(3))
        .complete_value()
        .unwrap();
    let break_state = post_work.start_break(Span::from_secs(300), Moment::from_nanos(99));
    assert_eq!(break_state.period_length(), Span::from_secs(300));
    assert_eq!(break_state.start_time(), Moment::from_nanos(99));
}
