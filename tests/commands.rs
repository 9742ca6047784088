use commando::counter::{Scale, State, Step, Translate};
use commando::{Command, Commander};

#[test]
fn can_execute() {
    let mut state: State = State::default();
    assert_eq!(state.value(), 0);

    state.execute(Translate::from(7));
    assert_eq!(state.value(), 7);

    state.execute(Scale::from(2));
    assert_eq!(state.value(), 14);
}

#[test]
fn can_undo() {
    let mut state: State = State(0);

    let mut cmds = (Translate::from(5), Translate::from(10), Scale::from(0));

    assert_eq!(state.value(), 0);

    // Each command keeps the value it replaced, so it runs in place here
    // rather than as a copy handed to `state`.
    cmds.0.execute(&mut state);
    assert_eq!(state.value(), 5);

    cmds.1.execute(&mut state);
    assert_eq!(state.value(), 15);

    cmds.2.execute(&mut state);
    assert_eq!(state.value(), 0);

    cmds.2.undo(&mut state);
    assert_eq!(state.value(), 15);

    cmds.1.undo(&mut state);
    assert_eq!(state.value(), 5);

    cmds.0.undo(&mut state);
    assert_eq!(state.value(), 0);

    <State as Commander<State, Translate>>::undo(&mut state);
    assert_eq!(state.value(), 0);
}

#[test]
fn translate_saturates_at_max() {
    let mut state = State(i32::MAX);
    state.execute(Translate::from(1));
    assert_eq!(state.value(), i32::MAX);
}

#[test]
fn translate_saturates_at_min() {
    let mut state = State(i32::MIN);
    state.execute(Translate::from(-1));
    assert_eq!(state.value(), i32::MIN);
}

#[test]
fn saturated_translate_round_trips() {
    let mut state = State(i32::MAX);
    let mut t = Translate::from(1);
    t.execute(&mut state);
    assert_eq!(state.value(), i32::MAX);
    t.undo(&mut state);
    assert_eq!(state.value(), i32::MAX);

    let mut state = State(i32::MIN + 3);
    let mut t = Translate::from(-10);
    t.execute(&mut state);
    assert_eq!(state.value(), i32::MIN);
    t.undo(&mut state);
    assert_eq!(state.value(), i32::MIN + 3);
}

#[test]
fn translate_undo_without_execute_is_noop() {
    let mut state = State(i32::MIN);
    let mut t = Translate::from(1);
    t.undo(&mut state);
    assert_eq!(state.value(), i32::MIN);
    assert_eq!(t, Translate(1, None));
}

#[test]
fn scale_saturates_both_ways() {
    let mut state = State(i32::MAX);
    state.execute(Scale::from(2));
    assert_eq!(state.value(), i32::MAX);
    let mut state = State(i32::MAX);
    state.execute(Scale::from(-2));
    assert_eq!(state.value(), i32::MIN);
    let mut state = State(-7);
    state.execute(Scale::from(3));
    assert_eq!(state.value(), -21);
}

#[test]
fn round_trip_restores_context() {
    for start in [0, 1, -1, 42, -1000, i32::MAX, i32::MIN] {
        let mut state = State(start);
        let mut s = Scale::from(0);
        s.execute(&mut state);
        s.undo(&mut state);
        assert_eq!(state.value(), start);

        let mut state = State(start);
        let mut s = Scale::from(i32::MAX);
        s.execute(&mut state);
        s.undo(&mut state);
        assert_eq!(state.value(), start);
    }
    let mut state = State(100);
    let mut t = Translate::from(-58);
    t.execute(&mut state);
    assert_eq!(state.value(), 42);
    t.undo(&mut state);
    assert_eq!(state.value(), 100);
}

#[test]
fn scale_undo_without_execute_is_noop() {
    let mut state = State(9);
    let mut s = Scale::from(3);
    s.undo(&mut state);
    assert_eq!(state.value(), 9);
    assert_eq!(s, Scale(3, None));
}

#[test]
fn scale_undo_twice_changes_nothing_more() {
    let mut state = State(4);
    let mut s = Scale::from(5);
    s.execute(&mut state);
    assert_eq!(s, Scale(5, Some(4)));
    assert_eq!(state.value(), 20);
    state = State(11);
    s.undo(&mut state);
    assert_eq!(state.value(), 4);
    s.undo(&mut state);
    assert_eq!(state.value(), 4);
}

#[test]
fn step_dispatches_to_its_command() {
    let mut state = State(3);
    let mut a: Step = Translate::from(4).into();
    let mut b: Step = Scale::from(6).into();
    a.execute(&mut state);
    assert_eq!(state.value(), 7);
    b.execute(&mut state);
    assert_eq!(state.value(), 42);
    assert_eq!(b, Step::Scale(Scale(6, Some(7))));
    b.undo(&mut state);
    assert_eq!(state.value(), 7);
    a.undo(&mut state);
    assert_eq!(state.value(), 3);
}
