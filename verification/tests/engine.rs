use fsm_lite::Event;
use fsm_lite::NoopHook;
use fsm_lite::State;
use fsm_lite::TransitionError;
use fsm_lite::FSM;

fn state(name: &str) -> State<NoopHook> {
    State { name: name.to_string(), enter: None, leave: None }
}

fn event(name: &str, from: &[&str], to: &str) -> Event<NoopHook> {
    Event {
        name: name.to_string(),
        from_state: from.iter().map(|s| s.to_string()).collect(),
        to_state: to.to_string(),
        before: None,
        after: None,
    }
}

fn abc_machine() -> FSM<NoopHook> {
    let mut m: FSM<NoopHook> = FSM::default();
    m.name = "demo".to_string();
    m.states.push(state("A"));
    m.states.push(state("B"));
    m.states.push(state("C"));
    m.events.push(event("go", &["A"], "B"));
    m.events.push(event("finish", &["B"], "C"));
    m.initial_state = Some("A".to_string());
    m.final_state = Some("C".to_string());
    m
}

#[test]
fn can_fire_requires_matching_event_and_state() {
    let mut m = abc_machine();
    assert_eq!(m.build(), Ok(()));
    assert!(m.can_fire("go"));
    assert!(!m.can_fire("finish"));
    assert!(!m.can_fire("warp"));
}

#[test]
fn can_fire_is_false_before_build() {
    let m = abc_machine();
    assert!(!m.can_fire("go"));
}

#[test]
fn can_fire_is_false_once_finished() {
    let mut m = abc_machine();
    m.events.push(event("redo", &["C"], "B"));
    assert_eq!(m.build(), Ok(()));
    assert_eq!(m.fire("go"), Ok(()));
    assert_eq!(m.fire("finish"), Ok(()));
    assert!(m.is_finished());
    assert!(!m.can_fire("redo"));
}

#[test]
fn can_fire_does_not_mutate() {
    let mut m = abc_machine();
    assert_eq!(m.build(), Ok(()));
    let before = m.current_state();
    assert!(m.can_fire("go"));
    assert!(m.can_fire("go"));
    assert_eq!(m.current_state(), before);
    assert!(!m.is_finished());
}

#[test]
fn fire_advances_current_state() {
    let mut m = abc_machine();
    assert_eq!(m.build(), Ok(()));
    assert_eq!(m.fire("go"), Ok(()));
    assert_eq!(m.current_state(), "B".to_string());
}

#[test]
fn fire_on_unbuilt_machine_is_not_ready() {
    let mut m = abc_machine();
    assert_eq!(m.fire("go"), Err(TransitionError::NotReady));
}

#[test]
fn fire_on_finished_machine_is_already_finished() {
    let mut m = abc_machine();
    assert_eq!(m.build(), Ok(()));
    assert_eq!(m.fire("go"), Ok(()));
    assert_eq!(m.fire("finish"), Ok(()));
    assert_eq!(m.fire("go"), Err(TransitionError::AlreadyFinished));
}

#[test]
fn fire_from_wrong_state_is_invalid_transition() {
    let mut m = abc_machine();
    assert_eq!(m.build(), Ok(()));
    assert_eq!(
        m.fire("finish"),
        Err(TransitionError::InvalidTransition("finish".to_string(), "A".to_string()))
    );
}

#[test]
fn unknown_event_is_invalid_transition() {
    let mut m = abc_machine();
    assert_eq!(m.build(), Ok(()));
    assert_eq!(
        m.fire("warp"),
        Err(TransitionError::InvalidTransition("warp".to_string(), "A".to_string()))
    );
}

#[test]
fn failed_fire_leaves_state_unchanged() {
    let mut m = abc_machine();
    assert_eq!(m.build(), Ok(()));
    assert!(m.fire("finish").is_err());
    assert_eq!(m.current_state(), "A".to_string());
    assert!(!m.is_finished());
}

#[test]
fn no_final_state_never_finishes() {
    let mut m: FSM<NoopHook> = FSM::default();
    m.states.push(state("A"));
    m.states.push(state("B"));
    m.events.push(event("flip", &["A"], "B"));
    m.events.push(event("flop", &["B"], "A"));
    m.initial_state = Some("A".to_string());
    assert_eq!(m.build(), Ok(()));
    assert!(!m.is_finished());
    for _ in 0..3 {
        assert_eq!(m.fire("flip"), Ok(()));
        assert!(!m.is_finished());
        assert_eq!(m.fire("flop"), Ok(()));
        assert!(!m.is_finished());
    }
    assert_eq!(m.current_state(), "A".to_string());
}

#[test]
fn multi_source_event_fires_from_each_source() {
    let mut m: FSM<NoopHook> = FSM::default();
    m.states.push(state("A"));
    m.states.push(state("B"));
    m.states.push(state("C"));
    m.events.push(event("reset", &["B", "C"], "A"));
    m.events.push(event("go", &["A"], "B"));
    m.events.push(event("jump", &["A"], "C"));
    m.initial_state = Some("A".to_string());
    assert_eq!(m.build(), Ok(()));
    assert_eq!(m.fire("go"), Ok(()));
    assert_eq!(m.fire("reset"), Ok(()));
    assert_eq!(m.current_state(), "A".to_string());
    assert_eq!(m.fire("jump"), Ok(()));
    assert_eq!(m.fire("reset"), Ok(()));
    assert_eq!(m.current_state(), "A".to_string());
}

#[test]
fn empty_state_name_never_counts_as_finished() {
    let mut m: FSM<NoopHook> = FSM::default();
    m.states.push(state(""));
    m.states.push(state("B"));
    m.events.push(event("drop", &["B"], ""));
    m.events.push(event("lift", &[""], "B"));
    m.initial_state = Some("".to_string());
    m.final_state = Some("".to_string());
    assert_eq!(m.build(), Ok(()));
    assert_eq!(m.current_state(), "".to_string());
    assert!(!m.is_finished());
    assert!(m.can_fire("lift"));
    assert_eq!(m.fire("lift"), Ok(()));
    assert_eq!(m.fire("drop"), Ok(()));
    assert!(!m.is_finished());
}

#[test]
fn end_to_end_lifecycle() {
    let mut m = abc_machine();
    assert_eq!(m.build(), Ok(()));
    assert_eq!(m.current_state(), "A".to_string());
    assert_eq!(m.fire("go"), Ok(()));
    assert_eq!(m.current_state(), "B".to_string());
    assert_eq!(m.fire("finish"), Ok(()));
    assert_eq!(m.current_state(), "C".to_string());
    assert!(m.is_finished());
    assert_eq!(m.fire("go"), Err(TransitionError::AlreadyFinished));
}
