use fsm_lite::Event;
use fsm_lite::NoopHook;
use fsm_lite::State;
use fsm_lite::TransitionError;
use fsm_lite::ValidationError;
use fsm_lite::FSM;

fn state(name: &str) -> State<NoopHook> {
    State { name: name.to_string(), enter: None, leave: None }
}

fn event(name: &str, from: &[&str], to: &str) -> Event<NoopHook> {
    Event {
        name: name.to_string(),
        from_state: from.iter().map(|s| s.to_string()).collect(),
        to_state: to.to_string(),
        before: None,
        after: None,
    }
}

fn abc_machine() -> FSM<NoopHook> {
    let mut m: FSM<NoopHook> = FSM::default();
    m.name = "demo".to_string();
    m.states.push(state("A"));
    m.states.push(state("B"));
    m.states.push(state("C"));
    m.events.push(event("go", &["A"], "B"));
    m.events.push(event("finish", &["B"], "C"));
    m.initial_state = Some("A".to_string());
    m.final_state = Some("C".to_string());
    m
}

#[test]
fn missing_initial_state_is_reported() {
    let mut m: FSM<NoopHook> = FSM::default();
    m.states.push(state("A"));
    m.events.push(event("go", &["A"], "A"));
    assert_eq!(m.build(), Err(ValidationError::MissingInitialState));
}

#[test]
fn no_states_is_reported() {
    let mut m: FSM<NoopHook> = FSM::default();
    m.initial_state = Some("A".to_string());
    assert_eq!(m.build(), Err(ValidationError::NoStates));
}

#[test]
fn duplicate_state_is_reported() {
    let mut m = abc_machine();
    m.states.push(state("B"));
    assert_eq!(m.build(), Err(ValidationError::DuplicateState("B".to_string())));
}

#[test]
fn no_events_is_reported() {
    let mut m: FSM<NoopHook> = FSM::default();
    m.states.push(state("A"));
    m.initial_state = Some("A".to_string());
    assert_eq!(m.build(), Err(ValidationError::NoEvents));
}

#[test]
fn duplicate_event_is_reported() {
    let mut m = abc_machine();
    m.events.push(event("go", &["B"], "C"));
    assert_eq!(m.build(), Err(ValidationError::DuplicateEvent("go".to_string())));
}

#[test]
fn empty_from_states_is_reported() {
    let mut m = abc_machine();
    m.events.push(event("stall", &[], "C"));
    assert_eq!(m.build(), Err(ValidationError::EmptyFromStates("stall".to_string())));
}

#[test]
fn undefined_from_state_is_reported() {
    let mut m = abc_machine();
    m.events.push(event("warp", &["Z"], "C"));
    assert_eq!(m.build(), Err(ValidationError::UndefinedState("Z".to_string())));
}

#[test]
fn undefined_to_state_is_reported() {
    let mut m = abc_machine();
    m.events.push(event("warp", &["A"], "Q"));
    assert_eq!(m.build(), Err(ValidationError::UndefinedState("Q".to_string())));
}

#[test]
fn unreachable_final_state_is_reported() {
    let mut m = abc_machine();
    m.final_state = Some("A".to_string());
    assert_eq!(m.build(), Err(ValidationError::UnreachableFinalState));
}

#[test]
fn first_violation_wins() {
    let mut m: FSM<NoopHook> = FSM::default();
    m.states.push(state("A"));
    m.states.push(state("A"));
    assert_eq!(m.build(), Err(ValidationError::MissingInitialState));
}

#[test]
fn successful_build_sets_initial_state() {
    let mut m = abc_machine();
    assert_eq!(m.build(), Ok(()));
    assert_eq!(m.current_state(), "A".to_string());
    assert!(!m.is_finished());
}

#[test]
fn failed_build_leaves_machine_unready() {
    let mut m = abc_machine();
    m.initial_state = None;
    assert!(m.build().is_err());
    assert_eq!(m.current_state(), "".to_string());
    assert_eq!(m.fire("go"), Err(TransitionError::NotReady));
}

#[test]
fn initial_equal_to_final_is_finished_right_away() {
    let mut m = abc_machine();
    m.initial_state = Some("C".to_string());
    assert_eq!(m.build(), Ok(()));
    assert_eq!(m.current_state(), "C".to_string());
    assert!(m.is_finished());
}

#[test]
fn build_without_final_state_succeeds() {
    let mut m = abc_machine();
    m.final_state = None;
    assert_eq!(m.build(), Ok(()));
    assert!(!m.is_finished());
}
