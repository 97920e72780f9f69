use connect_bridge::bootstrap::Bootstrap;
use connect_bridge::bootstrap::Stage;

fn run(outcomes: &[bool]) -> Bootstrap {
    let mut state = Bootstrap::new();
    for outcome in outcomes {
        state = state.advance(*outcome);
    }
    state
}

#[test]
fn start_up_begins_with_the_credentials() {
    assert_eq!(Bootstrap::new(), Bootstrap::Pending(Stage::Credentials));
    assert!(!Bootstrap::new().has_started_workers());
    assert_eq!(Bootstrap::new().expose(1u8), None);
}

#[test]
fn stages_follow_in_order() {
    assert_eq!(Stage::Credentials.next(), Some(Stage::Session));
    assert_eq!(Stage::Session.next(), Some(Stage::Player));
    assert_eq!(Stage::Player.next(), Some(Stage::Events));
    assert_eq!(Stage::Events.next(), Some(Stage::Control));
    assert_eq!(Stage::Control.next(), Some(Stage::Workers));
    assert_eq!(Stage::Workers.next(), Some(Stage::Signal));
    assert_eq!(Stage::Signal.next(), None);
}

#[test]
fn failed_authentication_exposes_no_handle_and_starts_no_worker() {
    let state = run(&[true, false]);
    assert_eq!(state, Bootstrap::Failed(Stage::Session));
    assert!(!state.has_started_workers());
    assert_eq!(state.expose("handle"), None);
    let later = run(&[true, false, true, true, true, true, true]);
    assert_eq!(later, Bootstrap::Failed(Stage::Session));
    assert!(!later.has_started_workers());
    assert_eq!(later.expose("handle"), None);
}

#[test]
fn failure_in_any_stage_exposes_no_handle() {
    let stages = [
        Stage::Credentials,
        Stage::Session,
        Stage::Player,
        Stage::Events,
        Stage::Control,
        Stage::Workers,
        Stage::Signal,
    ];
    let mut failing = 0;
    while failing < 7 {
        let mut outcomes = vec![true; 7];
        outcomes[failing] = false;
        let state = run(&outcomes);
        assert_eq!(state, Bootstrap::Failed(stages[failing]));
        assert_eq!(state.expose(0u8), None);
        assert_eq!(state.has_started_workers(), failing == 6);
        failing += 1;
    }
}

#[test]
fn complete_start_up_exposes_the_handle() {
    let state = run(&[true; 7]);
    assert_eq!(state, Bootstrap::Ready);
    assert!(state.has_started_workers());
    assert_eq!(state.expose("handle"), Some("handle"));
    assert_eq!(state.advance(false), Bootstrap::Ready);
}

#[test]
fn workers_start_only_after_the_control_stage() {
    assert!(!run(&[true; 5]).has_started_workers());
    assert_eq!(run(&[true; 5]), Bootstrap::Pending(Stage::Workers));
    assert!(run(&[true; 6]).has_started_workers());
    assert_eq!(run(&[true; 6]).expose(1u8), None);
}
