use soapbox::hub::{event_of, step, PollAction, PollEvent, PollState};
use soapbox::net::NetError;

#[test]
fn poll_empty_keeps_polling() {
    let mut state = PollState::Polling;
    for _ in 0..5 {
        let (next, action) = step(state, PollEvent::Empty);
        assert_eq!(next, PollState::Polling);
        assert!(matches!(action, PollAction::Wait));
        state = next;
    }
}

#[test]
fn poll_arrival_is_emitted() {
    let (next, action) = step(PollState::Polling, PollEvent::Arrived("e".to_string()));
    assert_eq!(next, PollState::Polling);
    assert!(matches!(action, PollAction::Emit(ref e) if e == "e"));
}

#[test]
fn poll_fault_ends_the_sequence() {
    let err = NetError { reason: "down".to_string() };
    let (next, action) = step(PollState::Polling, PollEvent::Fault(err));
    assert_eq!(next, PollState::Finished);
    assert!(matches!(action, PollAction::Fail(ref e) if e.reason == "down"));
    let (after, action) = step(next, PollEvent::Arrived("late".to_string()));
    assert_eq!(after, PollState::Finished);
    assert!(matches!(action, PollAction::Stop));
}

#[test]
fn poll_cancel_stops() {
    let (next, action) = step(PollState::Polling, PollEvent::Cancelled);
    assert_eq!(next, PollState::Finished);
    assert!(matches!(action, PollAction::Stop));
}

#[test]
fn event_of_each_outcome() {
    assert!(matches!(event_of(Ok(Some("e".to_string()))), PollEvent::Arrived(ref e) if e == "e"));
    assert!(matches!(event_of(Ok(None)), PollEvent::Empty));
    let err = NetError { reason: "gone".to_string() };
    assert!(matches!(event_of(Err(err)), PollEvent::Fault(ref e) if e.reason == "gone"));
}
