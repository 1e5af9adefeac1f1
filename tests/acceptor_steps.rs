use promdoc::acceptor::{step, AcceptorAction, AcceptorEvent, AcceptorState};

#[test]
fn bind_then_serve_then_interrupt() {
    let (s, a) = step(AcceptorState::Binding, AcceptorEvent::Bound);
    assert_eq!((s, a), (AcceptorState::Listening, AcceptorAction::Announce));
    let (s, a) = step(s, AcceptorEvent::Accepted);
    assert_eq!((s, a), (AcceptorState::Listening, AcceptorAction::Dispatch));
    let (s, a) = step(s, AcceptorEvent::Accepted);
    assert_eq!((s, a), (AcceptorState::Listening, AcceptorAction::Dispatch));
    let (s, a) = step(s, AcceptorEvent::Interrupted);
    assert_eq!((s, a), (AcceptorState::Stopped, AcceptorAction::Exit { success: true }));
}

#[test]
fn bind_failure_exits_nonzero() {
    let (s, a) = step(AcceptorState::Binding, AcceptorEvent::BindFailed);
    assert_eq!((s, a), (AcceptorState::Failed, AcceptorAction::Exit { success: false }));
    for e in [AcceptorEvent::Bound, AcceptorEvent::Accepted, AcceptorEvent::Interrupted] {
        assert_eq!(step(s, e), (AcceptorState::Failed, AcceptorAction::Skip));
    }
}

#[test]
fn accept_error_keeps_listening() {
    let r = step(AcceptorState::Listening, AcceptorEvent::AcceptFailed);
    assert_eq!(r, (AcceptorState::Listening, AcceptorAction::Skip));
}

#[test]
fn nothing_dispatched_after_stop() {
    for e in [
        AcceptorEvent::Bound,
        AcceptorEvent::BindFailed,
        AcceptorEvent::Interrupted,
        AcceptorEvent::Accepted,
        AcceptorEvent::AcceptFailed,
    ] {
        assert_eq!(step(AcceptorState::Stopped, e), (AcceptorState::Stopped, AcceptorAction::Skip));
    }
}

#[test]
fn events_before_bind_are_skipped() {
    for e in [AcceptorEvent::Accepted, AcceptorEvent::AcceptFailed, AcceptorEvent::Interrupted] {
        assert_eq!(step(AcceptorState::Binding, e), (AcceptorState::Binding, AcceptorAction::Skip));
    }
}
