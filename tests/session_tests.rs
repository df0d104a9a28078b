use ws_gateway::session::{
    ConnectionSession, Diagnostic, MessageHandler, RouteHandler, SessionEvent, SessionPhase,
    VersionHandler, WsCallback, WsMessage,
};

fn text(s: &str) -> WsMessage {
    WsMessage::Text(s.to_string())
}

fn echo_session() -> ConnectionSession {
    ConnectionSession::new(RouteHandler::Messages(MessageHandler()))
}

fn version_session() -> ConnectionSession {
    ConnectionSession::new(RouteHandler::Version(VersionHandler()))
}

#[test]
fn echo_session_greets_echoes_and_closes() {
    let mut s = echo_session();
    let step = s.step(SessionEvent::UpgradeCompleted);
    assert_eq!(step.outgoing, vec![text("Ready to receive message...")]);
    assert_eq!(step.report, None);
    assert_eq!(s.phase, SessionPhase::Active);

    let step = s.step(SessionEvent::Received(text("hi")));
    assert_eq!(step.outgoing, vec![text("Received: hi")]);
    assert_eq!(s.phase, SessionPhase::Active);

    let step = s.step(SessionEvent::Received(WsMessage::Close));
    assert!(step.outgoing.is_empty());
    assert_eq!(step.report, None);
    assert_eq!(s.phase, SessionPhase::Closing);

    let step = s.step(SessionEvent::Flushed);
    assert!(step.outgoing.is_empty());
    assert_eq!(step.report, None);
    assert_eq!(s.phase, SessionPhase::Closed);
    assert!(s.is_finished());
}

#[test]
fn echo_answers_ping_with_empty_pong() {
    let mut s = echo_session();
    s.step(SessionEvent::UpgradeCompleted);
    let step = s.step(SessionEvent::Received(WsMessage::Ping(vec![1, 2, 3])));
    assert_eq!(step.outgoing, vec![WsMessage::Pong(vec![])]);
    assert_eq!(s.phase, SessionPhase::Active);
}

#[test]
fn echo_ignores_binary_and_pong() {
    let mut s = echo_session();
    s.step(SessionEvent::UpgradeCompleted);
    assert!(s.step(SessionEvent::Received(WsMessage::Binary(vec![9]))).outgoing.is_empty());
    assert!(s.step(SessionEvent::Received(WsMessage::Pong(vec![]))).outgoing.is_empty());
    assert_eq!(s.phase, SessionPhase::Active);
}

#[test]
fn echo_ends_quietly_when_stream_ends() {
    let mut s = echo_session();
    s.step(SessionEvent::UpgradeCompleted);
    let step = s.step(SessionEvent::StreamEnded);
    assert!(step.outgoing.is_empty());
    assert_eq!(step.report, None);
    assert_eq!(s.phase, SessionPhase::Closed);
}

#[test]
fn receive_failure_is_a_handler_error() {
    let mut s = echo_session();
    s.step(SessionEvent::UpgradeCompleted);
    let step = s.step(SessionEvent::ReceiveFailed);
    assert_eq!(step.report, Some(Diagnostic::HandlerError));
    assert_eq!(s.phase, SessionPhase::Failed);
    assert!(s.is_finished());
}

#[test]
fn send_failure_is_a_handler_error() {
    let mut s = version_session();
    s.step(SessionEvent::UpgradeCompleted);
    let step = s.step(SessionEvent::SendFailed);
    assert_eq!(step.report, Some(Diagnostic::HandlerError));
    assert_eq!(s.phase, SessionPhase::Failed);
}

#[test]
fn failed_upgrade_reports_incomplete() {
    let mut s = echo_session();
    let step = s.step(SessionEvent::UpgradeFailed);
    assert!(step.outgoing.is_empty());
    assert_eq!(step.report, Some(Diagnostic::UpgradeIncomplete));
    assert_eq!(s.phase, SessionPhase::Failed);
    let step = s.step(SessionEvent::UpgradeCompleted);
    assert!(step.outgoing.is_empty());
    assert_eq!(step.report, None);
    assert_eq!(s.phase, SessionPhase::Failed);
}

#[test]
fn version_session_is_one_shot() {
    let mut s = version_session();
    let step = s.step(SessionEvent::UpgradeCompleted);
    assert_eq!(step.outgoing, vec![text("Version 0.1.0"), WsMessage::Close]);
    assert_eq!(s.phase, SessionPhase::Closing);
    assert!(s.step(SessionEvent::Received(text("more"))).outgoing.is_empty());
    assert!(s.step(SessionEvent::Received(WsMessage::Ping(vec![]))).outgoing.is_empty());
    assert_eq!(s.phase, SessionPhase::Closing);
    assert!(s.step(SessionEvent::Flushed).outgoing.is_empty());
    assert_eq!(s.phase, SessionPhase::Closed);
    assert!(s.step(SessionEvent::Received(text("late"))).outgoing.is_empty());
}

#[test]
fn handlers_react_directly() {
    let r = MessageHandler().on_message(&text("abc"));
    assert_eq!(r.outgoing, vec![text("Received: abc")]);
    assert!(!r.finished);
    let r = VersionHandler().on_open();
    assert!(r.finished);
    let r = VersionHandler().on_message(&text("abc"));
    assert!(r.outgoing.is_empty());
    assert!(r.finished);
}

#[test]
fn concurrent_sessions_stay_apart() {
    let mut a = echo_session();
    let mut b = echo_session();
    let ga = a.step(SessionEvent::UpgradeCompleted);
    let gb = b.step(SessionEvent::UpgradeCompleted);
    assert_eq!(ga.outgoing, gb.outgoing);
    let ra = a.step(SessionEvent::Received(text("from a")));
    let rb = b.step(SessionEvent::Received(text("from b")));
    assert_eq!(ra.outgoing, vec![text("Received: from a")]);
    assert_eq!(rb.outgoing, vec![text("Received: from b")]);
    a.step(SessionEvent::Received(WsMessage::Close));
    assert_eq!(a.phase, SessionPhase::Closing);
    assert_eq!(b.phase, SessionPhase::Active);
    let rb = b.step(SessionEvent::Received(text("again")));
    assert_eq!(rb.outgoing, vec![text("Received: again")]);
}
