use parser_proxy_ws::ws_server::ConnAction;
use parser_proxy_ws::ws_server::ConnEvent;
use parser_proxy_ws::ws_server::ConnLifecycle;

#[test]
fn successful_handshake_registers_once() {
    let mut conn = ConnLifecycle::new();
    assert!(!conn.is_registered());
    assert!(matches!(conn.step(ConnEvent::HandshakeOk), ConnAction::DoRegister));
    assert!(conn.is_registered());
}

#[test]
fn failed_handshake_never_registers() {
    let mut conn = ConnLifecycle::new();
    assert!(matches!(conn.step(ConnEvent::HandshakeFailed), ConnAction::DoNothing));
    assert!(!conn.is_registered());
    // the connection is torn down; nothing further is owed
    assert!(matches!(conn.step(ConnEvent::HandlerDone), ConnAction::DoNothing));
    assert!(!conn.is_registered());
}

#[test]
fn duty_ending_starts_the_close_without_unregistering_yet() {
    let mut conn = ConnLifecycle::new();
    conn.step(ConnEvent::HandshakeOk);
    assert!(matches!(conn.step(ConnEvent::DutyEnded), ConnAction::DoNothing));
    // still registered: the other duty may run to its own completion
    assert!(conn.is_registered());
    assert!(matches!(conn.step(ConnEvent::DutyEnded), ConnAction::DoNothing));
    assert!(conn.is_registered());
}

#[test]
fn handler_conclusion_unregisters_exactly_once() {
    let mut conn = ConnLifecycle::new();
    conn.step(ConnEvent::HandshakeOk);
    conn.step(ConnEvent::DutyEnded);
    assert!(matches!(conn.step(ConnEvent::HandlerDone), ConnAction::DoUnregister));
    assert!(!conn.is_registered());
    // reporting conclusion again owes nothing more
    assert!(matches!(conn.step(ConnEvent::HandlerDone), ConnAction::DoNothing));
    assert!(!conn.is_registered());
}

#[test]
fn crash_equivalent_exit_from_active_still_unregisters() {
    let mut conn = ConnLifecycle::new();
    conn.step(ConnEvent::HandshakeOk);
    assert!(matches!(conn.step(ConnEvent::HandlerDone), ConnAction::DoUnregister));
    assert!(!conn.is_registered());
}
