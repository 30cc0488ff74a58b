use kutsche::listener::{tls_required, Connection, ListenerMode, SessionAction, Step};

#[test]
fn port_465_speaks_implicit_tls() {
    let m = ListenerMode::for_port(true, 465);
    assert!(m.implicit_tls && !m.start_tls);
    let m = ListenerMode::for_port(true, 4587);
    assert!(!m.implicit_tls && m.start_tls);
    let m = ListenerMode::for_port(false, 465);
    assert!(!m.implicit_tls && !m.start_tls);
}

#[test]
fn tls_material_needed_only_for_port_465() {
    assert!(tls_required(&vec![25, 465]));
    assert!(!tls_required(&vec![25, 4025]));
    assert!(!tls_required(&vec![]));
}

#[test]
fn implicit_tls_handshakes_before_greeting() {
    let mode = ListenerMode::for_port(true, 465);
    let mut c = Connection::accepted();
    assert!(matches!(c.first_step(&mode), Step::Handshake));
    assert!(matches!(c.after_handshake(), Step::Greet));
    c.greet();
    assert!(matches!(c.after_reply(&SessionAction::Reply), Step::ReadLine));
    assert!(matches!(c.after_reply(&SessionAction::Close), Step::Shutdown));
    assert!(c.closed);
}

#[test]
fn starttls_upgrades_then_reads_on() {
    let mode = ListenerMode::for_port(true, 4587);
    let mut c = Connection::accepted();
    assert!(matches!(c.first_step(&mode), Step::Greet));
    c.greet();
    assert!(matches!(c.after_reply(&SessionAction::Reply), Step::ReadLine));
    assert!(matches!(c.after_reply(&SessionAction::UpgradeTls), Step::Handshake));
    assert!(matches!(c.after_handshake(), Step::ReadLine));
    assert!(c.secured);
    assert!(matches!(c.after_reply(&SessionAction::UpgradeTls), Step::ReadLine));
    assert!(matches!(c.after_reply(&SessionAction::NoReply), Step::ReadLine));
    assert!(matches!(c.after_reply(&SessionAction::Close), Step::Shutdown));
}

#[test]
fn plain_listener_greets_first() {
    let mode = ListenerMode::for_port(false, 4025);
    let c = Connection::accepted();
    assert!(matches!(c.first_step(&mode), Step::Greet));
}
