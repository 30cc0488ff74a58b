use kutsche::error::Error;
use kutsche::matrix::{headers_message, LoginPlan, MatrixDestBuilder};

#[test]
fn builder_starts_empty_and_keeps_settings() {
    let mut b = MatrixDestBuilder::new("https://matrix.example.org");
    assert_eq!(b.homeserver_url, "https://matrix.example.org");
    assert!(b.login_data.is_none() && b.session_file_path.is_none() && b.room_id.is_none());
    b.set_login("bot", "pw");
    b.set_session_path("/var/lib/session.json");
    b.set_room_id("!room:example.org");
    assert_eq!(b.login_data, Some(("bot".to_string(), "pw".to_string())));
    assert_eq!(b.session_file_path, Some("/var/lib/session.json".to_string()));
    assert_eq!(b.room_id, Some("!room:example.org".to_string()));
}

#[test]
fn stored_session_is_restored() {
    let mut b = MatrixDestBuilder::new("https://m.org");
    b.set_session_path("/s.json");
    b.set_login("bot", "pw");
    match b.login_plan_with(true) {
        Ok(LoginPlan::Restore(p)) => assert_eq!(p, "/s.json"),
        _ => panic!("expected a restore"),
    }
    match b.login_plan_with(false) {
        Ok(LoginPlan::Login { user, password, save_to }) => {
            assert_eq!(user, "bot");
            assert_eq!(password, "pw");
            assert_eq!(save_to, Some("/s.json".to_string()));
        }
        _ => panic!("expected a login"),
    }
}

#[test]
fn no_session_and_no_login_is_a_config_error() {
    let b = MatrixDestBuilder::new("https://m.org");
    match b.login_plan_with(false) {
        Err(Error::Config(msg)) => assert_eq!(msg, "Missing session file path or login data."),
        _ => panic!("expected a configuration error"),
    }
    assert!(matches!(b.login_plan(), Err(Error::Config(_))));
    let mut b = MatrixDestBuilder::new("https://m.org");
    b.set_session_path("/nonexistent/kutsche/session.json");
    assert!(matches!(b.login_plan(), Err(Error::Config(_))));
}

#[test]
fn headers_are_listed_one_per_line() {
    let h = vec![
        ("Subject".to_string(), "t".to_string()),
        ("From".to_string(), "s@x.org".to_string()),
    ];
    assert_eq!(headers_message(&h), "Received new message:\nSubject: t\nFrom: s@x.org");
    assert_eq!(headers_message(&vec![]), "Received new message:");
}
