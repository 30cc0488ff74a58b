use kutsche::error::Error;
use kutsche::session::MailHandler;

const BODY: [&[u8]; 4] = [b"Message-ID: <m1@x>\r\n", b"Subject: t\r\n", b"\r\n", b"hi\r\n"];

fn feed_body(h: &mut MailHandler) {
    for line in BODY.iter() {
        assert!(h.data(line).is_ok());
    }
}

#[test]
fn plain_reception() {
    let mut h = MailHandler::new(Vec::new());
    assert_eq!(h.helo("c.local").code(), 250);
    assert_eq!(h.mail("c.local", "s@x.org").code(), 250);
    assert_eq!(h.rcpt("r@y.org").code(), 250);
    assert_eq!(h.data_start("c.local", "s@x.org", false, &["r@y.org".to_string()]).code(), 250);
    feed_body(&mut h);
    assert_eq!(h.data_end().code(), 250);
    let m = h.received_mail.unwrap();
    assert_eq!(m.from, Some("s@x.org".to_string()));
    assert_eq!(m.to, vec!["r@y.org".to_string()]);
    assert_eq!(m.content.message_id, "m1@x");
    assert_eq!(m.content.raw, BODY.concat());
    assert!(m.content.raw.ends_with(b"\r\n"));
}

#[test]
fn second_data_end_is_a_bad_sequence() {
    let mut h = MailHandler::new(Vec::new());
    h.mail("c.local", "s@x.org");
    h.rcpt("r@y.org");
    h.data_start("c.local", "s@x.org", false, &[]);
    feed_body(&mut h);
    assert_eq!(h.data_end().code(), 250);
    assert_eq!(h.data_end().code(), 503);
    assert!(matches!(h.received_mail, Err(Error::Smtp(_))));
}

#[test]
fn empty_data_fails_the_transaction() {
    let mut h = MailHandler::new(Vec::new());
    h.rcpt("r@y.org");
    assert_eq!(h.data_start("c.local", "", false, &[]).code(), 250);
    assert_eq!(h.data_end().code(), 554);
    assert!(matches!(h.received_mail, Err(Error::MailParsing(_))));
}

#[test]
fn message_without_id_fails_the_transaction() {
    let mut h = MailHandler::new(Vec::new());
    h.rcpt("r@y.org");
    h.data_start("c.local", "", false, &[]);
    h.data(b"Subject: t\r\n").unwrap();
    h.data(b"\r\n").unwrap();
    h.data(b"hi\r\n").unwrap();
    assert_eq!(h.data_end().code(), 554);
    assert!(matches!(h.received_mail, Err(Error::MailParsing(_))));
    assert_eq!(h.data_end().code(), 554);
    assert!(matches!(h.received_mail, Err(Error::MailParsing(_))));
}

#[test]
fn invalid_recipient_is_refused_and_session_goes_on() {
    let mut h = MailHandler::new(Vec::new());
    assert_eq!(h.rcpt("@bad").code(), 550);
    assert!(h.to.is_empty());
    assert_eq!(h.rcpt("r@y.org").code(), 250);
    assert_eq!(h.to, vec!["r@y.org".to_string()]);
}

#[test]
fn mailbox_checks_follow_lettre() {
    let mut h = MailHandler::new(Vec::new());
    assert_eq!(h.mail("c.local", "s@x").code(), 550);
    assert_eq!(h.from, None);
    assert_eq!(h.mail("c.local", "postmaster@localhost").code(), 250);
    assert_eq!(h.from, Some("postmaster@localhost".to_string()));
}

#[test]
fn data_start_empties_the_buffer() {
    let mut h = MailHandler::new(b"left over".to_vec());
    assert_eq!(h.data_start("c.local", "", false, &[]).code(), 250);
    assert_eq!(h.msg_buf, Some(vec![]));
    h.data(b"a\r\n").unwrap();
    assert_eq!(h.data_start("c.local", "", false, &[]).code(), 250);
    assert_eq!(h.msg_buf, Some(vec![]));
}

#[test]
fn second_message_in_one_session_is_refused_at_data_end() {
    let mut h = MailHandler::new(Vec::new());
    h.mail("c.local", "s@x.org");
    h.rcpt("r@y.org");
    h.data_start("c.local", "", false, &[]);
    feed_body(&mut h);
    assert_eq!(h.data_end().code(), 250);
    assert!(h.received_mail.is_ok());
    h.mail("c.local", "s@x.org");
    h.rcpt("r@y.org");
    assert_eq!(h.data_start("c.local", "", false, &[]).code(), 250);
    assert_eq!(h.msg_buf, Some(vec![]));
    feed_body(&mut h);
    assert_eq!(h.data_end().code(), 503);
    assert!(matches!(h.received_mail, Err(Error::Smtp(_))));
}

#[test]
fn all_recipients_are_kept_in_order() {
    let mut h = MailHandler::new(Vec::new());
    h.mail("c.local", "s@x.org");
    assert_eq!(h.rcpt("a@y.org").code(), 250);
    assert_eq!(h.rcpt("@bad").code(), 550);
    assert_eq!(h.rcpt("b@y.org").code(), 250);
    h.data_start("c.local", "", false, &[]);
    feed_body(&mut h);
    assert_eq!(h.data_end().code(), 250);
    assert!(h.to.is_empty());
    let m = h.received_mail.unwrap();
    assert_eq!(m.to, vec!["a@y.org".to_string(), "b@y.org".to_string()]);
}

#[test]
fn data_end_without_recipients_is_a_bad_sequence() {
    let mut h = MailHandler::new(Vec::new());
    h.data_start("c.local", "", false, &[]);
    feed_body(&mut h);
    assert_eq!(h.data_end().code(), 503);
    assert!(matches!(h.received_mail, Err(Error::Smtp(_))));
}

#[test]
fn authentication_is_refused() {
    let mut h = MailHandler::new(Vec::new());
    assert_eq!(h.auth_plain("", "user", "pw").code(), 535);
}

#[test]
fn fresh_session_has_no_mail() {
    let h = MailHandler::new(Vec::new());
    match &h.received_mail {
        Err(Error::Smtp(msg)) => assert_eq!(msg, "No DATA_END received."),
        _ => panic!("expected the initial protocol error"),
    }
    assert!(!h.delivered);
    assert!(h.to.is_empty());
}

#[test]
fn slot_stays_closed_after_a_refused_second_message() {
    let mut h = MailHandler::new(Vec::new());
    for expected in [250u16, 503, 503] {
        h.mail("c.local", "s@x.org");
        h.rcpt("r@y.org");
        assert_eq!(h.data_start("c.local", "", false, &[]).code(), 250);
        feed_body(&mut h);
        assert_eq!(h.data_end().code(), expected);
        assert!(h.delivered);
    }
    assert!(matches!(h.received_mail, Err(Error::Smtp(_))));
}

#[test]
fn failed_first_message_does_not_close_the_slot_for_protocol_errors() {
    let mut h = MailHandler::new(Vec::new());
    h.data_start("c.local", "", false, &[]);
    feed_body(&mut h);
    assert_eq!(h.data_end().code(), 503);
    assert!(!h.delivered);
    h.rcpt("r@y.org");
    h.data_start("c.local", "", false, &[]);
    feed_body(&mut h);
    assert_eq!(h.data_end().code(), 250);
    assert!(h.received_mail.is_ok());
}
