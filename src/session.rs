use vstd::prelude::*;

use crate::email::{parsed_message_id, usable_id, SmtpEmail};
use crate::error::Error;

verus! {

/// Whether lettre takes a string for a mailbox.
pub uninterp spec fn mailbox_accepted(s: Seq<char>) -> bool;

/// Relies on lettre::EmailAddress::new: it keeps the address as given where it
/// accepts it (fast_chemail finds it valid, or it ends in "localhost"), and
/// refuses it otherwise.
#[verifier::external_body]
fn parse_mailbox(address: &str) -> (r: Option<String>)
    ensures
        r is Some == mailbox_accepted(address@),
        r matches Some(a) ==> a@ == address@,
{
    lettre::EmailAddress::new(String::from(address)).ok().map(|a| a.to_string())
}

/// The answer a session gives to one command, before the protocol engine
/// writes it out.
#[derive(Debug)]
pub enum Reply {
    /// 250: the command was accepted.
    Accepted,
    /// 550: the mailbox could not be parsed.
    BadMailbox,
    /// 535: authentication is not offered.
    InvalidCredentials,
    /// 503: the command came out of sequence.
    BadSequence(String),
    /// 554: the transaction failed.
    TransactionFailed(String),
}

impl Reply {
    pub open spec fn spec_code(&self) -> u16 {
        match self {
            Reply::Accepted => 250,
            Reply::BadMailbox => 550,
            Reply::InvalidCredentials => 535,
            Reply::BadSequence(_) => 503,
            Reply::TransactionFailed(_) => 554,
        }
    }

    /// The three-digit SMTP code of the reply.
    pub fn code(&self) -> (r: u16)
        ensures
            r == self.spec_code(),
    {
        match self {
            Reply::Accepted => 250,
            Reply::BadMailbox => 550,
            Reply::InvalidCredentials => 535,
            Reply::BadSequence(_) => 503,
            Reply::TransactionFailed(_) => 554,
        }
    }
}

/// Whether bytes are empty or end with CRLF.
pub open spec fn crlf_terminated(b: Seq<u8>) -> bool {
    b.len() == 0 || (b.len() >= 2 && b[b.len() - 2] == 13u8 && b[b.len() - 1] == 10u8)
}

/// The state of one SMTP session: the envelope gathered so far, the message
/// buffer (absent once a message has taken it), the result slot through which
/// the received message leaves the session, and whether a message has been
/// accepted into that slot.
pub struct MailHandler {
    pub from: Option<String>,
    pub to: Vec<String>,
    pub msg_buf: Option<Vec<u8>>,
    pub received_mail: Result<SmtpEmail, Error>,
    pub delivered: bool,
}

impl MailHandler {
    /// The session never holds a message in its slot that could not be
    /// delivered, and one in the slot has been recorded as accepted.
    pub open spec fn inv(&self) -> bool {
        self.received_mail matches Ok(m) ==> m.deliverable() && self.delivered
    }

    /// The buffer, and the bytes of the message in the slot, end with CRLF.
    /// This holds for as long as every DATA line ends with CRLF.
    pub open spec fn crlf_framed(&self) -> bool {
        &&& (self.msg_buf matches Some(b) ==> crlf_terminated(b@))
        &&& (self.received_mail matches Ok(m) ==> m.content.raw@.len() >= 2 && crlf_terminated(
            m.content.raw@,
        ))
    }

    /// Whether the slot can still take a message: no message was accepted in
    /// this session, and the slot holds what a session starts with, or another
    /// protocol error.
    pub open spec fn slot_open(&self) -> bool {
        !self.delivered && self.received_mail matches Err(Error::Smtp(_))
    }

    /// A fresh session over `buf`, whose slot says that no DATA_END came yet.
    pub fn new(buf: Vec<u8>) -> (r: MailHandler)
        ensures
            r.from is None,
            r.to@.len() == 0,
            r.msg_buf == Some(buf),
            r.received_mail matches Err(Error::Smtp(m)) && m@ == "No DATA_END received."@,
            !r.delivered,
            r.slot_open(),
            r.inv(),
            crlf_terminated(buf@) ==> r.crlf_framed(),
    {
        MailHandler {
            from: None,
            to: Vec::new(),
            msg_buf: Some(buf),
            received_mail: Err(Error::Smtp("No DATA_END received.".to_string())),
            delivered: false,
        }
    }

    /// HELO / EHLO: always accepted.
    pub fn helo(&mut self, _domain: &str) -> (r: Reply)
        ensures
            r is Accepted,
            *final(self) == *old(self),
    {
        Reply::Accepted
    }

    /// MAIL FROM: keeps the sender where it is a mailbox, refuses it otherwise.
    pub fn mail(&mut self, _domain: &str, from: &str) -> (r: Reply)
        ensures
            mailbox_accepted(from@) ==> r is Accepted && final(self).from is Some && final(self).from->Some_0@
                == from@,
            !mailbox_accepted(from@) ==> r is BadMailbox && final(self).from == old(self).from,
            final(self).to == old(self).to,
            final(self).msg_buf == old(self).msg_buf,
            final(self).received_mail == old(self).received_mail,
            final(self).delivered == old(self).delivered,
    {
        match parse_mailbox(from) {
            Some(m) => {
                self.from = Some(m);
                Reply::Accepted
            },
            None => Reply::BadMailbox,
        }
    }

    /// RCPT TO: appends the recipient where it is a mailbox, refuses it
    /// otherwise and leaves the recipients as they were.
    pub fn rcpt(&mut self, to: &str) -> (r: Reply)
        ensures
            mailbox_accepted(to@) ==> r is Accepted && final(self).to@.len() == old(self).to@.len() + 1
                && final(self).to@.drop_last() == old(self).to@ && final(self).to@.last()@ == to@,
            !mailbox_accepted(to@) ==> r is BadMailbox && final(self).to == old(self).to,
            final(self).from == old(self).from,
            final(self).msg_buf == old(self).msg_buf,
            final(self).received_mail == old(self).received_mail,
            final(self).delivered == old(self).delivered,
    {
        match parse_mailbox(to) {
            Some(m) => {
                self.to.push(m);
                Reply::Accepted
            },
            None => Reply::BadMailbox,
        }
    }

    /// DATA: empties the message buffer for a new message. Where an earlier
    /// message has taken the buffer, the session starts a new, empty one.
    pub fn data_start(&mut self, _domain: &str, _from: &str, _is8bit: bool, _to: &[String]) -> (r:
        Reply)
        ensures
            r is Accepted,
            final(self).msg_buf is Some,
            final(self).msg_buf->Some_0@.len() == 0,
            final(self).from == old(self).from,
            final(self).to == old(self).to,
            final(self).received_mail == old(self).received_mail,
            final(self).delivered == old(self).delivered,
            old(self).inv() ==> final(self).inv(),
            old(self).crlf_framed() ==> final(self).crlf_framed(),
    {
        match &mut self.msg_buf {
            None => {
                self.msg_buf = Some(Vec::new());
            },
            Some(buf) => {
                buf.clear();
            },
        }
        Reply::Accepted
    }

    /// One chunk of the message content, dot-unstuffed: appended to the
    /// buffer, if the session still has it.
    pub fn data(&mut self, chunk: &[u8]) -> (r: Result<(), std::io::Error>)
        ensures
            r is Ok,
            old(self).msg_buf matches Some(b) ==> final(self).msg_buf matches Some(nb) && nb@ == b@
                + chunk@,
            old(self).msg_buf is None ==> final(self).msg_buf is None,
            final(self).from == old(self).from,
            final(self).to == old(self).to,
            final(self).received_mail == old(self).received_mail,
            final(self).delivered == old(self).delivered,
            old(self).inv() ==> final(self).inv(),
            old(self).crlf_framed() && crlf_terminated(chunk@) ==> final(self).crlf_framed(),
    {
        if let Some(buf) = &mut self.msg_buf {
            buf.extend_from_slice(chunk);
        }
        Ok(())
    }

    /// How DATA_END answers, where the slot was open and now holds `slot`.
    pub open spec fn settle(slot: Result<SmtpEmail, Error>, r: Reply) -> bool {
        &&& (slot is Ok ==> r is Accepted)
        &&& (slot matches Err(Error::Smtp(_)) ==> r is BadSequence)
        &&& (slot matches Err(Error::MailParsing(_)) ==> r is TransactionFailed)
    }

    /// DATA_END: builds the message from the envelope and the buffer, which
    /// the session gives up. Into an open slot goes the message, or the reason
    /// it could not be built. Once a message was accepted, every later
    /// DATA_END turns the slot into a protocol error for good; after any other
    /// error the slot stays.
    pub fn data_end(&mut self) -> (r: Reply)
        ensures
            final(self).from is None,
            final(self).to@.len() == 0,
            final(self).msg_buf is None,
            old(self).delivered || old(self).received_mail is Ok ==> r is BadSequence
                && final(self).delivered && final(self).received_mail matches Err(Error::Smtp(_)),
            old(self).slot_open() && old(self).msg_buf is None ==> r is BadSequence && !final(self).delivered && final(self).received_mail matches Err(Error::Smtp(_)),
            old(self).slot_open() && old(self).msg_buf is Some ==> SmtpEmail::build_outcome(
                old(self).from,
                old(self).to@,
                old(self).msg_buf->Some_0@,
                usable_id(parsed_message_id(old(self).msg_buf->Some_0@)),
                final(self).received_mail,
            ) && MailHandler::settle(final(self).received_mail, r) && final(self).delivered == final(self).received_mail is Ok,
            old(self).slot_open() && old(self).msg_buf is Some && old(self).msg_buf->Some_0@.len()
                == 0 ==> r is TransactionFailed && final(self).received_mail matches Err(
                Error::MailParsing(_),
            ),
            old(self).received_mail is Err && !old(self).slot_open() && !old(self).delivered ==> r is TransactionFailed
                && final(self).received_mail == old(self).received_mail && !final(self).delivered,
            old(self).inv() ==> final(self).inv(),
            old(self).crlf_framed() ==> final(self).crlf_framed(),
    {
        let from = self.from.take();
        let mut to: Vec<String> = Vec::new();
        std::mem::swap(&mut to, &mut self.to);
        let complete_mail = match self.msg_buf.take() {
            Some(buf) => SmtpEmail::new(from, to, buf),
            None => Err(Error::Smtp("Received DATA_END without DATA_START.".to_string())),
        };
        let open = match &self.received_mail {
            Err(Error::Smtp(_)) => true,
            _ => false,
        };
        if self.delivered || self.received_mail.is_ok() {
            self.delivered = true;
            self.received_mail = Err(Error::Smtp("Received multiple DATA_END.".to_string()));
            Reply::BadSequence("Received multiple DATA_END.".to_string())
        } else if open {
            let reply = match &complete_mail {
                Ok(_) => Reply::Accepted,
                Err(Error::MailParsing(_)) => Reply::TransactionFailed(
                    "Could not parse the message.".to_string(),
                ),
                Err(_) => Reply::BadSequence("Bad sequence of commands".to_string()),
            };
            self.delivered = complete_mail.is_ok();
            self.received_mail = complete_mail;
            reply
        } else {
            Reply::TransactionFailed("Received DATA_END after previous error.".to_string())
        }
    }

    /// AUTH PLAIN: authentication is not offered, so no credentials are valid.
    pub fn auth_plain(
        &mut self,
        _authorization_id: &str,
        _authentication_id: &str,
        _password: &str,
    ) -> (r: Reply)
        ensures
            r is InvalidCredentials,
            *final(self) == *old(self),
    {
        Reply::InvalidCredentials
    }
}

/// A message that a session holds in its slot has at least one recipient and
/// an identifier that is not empty; where every DATA line ended with CRLF, its
/// bytes end with CRLF too.
pub proof fn received_mail_is_well_formed(h: MailHandler)
    requires
        h.inv(),
        h.received_mail is Ok,
    ensures
        h.received_mail->Ok_0.to@.len() >= 1,
        h.received_mail->Ok_0.content.message_id@.len() > 0,
        h.crlf_framed() ==> ({
            let raw = h.received_mail->Ok_0.content.raw@;
            raw.len() >= 2 && raw[raw.len() - 2] == 13u8 && raw[raw.len() - 1] == 10u8
        }),
{
}

} // verus!
