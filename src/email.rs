use vstd::prelude::*;

use crate::error::Error;

verus! {

/// What mail_parser finds in a message's bytes: `None` where the bytes do not
/// parse as an RFC 5322 message, else the value of its `Message-ID` header, if
/// it has one.
pub uninterp spec fn parsed_message_id(raw: Seq<u8>) -> Option<Option<Seq<char>>>;

/// The view of a parse outcome, over the characters of the identifier.
pub open spec fn found_view(found: Option<Option<String>>) -> Option<Option<Seq<char>>> {
    match found {
        None => None,
        Some(None) => Some(None),
        Some(Some(id)) => Some(Some(id@)),
    }
}

/// The identifier a parse outcome yields for a message: present and not empty.
pub open spec fn usable_id(found: Option<Option<Seq<char>>>) -> Option<Seq<char>> {
    match found {
        Some(Some(id)) => if id.len() > 0 {
            Some(id)
        } else {
            None
        },
        _ => None,
    }
}

/// Relies on mail_parser::Message::parse, which parses the bytes as an RFC 5322
/// message, and on Message::message_id of the message it returns. Bytes that
/// hold no header at all (empty bytes among them) parse to nothing.
#[verifier::external_body]
fn parse_message_id(raw: &[u8]) -> (r: Option<Option<String>>)
    ensures
        found_view(r) == parsed_message_id(raw@),
        raw@.len() == 0 ==> r is None,
{
    mail_parser::Message::parse(raw).map(|m| m.message_id().map(String::from))
}

/// A received message: its identifier and its bytes as they came in the DATA
/// section, without the terminating dot line.
pub struct Email {
    pub message_id: String,
    pub raw: Vec<u8>,
}

impl Email {
    /// Parses `raw` and keeps it together with its `Message-ID`.
    pub fn parse(raw: Vec<u8>) -> (r: Result<Email, Error>)
        ensures
            Email::parse_outcome(raw@, usable_id(parsed_message_id(raw@)), r),
            raw@.len() == 0 ==> r matches Err(Error::MailParsing(_)),
    {
        let found = parse_message_id(raw.as_slice());
        Email::from_parsed(raw, found)
    }

    /// What parsing `raw` gives when the parser found `id`: the message with
    /// that identifier, or a parsing error where there is none.
    pub open spec fn parse_outcome(
        raw: Seq<u8>,
        id: Option<Seq<char>>,
        r: Result<Email, Error>,
    ) -> bool {
        match id {
            Some(id) => r matches Ok(e) && e.message_id@ == id && e.raw@ == raw,
            None => r matches Err(Error::MailParsing(_)),
        }
    }

    /// Builds the message from its bytes and from what the parser found in
    /// them: `None` where they did not parse, `Some(None)` where the
    /// `Message-ID` header is missing.
    pub fn from_parsed(raw: Vec<u8>, found: Option<Option<String>>) -> (r: Result<Email, Error>)
        ensures
            Email::parse_outcome(raw@, usable_id(found_view(found)), r),
    {
        match found {
            None => Err(Error::MailParsing("Could not parse RFC5322/RFC822 message.")),
            Some(None) => Err(Error::MailParsing("Missing message-id header.")),
            Some(Some(id)) => {
                if id.as_str().is_empty() {
                    Err(Error::MailParsing("Empty message-id header."))
                } else {
                    Ok(Email { message_id: id, raw })
                }
            },
        }
    }
}

/// A message received over SMTP, with its envelope.
pub struct SmtpEmail {
    pub from: Option<String>,
    pub to: Vec<String>,
    pub content: Email,
}

impl SmtpEmail {
    /// A message that can be handed on: one recipient at least, and an
    /// identifier that is not empty.
    pub open spec fn deliverable(&self) -> bool {
        &&& self.to@.len() >= 1
        &&& self.content.message_id@.len() > 0
    }

    /// What building a message from an envelope and bytes gives, where the
    /// parser found `id` in the bytes.
    pub open spec fn build_outcome(
        from: Option<String>,
        to: Seq<String>,
        data: Seq<u8>,
        id: Option<Seq<char>>,
        r: Result<SmtpEmail, Error>,
    ) -> bool {
        match id {
            None => r matches Err(Error::MailParsing(_)),
            Some(id) => if to.len() == 0 {
                r matches Err(Error::Smtp(_))
            } else {
                r matches Ok(m) && m.from == from && m.to@ == to && m.content.message_id@ == id
                    && m.content.raw@ == data
            },
        }
    }

    /// Parses `data` and pairs it with the envelope. A message without
    /// recipients is refused.
    pub fn new(from: Option<String>, to: Vec<String>, data: Vec<u8>) -> (r: Result<
        SmtpEmail,
        Error,
    >)
        ensures
            SmtpEmail::build_outcome(from, to@, data@, usable_id(parsed_message_id(data@)), r),
            r matches Ok(m) ==> m.deliverable(),
            data@.len() == 0 ==> r matches Err(Error::MailParsing(_)),
    {
        let content = Email::parse(data)?;
        if to.len() == 0 {
            return Err(Error::Smtp("Received DATA_END without a valid recipient.".to_string()));
        }
        Ok(SmtpEmail { from, to, content })
    }
}

} // verus!
