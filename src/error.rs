use rustls::Error as TlsError;
use vstd::prelude::*;
use vstd::string::to_string_from_display_ensures;

verus! {

#[verifier::external_type_specification]
#[verifier::external_body]
pub struct ExIoError(std::io::Error);

#[verifier::external_type_specification]
#[verifier::external_body]
pub struct ExTlsError(TlsError);

/// The kinds of failure shared by the whole gateway.
#[derive(Debug)]
pub enum Error {
    /// Malformed configuration.
    Config(String),
    /// The message could not be parsed, or has no usable `Message-ID`.
    MailParsing(&'static str),
    /// A failure reported by a chat-room destination.
    Matrix(String),
    /// A protocol-level anomaly in an SMTP session.
    Smtp(String),
    /// An underlying I/O failure.
    SysIo(std::io::Error),
    /// A TLS handshake or certificate failure.
    Tls(TlsError),
}

impl From<std::io::Error> for Error {
    fn from(inner: std::io::Error) -> (r: Self)
        ensures
            r is SysIo,
    {
        Error::SysIo(inner)
    }
}

impl vstd::std_specs::convert::FromSpecImpl<std::io::Error> for Error {
    open spec fn obeys_from_spec() -> bool {
        true
    }

    open spec fn from_spec(inner: std::io::Error) -> Error {
        Error::SysIo(inner)
    }
}

impl From<TlsError> for Error {
    fn from(inner: TlsError) -> (r: Self)
        ensures
            r is Tls,
    {
        Error::Tls(inner)
    }
}

impl vstd::std_specs::convert::FromSpecImpl<TlsError> for Error {
    open spec fn obeys_from_spec() -> bool {
        true
    }

    open spec fn from_spec(inner: TlsError) -> Error {
        Error::Tls(inner)
    }
}

impl Error {
    /// A line of text describing the error: its kind, then what went wrong.
    pub fn message(&self) -> (r: String)
        ensures
            self matches Error::Config(d) ==> r@ == "Error in config: "@ + d@,
            self matches Error::MailParsing(d) ==> r@ == "Could not parse email: "@ + d@,
            self matches Error::Matrix(d) ==> r@ == "Error in Matrix communication: "@ + d@,
            self matches Error::Smtp(d) ==> r@ == "Error in SMTP communication: "@ + d@,
            self matches Error::SysIo(inner) ==> exists|t: String|
                to_string_from_display_ensures::<std::io::Error>(&inner, t) && r@ == "IO error: "@
                    + t@,
            self matches Error::Tls(inner) ==> exists|t: String|
                to_string_from_display_ensures::<TlsError>(&inner, t) && r@ == "TLS error: "@ + t@,
    {
        match self {
            Error::Config(d) => {
                let mut r = "Error in config: ".to_string();
                r.append(d.as_str());
                r
            },
            Error::MailParsing(d) => {
                let mut r = "Could not parse email: ".to_string();
                r.append(d);
                r
            },
            Error::Matrix(d) => {
                let mut r = "Error in Matrix communication: ".to_string();
                r.append(d.as_str());
                r
            },
            Error::Smtp(d) => {
                let mut r = "Error in SMTP communication: ".to_string();
                r.append(d.as_str());
                r
            },
            Error::SysIo(inner) => {
                let mut r = "IO error: ".to_string();
                let t = inner.to_string();
                r.append(t.as_str());
                r
            },
            Error::Tls(inner) => {
                let mut r = "TLS error: ".to_string();
                let t = inner.to_string();
                r.append(t.as_str());
                r
            },
        }
    }
}

} // verus!
