use vstd::prelude::*;
use vstd::utf8::encode_utf8;

use crate::email::Email;
use crate::error::Error;

verus! {

/// Relies on std::path::Path::is_dir: whether a directory stands at `path`
/// now. What is on disk can change, so nothing is promised of the answer.
#[verifier::external_body]
fn is_directory(path: &str) -> (r: bool) {
    std::path::Path::new(path).is_dir()
}

/// Relies on std::io::Error::new, to build a "not found" error carrying
/// `msg`.
#[verifier::external_body]
fn not_found(msg: String) -> (r: std::io::Error) {
    std::io::Error::new(std::io::ErrorKind::NotFound, msg)
}

/// The bytes of a spool file: the identifier, two line feeds, then the
/// message bytes verbatim.
pub open spec fn spool_record(message_id: Seq<char>, raw: Seq<u8>) -> Seq<u8> {
    encode_utf8(message_id) + seq![10u8, 10u8] + raw
}

/// Whether UTF-8 bytes name a single entry of a directory: not empty, no
/// `/`, and neither `.` nor `..`.
pub open spec fn plain_file_name(b: Seq<u8>) -> bool {
    &&& b.len() > 0
    &&& forall|i: int| 0 <= i < b.len() ==> b[i] != 47u8
    &&& b != seq![46u8]
    &&& b != seq![46u8, 46u8]
}

/// Whether `b` names a single entry of a directory.
pub fn is_plain_file_name(b: &[u8]) -> (r: bool)
    ensures
        r == plain_file_name(b@),
{
    if b.len() == 0 {
        return false;
    }
    if b.len() == 1 && b[0] == 46u8 {
        proof {
            assert(b@ =~= seq![46u8]);
        }
        return false;
    }
    if b.len() == 2 && b[0] == 46u8 && b[1] == 46u8 {
        proof {
            assert(b@ =~= seq![46u8, 46u8]);
        }
        return false;
    }
    let mut i: usize = 0;
    while i < b.len()
        invariant
            i <= b@.len(),
            forall|j: int| 0 <= j < i ==> b@[j] != 47u8,
        decreases b@.len() - i,
    {
        if b[i] == 47u8 {
            return false;
        }
        i = i + 1;
    }
    proof {
        if b@ == seq![46u8] {
            assert(b@[0] == 46u8);
        }
        if b@ == seq![46u8, 46u8] {
            assert(b@[0] == 46u8 && b@[1] == 46u8);
        }
    }
    true
}

/// `name` inside the directory `base`.
pub open spec fn joined(base: Seq<char>, name: Seq<char>) -> Seq<char> {
    base + seq!['/'] + name
}

/// The path of `name` inside the directory `base`.
pub fn join_path(base: &str, name: &str) -> (r: String)
    ensures
        r@ == joined(base@, name@),
{
    let mut p = base.to_string();
    p.append("/");
    p.append(name);
    proof {
        reveal_strlit("/");
    }
    p
}

/// Where the mail for one mapped mailbox goes.
pub enum DestinationKind {
    /// A chat room, reached through the configured homeserver.
    Matrix,
    /// A spool directory.
    File(String),
}

/// Whether `r` is a configuration error with the text `msg`.
pub open spec fn config_error_says<T>(r: Result<T, Error>, msg: Seq<char>) -> bool {
    r matches Err(Error::Config(m)) && m@ == msg
}

/// Whether `r` is the spool directory `dir`.
pub open spec fn names_directory(r: Result<DestinationKind, Error>, dir: Seq<char>) -> bool {
    r matches Ok(DestinationKind::File(p)) && p@ == dir
}

/// The destination of a mapping, by the fields it has: a homeserver makes it
/// a chat room; else its own `dest_path`; else a directory named after the
/// address under the default path. A mapping with none of these is a
/// configuration error.
pub fn destination_for(
    mapping_name: &str,
    address: &str,
    has_homeserver: bool,
    dest_path: Option<&str>,
    default_path: Option<&str>,
) -> (r: Result<DestinationKind, Error>)
    ensures
        has_homeserver ==> r matches Ok(DestinationKind::Matrix),
        !has_homeserver && dest_path is Some ==> names_directory(r, dest_path->Some_0@),
        !has_homeserver && dest_path is None && default_path is Some ==> names_directory(
            r,
            joined(default_path->Some_0@, address@),
        ),
        !has_homeserver && dest_path is None && default_path is None ==> config_error_says(
            r,
            "Missing destination for mapping '"@ + mapping_name@ + "'."@,
        ),
{
    if has_homeserver {
        Ok(DestinationKind::Matrix)
    } else if let Some(p) = dest_path {
        Ok(DestinationKind::File(p.to_string()))
    } else if let Some(base) = default_path {
        Ok(DestinationKind::File(join_path(base, address)))
    } else {
        let mut msg = "Missing destination for mapping '".to_string();
        msg.append(mapping_name);
        msg.append("'.");
        Err(Error::Config(msg))
    }
}

/// A destination that stores one file per message in a base directory, named
/// by the message's identifier.
pub struct FileDestination {
    pub base_path: String,
}

impl FileDestination {
    /// A destination over `path`, which must name a directory.
    pub fn new(path: &str) -> (r: Result<Self, Error>)
        ensures
            r matches Ok(d) ==> d.base_path@ == path@,
            r matches Err(e) ==> e is SysIo,
    {
        let is_dir = is_directory(path);
        FileDestination::checked(path, is_dir)
    }

    /// A destination over `path`, given whether a directory stands there.
    pub fn checked(path: &str, is_dir: bool) -> (r: Result<Self, Error>)
        ensures
            is_dir ==> r is Ok && r->Ok_0.base_path@ == path@,
            !is_dir ==> r is Err && r->Err_0 is SysIo,
    {
        if is_dir {
            Ok(FileDestination { base_path: path.to_string() })
        } else {
            let mut msg = path.to_string();
            msg.append(" is not a directory.");
            Err(Error::SysIo(not_found(msg)))
        }
    }

    /// The path of the file that holds the message with `message_id`: an
    /// entry directly inside the base directory. An identifier that is not a
    /// single file name (empty, holding `/`, or `.` or `..`) has none.
    pub fn entry_path(&self, message_id: &str) -> (r: Option<String>)
        ensures
            r is Some == plain_file_name(encode_utf8(message_id@)),
            r matches Some(p) ==> p@ == joined(self.base_path@, message_id@),
    {
        if is_plain_file_name(message_id.as_bytes()) {
            Some(join_path(self.base_path.as_str(), message_id))
        } else {
            None
        }
    }

    /// The bytes to write for `email`.
    pub fn record(email: &Email) -> (r: Vec<u8>)
        ensures
            r@ == spool_record(email.message_id@, email.raw@),
    {
        let mut out: Vec<u8> = Vec::new();
        out.extend_from_slice(email.message_id.as_str().as_bytes());
        out.push(10u8);
        out.push(10u8);
        out.extend_from_slice(email.raw.as_slice());
        proof {
            assert(out@ =~= spool_record(email.message_id@, email.raw@));
        }
        out
    }
}

} // verus!
