use vstd::prelude::*;

use crate::dest::config_error_says;
use crate::error::Error;

verus! {

/// Relies on std::path::Path::is_file: whether a file stands at `path` now.
/// What is on disk can change, so nothing is promised of the answer.
#[verifier::external_body]
fn is_file(path: &str) -> (r: bool) {
    std::path::Path::new(path).is_file()
}

/// How a chat-room destination gets its logged-in session.
pub enum LoginPlan {
    /// Restore the session stored in this file.
    Restore(String),
    /// Log in with a user name and password, then store the session in the
    /// file, if one is given.
    Login { user: String, password: String, save_to: Option<String> },
}

/// The settings of a chat-room destination, gathered before its client logs
/// in.
pub struct MatrixDestBuilder {
    pub homeserver_url: String,
    pub session_file_path: Option<String>,
    pub login_data: Option<(String, String)>,
    pub room_id: Option<String>,
}

impl MatrixDestBuilder {
    /// Settings for the homeserver at `homeserver_url`, with nothing else set.
    pub fn new(homeserver_url: &str) -> (r: MatrixDestBuilder)
        ensures
            r.homeserver_url@ == homeserver_url@,
            r.session_file_path is None,
            r.login_data is None,
            r.room_id is None,
    {
        MatrixDestBuilder {
            homeserver_url: homeserver_url.to_string(),
            session_file_path: None,
            login_data: None,
            room_id: None,
        }
    }

    /// Sets the user name and password to log in with.
    pub fn set_login(&mut self, user: &str, password: &str)
        ensures
            final(self).login_data matches Some((u, p)) && u@ == user@ && p@ == password@,
            final(self).homeserver_url == old(self).homeserver_url,
            final(self).session_file_path == old(self).session_file_path,
            final(self).room_id == old(self).room_id,
    {
        self.login_data = Some((user.to_string(), password.to_string()));
    }

    /// Sets the file a session is restored from, or stored to.
    pub fn set_session_path(&mut self, session_file_path: &str)
        ensures
            final(self).session_file_path matches Some(p) && p@ == session_file_path@,
            final(self).homeserver_url == old(self).homeserver_url,
            final(self).login_data == old(self).login_data,
            final(self).room_id == old(self).room_id,
    {
        self.session_file_path = Some(session_file_path.to_string());
    }

    /// Sets the room that messages are sent to.
    pub fn set_room_id(&mut self, room_id: &str)
        ensures
            final(self).room_id matches Some(id) && id@ == room_id@,
            final(self).homeserver_url == old(self).homeserver_url,
            final(self).session_file_path == old(self).session_file_path,
            final(self).login_data == old(self).login_data,
    {
        self.room_id = Some(room_id.to_string());
    }

    /// How the client gets its session, looking on disk for the session file:
    /// without a session file, as where the file does not exist; with one,
    /// as where it exists or as where it does not.
    pub fn login_plan(&self) -> (r: Result<LoginPlan, Error>)
        ensures
            self.session_file_path is None ==> self.plan_outcome(false, r),
            self.session_file_path is Some ==> self.plan_outcome(true, r) || self.plan_outcome(
                false,
                r,
            ),
    {
        let exists = match &self.session_file_path {
            Some(p) => is_file(p.as_str()),
            None => false,
        };
        self.login_plan_with(exists)
    }

    /// What planning the login gives, where the session file exists or not:
    /// a stored session is restored; else the client logs in with the user
    /// name and password, and stores the new session where a file was named;
    /// with neither, the settings are incomplete.
    pub open spec fn plan_outcome(&self, session_file_exists: bool, r: Result<LoginPlan, Error>) -> bool {
        if self.session_file_path is Some && session_file_exists {
            r matches Ok(LoginPlan::Restore(p)) && self.session_file_path == Some(p)
        } else {
            match self.login_data {
                Some((user, password)) => r matches Ok(LoginPlan::Login { user: u, password: w, save_to })
                    && u == user && w == password && save_to == self.session_file_path,
                None => config_error_says(r, "Missing session file path or login data."@),
            }
        }
    }

    /// How the client gets its session, given whether the session file
    /// exists.
    pub fn login_plan_with(&self, session_file_exists: bool) -> (r: Result<LoginPlan, Error>)
        ensures
            self.plan_outcome(session_file_exists, r),
    {
        match &self.session_file_path {
            Some(p) => {
                if session_file_exists {
                    return Ok(LoginPlan::Restore(p.clone()));
                }
            },
            None => {},
        }
        match &self.login_data {
            Some((user, password)) => Ok(
                LoginPlan::Login {
                    user: user.clone(),
                    password: password.clone(),
                    save_to: self.session_file_path.clone(),
                },
            ),
            None => Err(Error::Config("Missing session file path or login data.".to_string())),
        }
    }
}

/// The text announcing a message in the room: `intro`, then one line
/// `name: value` for each header, in order.
pub open spec fn header_digest(intro: Seq<char>, headers: Seq<(String, String)>) -> Seq<char>
    decreases headers.len(),
{
    if headers.len() == 0 {
        intro
    } else {
        let (name, value) = headers.last();
        header_digest(intro, headers.drop_last()) + seq!['\n'] + name@ + seq![':', ' '] + value@
    }
}

/// The first message sent to the room for a received message: its headers.
pub fn headers_message(headers: &Vec<(String, String)>) -> (r: String)
    ensures
        r@ == header_digest("Received new message:"@, headers@),
{
    let mut content = "Received new message:".to_string();
    let mut i: usize = 0;
    while i < headers.len()
        invariant
            i <= headers@.len(),
            content@ == header_digest("Received new message:"@, headers@.take(i as int)),
        decreases headers@.len() - i,
    {
        let (name, value) = &headers[i];
        content.append("\n");
        content.append(name.as_str());
        content.append(": ");
        content.append(value.as_str());
        proof {
            reveal_strlit("\n");
            reveal_strlit(": ");
            let t = headers@.take(i + 1);
            assert(t.drop_last() =~= headers@.take(i as int));
            assert(t.last() == headers@[i as int]);
        }
        i = i + 1;
    }
    proof {
        assert(headers@.take(headers@.len() as int) =~= headers@);
    }
    content
}

} // verus!
