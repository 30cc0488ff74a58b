use vstd::prelude::*;

verus! {

/// The port on which TLS comes before the SMTP greeting.
pub const IMPLICIT_TLS_PORT: u16 = 465;

/// How one listener treats its connections.
pub struct ListenerMode {
    /// STARTTLS is advertised after EHLO.
    pub start_tls: bool,
    /// TLS is negotiated before the greeting.
    pub implicit_tls: bool,
}

impl ListenerMode {
    /// The mode of a listener on `port`, where `tls_configured` says whether
    /// TLS material is at hand: implicit TLS on port 465, STARTTLS elsewhere,
    /// and plain SMTP without TLS material.
    pub fn for_port(tls_configured: bool, port: u16) -> (r: ListenerMode)
        ensures
            r.implicit_tls == (tls_configured && port == IMPLICIT_TLS_PORT),
            r.start_tls == (tls_configured && port != IMPLICIT_TLS_PORT),
            !(r.implicit_tls && r.start_tls),
    {
        ListenerMode {
            start_tls: tls_configured && port != IMPLICIT_TLS_PORT,
            implicit_tls: tls_configured && port == IMPLICIT_TLS_PORT,
        }
    }
}

/// Whether TLS material must be loaded for listeners on `ports`: some listener
/// speaks implicit TLS.
pub fn tls_required(ports: &Vec<u16>) -> (r: bool)
    ensures
        r == exists|i: int| 0 <= i < ports@.len() && ports@[i] == IMPLICIT_TLS_PORT,
{
    let mut i: usize = 0;
    while i < ports.len()
        invariant
            i <= ports@.len(),
            forall|j: int| 0 <= j < i ==> ports@[j] != IMPLICIT_TLS_PORT,
        decreases ports@.len() - i,
    {
        if ports[i] == IMPLICIT_TLS_PORT {
            return true;
        }
        i = i + 1;
    }
    false
}

/// What the protocol engine asks for after a reply.
pub enum SessionAction {
    /// Send the reply and read on.
    Reply,
    /// Send nothing and read on.
    NoReply,
    /// Send the reply, then negotiate TLS.
    UpgradeTls,
    /// Send the reply and close.
    Close,
}

/// What a connection does next.
pub enum Step {
    /// Negotiate TLS on the stream.
    Handshake,
    /// Send the greeting.
    Greet,
    /// Read the next command line.
    ReadLine,
    /// Shut the stream down and hand out the result slot.
    Shutdown,
}

/// Where a connection stands: whether its stream is under TLS, and whether it
/// has greeted the client.
pub struct Connection {
    pub secured: bool,
    pub greeted: bool,
    pub closed: bool,
}

impl Connection {
    /// A connection just accepted.
    pub fn accepted() -> (r: Connection)
        ensures
            !r.secured,
            !r.greeted,
            !r.closed,
    {
        Connection { secured: false, greeted: false, closed: false }
    }

    /// The first thing to do: on an implicit-TLS listener, the handshake,
    /// before any byte is sent; else the greeting.
    pub fn first_step(&self, mode: &ListenerMode) -> (r: Step)
        ensures
            mode.implicit_tls && !self.secured ==> r is Handshake,
            !mode.implicit_tls || self.secured ==> r is Greet,
    {
        if mode.implicit_tls && !self.secured {
            Step::Handshake
        } else {
            Step::Greet
        }
    }

    /// Records a completed handshake. The greeting follows where it has not
    /// gone out yet; after STARTTLS the client speaks first.
    pub fn after_handshake(&mut self) -> (r: Step)
        ensures
            final(self).secured,
            final(self).greeted == old(self).greeted,
            final(self).closed == old(self).closed,
            !old(self).greeted ==> r is Greet,
            old(self).greeted ==> r is ReadLine,
    {
        self.secured = true;
        if self.greeted {
            Step::ReadLine
        } else {
            Step::Greet
        }
    }

    /// Records that the greeting went out.
    pub fn greet(&mut self)
        ensures
            final(self).greeted,
            final(self).secured == old(self).secured,
            final(self).closed == old(self).closed,
    {
        self.greeted = true;
    }

    /// The step after a reply whose action is `action`: a plain stream
    /// upgrades on request; a stream under TLS reads on; a close ends the
    /// conversation.
    pub fn after_reply(&mut self, action: &SessionAction) -> (r: Step)
        ensures
            action is Close ==> r is Shutdown && final(self).closed,
            action is UpgradeTls && !old(self).secured ==> r is Handshake && !final(self).closed,
            action is UpgradeTls && old(self).secured ==> r is ReadLine && !final(self).closed,
            (action is Reply || action is NoReply) ==> r is ReadLine && !final(self).closed,
            final(self).secured == old(self).secured,
            final(self).greeted == old(self).greeted,
    {
        match action {
            SessionAction::Close => {
                self.closed = true;
                Step::Shutdown
            },
            SessionAction::UpgradeTls => {
                self.closed = false;
                if self.secured {
                    Step::ReadLine
                } else {
                    Step::Handshake
                }
            },
            _ => {
                self.closed = false;
                Step::ReadLine
            },
        }
    }
}

} // verus!
