use crate::address::{address_of, derive_address, I2P_BASE64_SYMBOLS};
use crate::command::{
    naming_lookup_command, naming_lookup_line, session_create_command, session_create_line,
    stream_connect_command, stream_connect_line, stream_forward_command, stream_forward_line,
    DEST_GENERATE_COMMAND, HELLO_COMMAND,
};
use crate::error::SamError;
use crate::reply::{
    check_reply, generated_keys, hello_accepted, is_hello_ok, keys_of_reply, reports_failure,
};
use crate::style::SessionStyle;
use vstd::prelude::*;
use vstd::string::StringSliceAdditionalSpecFns;

verus! {

/// Where the setup of a session's control connection stands.
#[derive(Debug, Copy, Clone, PartialEq, Eq, Structural)]
pub enum SetupPhase {
    /// The handshake was sent; its reply is awaited.
    Greeting,
    /// Key generation was requested; its reply is awaited.
    Keying,
    /// The session holds both keys and takes commands.
    Ready,
    /// The router refused the setup; the connection is of no further use.
    Failed,
}

/// What the caller does next on a control connection during setup.
#[derive(Debug)]
pub enum SetupStep {
    /// Send this line and hand its reply back.
    Send(String),
    /// The session is ready.
    Ready,
    /// The setup failed with this error.
    Fail(SamError),
}

/// The protocol state of a session on one control connection: its name,
/// style and keys, and how far its setup has come. The caller owns the
/// connection, sends what the session asks for and hands back the replies.
#[derive(Debug)]
pub struct Session {
    session_style: SessionStyle,
    pub public_key: String,
    pub private_key: String,
    pub service: String,
    phase: SetupPhase,
    generates_keys: bool,
}

/// Where a forwarding or stream-connection arrangement stands.
#[derive(Debug, Copy, Clone, PartialEq, Eq, Structural)]
pub enum ArrangementPhase {
    /// The session-create line was sent on the primary connection; its
    /// reply is awaited.
    CreatingSession,
    /// A second connection under the same name is being set up.
    AwaitingSubSession,
    /// The forward or connect line was sent on the second connection; its
    /// reply is awaited.
    AwaitingStream,
    /// The arrangement stands.
    Done,
    /// The router refused a step.
    Failed,
}

/// What the caller does next for an arrangement.
#[derive(Debug)]
pub enum ArrangementStep {
    /// Open a second control connection and run this session's setup on it.
    OpenSubSession(Session),
    /// Send this line on the second connection and hand its reply back.
    SendOnSubSession(String),
    /// The arrangement stands.
    Done,
    /// The arrangement failed with this error.
    Fail(SamError),
}

/// The steps of `forward` and `connect_stream` after their first line: for
/// the stream style a second connection carries the forward or connect
/// line, as the primary one must stay free for further commands.
#[derive(Debug)]
pub struct Arrangement {
    service: String,
    public_key: String,
    private_key: String,
    follow_up: Option<String>,
    phase: ArrangementPhase,
}

impl Arrangement {
    pub closed spec fn phase_of(&self) -> ArrangementPhase {
        self.phase
    }

    /// The line for the second connection, where one is used.
    pub closed spec fn follow_up_line(&self) -> Option<Seq<char>> {
        match self.follow_up {
            Some(l) => Some(l@),
            None => None,
        }
    }

    /// The name and keys under which the second connection is opened.
    pub closed spec fn identity(&self) -> (Seq<char>, Seq<char>, Seq<char>) {
        (self.service@, self.public_key@, self.private_key@)
    }

    pub fn phase(&self) -> (r: ArrangementPhase)
        ensures
            r == self.phase_of(),
    {
        self.phase
    }

    /// Takes the reply to the last line sent and says what comes next. A
    /// reply that reports a failed result ends the arrangement with a
    /// protocol error.
    pub fn on_reply(&mut self, line: &str) -> (r: ArrangementStep)
        requires
            old(self).phase_of() == ArrangementPhase::CreatingSession || old(self).phase_of()
                == ArrangementPhase::AwaitingStream,
        ensures
            final(self).follow_up_line() == old(self).follow_up_line(),
            final(self).identity() == old(self).identity(),
            reports_failure(line@) ==> final(self).phase_of() == ArrangementPhase::Failed && (
            r matches ArrangementStep::Fail(SamError::Protocol(t)) && t@ == line@),
            !reports_failure(line@) && old(self).phase_of() == ArrangementPhase::CreatingSession
                && old(self).follow_up_line() is Some ==> final(self).phase_of()
                == ArrangementPhase::AwaitingSubSession && (r matches ArrangementStep::OpenSubSession(
                s) && s.service_name() == old(self).identity().0 && s.public() == old(
                self).identity().1 && s.private() == old(self).identity().2 && s.style()
                == SessionStyle::Stream && s.phase_of() == SetupPhase::Greeting && !s.generates()),
            !reports_failure(line@) && (old(self).phase_of() == ArrangementPhase::AwaitingStream
                || old(self).follow_up_line() is None) ==> final(self).phase_of()
                == ArrangementPhase::Done && r is Done,
    {
        if let Err(e) = check_reply(line) {
            self.phase = ArrangementPhase::Failed;
            return ArrangementStep::Fail(e);
        }
        if self.phase == ArrangementPhase::CreatingSession && self.follow_up.is_some() {
            self.phase = ArrangementPhase::AwaitingSubSession;
            ArrangementStep::OpenSubSession(
                Session::from(
                    self.service.clone(),
                    SessionStyle::Stream,
                    self.public_key.clone(),
                    self.private_key.clone(),
                ),
            )
        } else {
            self.phase = ArrangementPhase::Done;
            ArrangementStep::Done
        }
    }

    /// Called once the second connection's setup is done: the line to send
    /// on it.
    pub fn on_sub_session_ready(&mut self) -> (r: String)
        requires
            old(self).phase_of() == ArrangementPhase::AwaitingSubSession,
            old(self).follow_up_line() is Some,
        ensures
            final(self).phase_of() == ArrangementPhase::AwaitingStream,
            final(self).follow_up_line() == old(self).follow_up_line(),
            final(self).identity() == old(self).identity(),
            r@ == old(self).follow_up_line()->0,
    {
        self.phase = ArrangementPhase::AwaitingStream;
        match &self.follow_up {
            Some(l) => l.clone(),
            None => String::new(),
        }
    }
}

/// The phase that follows a reply during setup.
pub open spec fn next_phase(phase: SetupPhase, generates_keys: bool, line: Seq<char>) -> SetupPhase {
    match phase {
        SetupPhase::Greeting => if reports_failure(line) || !is_hello_ok(line) {
            SetupPhase::Failed
        } else if generates_keys {
            SetupPhase::Keying
        } else {
            SetupPhase::Ready
        },
        SetupPhase::Keying => if reports_failure(line) || generated_keys(line) is None {
            SetupPhase::Failed
        } else {
            SetupPhase::Ready
        },
        _ => phase,
    }
}

/// A handshake reply that reports a failure, or that is not a successful
/// handshake reply, ends the setup: the session fails instead of asking for
/// keys, and a failed session stays failed whatever comes after.
pub proof fn lemma_rejected_handshake_stops(generates_keys: bool, line: Seq<char>)
    requires
        reports_failure(line) || !is_hello_ok(line),
    ensures
        next_phase(SetupPhase::Greeting, generates_keys, line) == SetupPhase::Failed,
        forall|later: Seq<char>| next_phase(SetupPhase::Failed, generates_keys, later) == SetupPhase::Failed,
{
}

/// Two sessions with the same public key text have the same address, or
/// the same decode error, whatever else differs between them.
pub proof fn lemma_address_follows_public_key(s1: &Session, s2: &Session)
    requires
        s1.public() == s2.public(),
    ensures
        address_of(crate::text::utf8_of(s1.public())) == address_of(crate::text::utf8_of(s2.public())),
{
}

impl Session {
    pub closed spec fn style(&self) -> SessionStyle {
        self.session_style
    }

    pub closed spec fn phase_of(&self) -> SetupPhase {
        self.phase
    }

    /// Whether the handshake is followed by a request for fresh keys.
    pub closed spec fn generates(&self) -> bool {
        self.generates_keys
    }

    pub closed spec fn service_name(&self) -> Seq<char> {
        self.service@
    }

    pub closed spec fn public(&self) -> Seq<char> {
        self.public_key@
    }

    pub closed spec fn private(&self) -> Seq<char> {
        self.private_key@
    }

    /// A session named `service` that, after the handshake, asks the router
    /// for a fresh key pair.
    pub fn new(service: String, session_style: SessionStyle) -> (r: Session)
        ensures
            r.service_name() == service@,
            r.style() == session_style,
            r.public().len() == 0,
            r.private().len() == 0,
            r.phase_of() == SetupPhase::Greeting,
            r.generates(),
    {
        Session {
            session_style,
            public_key: String::new(),
            private_key: String::new(),
            service,
            phase: SetupPhase::Greeting,
            generates_keys: true,
        }
    }

    /// A session named `service` that resumes the identity of the given key
    /// pair; its setup is the handshake alone.
    pub fn from(service: String, session_style: SessionStyle, public_key: String, private_key: String) -> (r: Session)
        ensures
            r.service_name() == service@,
            r.style() == session_style,
            r.public() == public_key@,
            r.private() == private_key@,
            r.phase_of() == SetupPhase::Greeting,
            !r.generates(),
    {
        Session {
            session_style,
            public_key,
            private_key,
            service,
            phase: SetupPhase::Greeting,
            generates_keys: false,
        }
    }

    pub fn session_style(&self) -> (r: SessionStyle)
        ensures
            r == self.style(),
    {
        self.session_style
    }

    pub fn phase(&self) -> (r: SetupPhase)
        ensures
            r == self.phase_of(),
    {
        self.phase
    }

    /// The line that opens the setup: the handshake.
    pub fn hello(&self) -> (r: &'static str)
        ensures
            r@ == HELLO_COMMAND@,
    {
        HELLO_COMMAND
    }

    /// Takes the reply to the last setup line and says what comes next. A
    /// failed or malformed handshake ends the setup with a protocol error,
    /// before any key is asked for; a key-generation reply must carry both
    /// keys.
    pub fn on_setup_reply(&mut self, line: &str) -> (r: SetupStep)
        requires
            old(self).phase_of() == SetupPhase::Greeting || old(self).phase_of() == SetupPhase::Keying,
        ensures
            final(self).phase_of() == next_phase(old(self).phase_of(), old(self).generates(), line@),
            final(self).style() == old(self).style(),
            final(self).generates() == old(self).generates(),
            final(self).service_name() == old(self).service_name(),
            final(self).phase_of() == SetupPhase::Failed <==> (r matches SetupStep::Fail(
                SamError::Protocol(t),
            ) && t@ == line@),
            final(self).phase_of() == SetupPhase::Keying <==> (r matches SetupStep::Send(c)
                && c@ == DEST_GENERATE_COMMAND@),
            final(self).phase_of() == SetupPhase::Ready <==> r is Ready,
            old(self).phase_of() == SetupPhase::Keying && final(self).phase_of() == SetupPhase::Ready
                ==> generated_keys(line@) == Some((final(self).public(), final(self).private())),
            !(old(self).phase_of() == SetupPhase::Keying && final(self).phase_of() == SetupPhase::Ready)
                ==> final(self).public() == old(self).public() && final(self).private()
                == old(self).private(),
    {
        let failure = match check_reply(line) {
            Ok(_) => None,
            Err(e) => Some(e),
        };
        if let Some(e) = failure {
            self.phase = SetupPhase::Failed;
            return SetupStep::Fail(e);
        }
        match self.phase {
            SetupPhase::Greeting => {
                if !hello_accepted(line) {
                    self.phase = SetupPhase::Failed;
                    SetupStep::Fail(SamError::Protocol(line.to_owned()))
                } else if self.generates_keys {
                    self.phase = SetupPhase::Keying;
                    SetupStep::Send(DEST_GENERATE_COMMAND.to_owned())
                } else {
                    self.phase = SetupPhase::Ready;
                    SetupStep::Ready
                }
            },
            _ => {
                match keys_of_reply(line) {
                    Some((public, private)) => {
                        self.public_key = public;
                        self.private_key = private;
                        self.phase = SetupPhase::Ready;
                        SetupStep::Ready
                    },
                    None => {
                        self.phase = SetupPhase::Failed;
                        SetupStep::Fail(SamError::Protocol(line.to_owned()))
                    },
                }
            },
        }
    }

    /// Starts forwarding the session's inbound traffic to `host:port`. The
    /// returned line creates the session on this connection; for the stream
    /// style the arrangement then asks for a second connection, which
    /// carries the forward line.
    pub fn forward(&self, host: &str, port: u16) -> (r: (Arrangement, String))
        requires
            self.phase_of() == SetupPhase::Ready,
        ensures
            r.1@ == session_create_line(self.style(), self.service_name(), self.private(), host@, port as nat),
            r.0.phase_of() == ArrangementPhase::CreatingSession,
            r.0.identity() == (self.service_name(), self.public(), self.private()),
            self.style() == SessionStyle::Stream ==> r.0.follow_up_line() == Some(
                stream_forward_line(self.service_name(), host@, port as nat),
            ),
            self.style() != SessionStyle::Stream ==> r.0.follow_up_line() is None,
    {
        let first = session_create_command(
            self.session_style,
            self.service.as_str(),
            self.private_key.as_str(),
            host,
            port,
        );
        let follow_up = match self.session_style {
            SessionStyle::Stream => Some(stream_forward_command(self.service.as_str(), host, port)),
            _ => None,
        };
        let arrangement = Arrangement {
            service: self.service.clone(),
            public_key: self.public_key.clone(),
            private_key: self.private_key.clone(),
            follow_up,
            phase: ArrangementPhase::CreatingSession,
        };
        (arrangement, first)
    }

    /// Starts a stream to `destination`. The returned line makes this
    /// session a stream session; the arrangement then asks for a second
    /// connection, which carries the connect line and afterwards the
    /// stream's data.
    pub fn connect_stream(&self, destination: &str) -> (r: (Arrangement, String))
        requires
            self.phase_of() == SetupPhase::Ready,
        ensures
            r.1@ == session_create_line(SessionStyle::Stream, self.service_name(), self.private(), ""@, 0),
            r.0.phase_of() == ArrangementPhase::CreatingSession,
            r.0.identity() == (self.service_name(), self.public(), self.private()),
            r.0.follow_up_line() == Some(stream_connect_line(self.service_name(), destination@)),
    {
        let first = session_create_command(
            SessionStyle::Stream,
            self.service.as_str(),
            self.private_key.as_str(),
            "",
            0,
        );
        let arrangement = Arrangement {
            service: self.service.clone(),
            public_key: self.public_key.clone(),
            private_key: self.private_key.clone(),
            follow_up: Some(stream_connect_command(self.service.as_str(), destination)),
            phase: ArrangementPhase::CreatingSession,
        };
        (arrangement, first)
    }

    /// The line that resolves `name`; the name `ME` stands for this
    /// session's own destination. Its reply is read by
    /// [`crate::value_of_lookup_reply`].
    pub fn look_up(&self, name: &str) -> (r: String)
        requires
            self.phase_of() == SetupPhase::Ready,
        ensures
            r@ == naming_lookup_line(name@),
    {
        naming_lookup_command(name)
    }

    /// The short `.b32.i2p` address of this session's public key.
    pub fn address(&self) -> (r: Result<String, SamError>)
        requires
            crate::text::utf8_of(self.public()).len() <= usize::MAX / 8,
        ensures
            match address_of(crate::text::utf8_of(self.public())) {
                Some(a) => r matches Ok(s) && s@ == a,
                None => r matches Err(SamError::Decode),
            },
            (exists|i: int|
                0 <= i < crate::text::utf8_of(self.public()).len() && !I2P_BASE64_SYMBOLS@.contains(
                    #[trigger] crate::text::utf8_of(self.public())[i] as char,
                )) ==> r matches Err(SamError::Decode),
    {
        derive_address(self.public_key.as_str())
    }
}

} // verus!
