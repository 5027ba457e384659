//! The life of a connection, as a machine that is handed what happened
//! outside and answers what is to be done next. It owns no socket: whoever
//! drives it performs the requests that it makes and reports their outcomes.

use vstd::prelude::*;

use crate::codec::chat_decoding;
use crate::codec::decode;
use crate::codec::decoding;
use crate::codec::encode_private;
use crate::codec::encode_public;
use crate::codec::msg_to_chatmessage;
use crate::codec::msg_to_whispermessage;
use crate::codec::payload_after;
use crate::codec::private_frame;
use crate::codec::public_frame;
use crate::codec::strip_tag;
use crate::codec::whisper_decoding;
use crate::codec::PRIVATE_TAG;
use crate::codec::PUBLIC_TAG;
use crate::credential::accepted;
use crate::credential::accepts;
use crate::credential::header_value_ok;
use crate::credential::is_header_value;
use crate::credential::normalized;
use crate::credential::strip_newlines;
use crate::error::ChatError;
use crate::error::ErrorView;
use crate::message::ChatMessage;
use crate::message::ChatMessageView;
use crate::message::MessageType;
use crate::message::MessageTypeView;
use crate::message::WhisperMessage;
use crate::message::WhisperMessageView;
use crate::plain::some_view;
use crate::plain::view_of;

verus! {

/// The address of the service.
pub const PRIMARY_ENDPOINT: &'static str = "wss://chat.strims.gg/ws";

/// The address of the service's second deployment.
pub const DEV_ENDPOINT: &'static str = "wss://chat2.strims.gg/ws";

/// Where the service tells whether it knows a credential.
pub const IDENTITY_URL: &'static str = "https://chat.strims.gg/api/chat/me";

/// Work that only the outside can do.
#[derive(Debug)]
pub enum Request {
    /// Ask `url`, with `cookie` in the `Cookie` header, and report the status
    /// of the answer.
    Verify { url: String, cookie: String },
    /// Open a socket at `endpoint`, with `cookie` in the `Cookie` header, and
    /// report whether the handshake gave one.
    Handshake { endpoint: String, cookie: String },
}

/// A request as plain text.
pub enum RequestView {
    Verify { url: Seq<char>, cookie: Seq<char> },
    Handshake { endpoint: Seq<char>, cookie: Seq<char> },
}

impl View for Request {
    type V = RequestView;

    open spec fn view(&self) -> RequestView {
        match self {
            Request::Verify { url, cookie } => RequestView::Verify { url: url@, cookie: cookie@ },
            Request::Handshake { endpoint, cookie } => RequestView::Handshake {
                endpoint: endpoint@,
                cookie: cookie@,
            },
        }
    }
}

/// The answer of the machine to one call.
#[derive(Debug)]
pub enum Step<T> {
    /// The frame was none that this call waits for: read the next one and
    /// call again.
    Again,
    /// The call cannot go on before this request is performed and reported.
    Owed(Request),
    /// The call is over, with this result.
    Done(Result<T, ChatError>),
}

/// An answer as plain text.
pub enum StepView<T> {
    Again,
    Owed(RequestView),
    Done(Result<T, ErrorView>),
}

impl<T: View> View for Step<T> {
    type V = StepView<T::V>;

    open spec fn view(&self) -> StepView<T::V> {
        match self {
            Step::Again => StepView::Again,
            Step::Owed(request) => StepView::Owed(request@),
            Step::Done(result) => StepView::Done(view_of(*result)),
        }
    }
}

/// Where a connection stands.
#[derive(Debug)]
pub enum Phase {
    /// The service has not been asked about the credential yet.
    Verifying,
    /// The credential was accepted; the first handshake is owed.
    Connecting,
    /// A socket is open.
    Live,
    /// A read failed with the words kept here; one handshake is owed.
    Rebuilding(String),
    /// Nothing more can be done with this connection, for the reason kept
    /// here.
    Failed(ChatError),
}

/// A phase as plain text.
pub enum PhaseView {
    Verifying,
    Connecting,
    Live,
    Rebuilding(Seq<char>),
    Failed(ErrorView),
}

impl View for Phase {
    type V = PhaseView;

    open spec fn view(&self) -> PhaseView {
        match self {
            Phase::Verifying => PhaseView::Verifying,
            Phase::Connecting => PhaseView::Connecting,
            Phase::Live => PhaseView::Live,
            Phase::Rebuilding(detail) => PhaseView::Rebuilding(detail@),
            Phase::Failed(error) => PhaseView::Failed(error@),
        }
    }
}

/// A connection to the service: where it leads, the credential that it
/// presents, and how far it has come.
#[derive(Debug)]
pub struct Connection {
    endpoint: String,
    cookie: String,
    phase: Phase,
}

/// A connection as plain text.
pub struct ConnectionView {
    pub endpoint: Seq<char>,
    pub cookie: Seq<char>,
    pub phase: PhaseView,
}

impl ConnectionView {
    /// What holds of every connection: it leads to one of the two known
    /// addresses, and unless it has failed its credential can be sent.
    pub open spec fn wf(self) -> bool {
        &&& self.endpoint == PRIMARY_ENDPOINT@ || self.endpoint == DEV_ENDPOINT@
        &&& !(self.phase is Failed) ==> header_value_ok(self.cookie)
    }

    /// The same connection in another phase.
    pub open spec fn in_phase(self, phase: PhaseView) -> ConnectionView {
        ConnectionView { endpoint: self.endpoint, cookie: self.cookie, phase }
    }

    /// A connection as it is made: awaiting verification, or failed at once
    /// where the credential cannot be sent.
    pub open spec fn opening(endpoint: Seq<char>, cookie: Seq<char>) -> ConnectionView {
        ConnectionView {
            endpoint,
            cookie,
            phase: if header_value_ok(cookie) {
                PhaseView::Verifying
            } else {
                PhaseView::Failed(ErrorView::InvalidCredentialFormat(cookie))
            },
        }
    }

    /// The request for the credential check.
    pub open spec fn verification(self) -> RequestView {
        RequestView::Verify { url: IDENTITY_URL@, cookie: self.cookie }
    }

    /// The request for a handshake: the stored address, and the stored
    /// credential without its newlines.
    pub open spec fn handshake(self) -> RequestView {
        RequestView::Handshake { endpoint: self.endpoint, cookie: strip_newlines(self.cookie) }
    }

    /// The request that is owed in this phase, if any.
    pub open spec fn pending(self) -> Option<RequestView> {
        match self.phase {
            PhaseView::Verifying => Some(self.verification()),
            PhaseView::Connecting => Some(self.handshake()),
            PhaseView::Rebuilding(_) => Some(self.handshake()),
            PhaseView::Live => None,
            PhaseView::Failed(_) => None,
        }
    }

    /// What every operation answers before it looks at its argument: nothing
    /// on a live connection, the stored failure on a failed one, and the
    /// owed request on any other.
    pub open spec fn gate<T>(self) -> Option<StepView<T>> {
        match self.phase {
            PhaseView::Live => None,
            PhaseView::Failed(error) => Some(StepView::Done(Err(error))),
            PhaseView::Verifying => Some(StepView::Owed(self.verification())),
            PhaseView::Connecting => Some(StepView::Owed(self.handshake())),
            PhaseView::Rebuilding(_) => Some(StepView::Owed(self.handshake())),
        }
    }

    /// The connection after the report of the credential check, and what the
    /// report comes to.
    pub open spec fn verified(self, status: Option<u16>) -> (
        ConnectionView,
        Result<(), ErrorView>,
    ) {
        match self.phase {
            PhaseView::Verifying => if accepts(status) {
                (self.in_phase(PhaseView::Connecting), Ok(()))
            } else {
                let error = ErrorView::AuthenticationRejected(self.cookie);
                (self.in_phase(PhaseView::Failed(error)), Err(error))
            },
            PhaseView::Failed(error) => (self, Err(error)),
            _ => (self, Ok(())),
        }
    }

    /// The connection after the report of a handshake, and what the report
    /// comes to. After a failed read the report is that read's error in
    /// either case, with a note of whether the handshake gave a socket.
    pub open spec fn established(self, outcome: Result<(), Seq<char>>) -> (
        ConnectionView,
        Result<(), ErrorView>,
    ) {
        match self.phase {
            PhaseView::Connecting => match outcome {
                Ok(_) => (self.in_phase(PhaseView::Live), Ok(())),
                Err(detail) => {
                    let error = ErrorView::HandshakeFailed(detail);
                    (self.in_phase(PhaseView::Failed(error)), Err(error))
                },
            },
            PhaseView::Rebuilding(read_detail) => match outcome {
                Ok(_) => (
                    self.in_phase(PhaseView::Live),
                    Err(ErrorView::ReadFailed { detail: read_detail, reconnected: true }),
                ),
                Err(detail) => (
                    self.in_phase(PhaseView::Failed(ErrorView::HandshakeFailed(detail))),
                    Err(ErrorView::ReadFailed { detail: read_detail, reconnected: false }),
                ),
            },
            PhaseView::Failed(error) => (self, Err(error)),
            _ => (self, Ok(())),
        }
    }

    /// The answer to a public post: the frame to write.
    pub open spec fn send(self, message: Seq<char>) -> StepView<Seq<char>> {
        match self.gate() {
            Some(step) => step,
            None => StepView::Done(Ok(public_frame(message))),
        }
    }

    /// The answer to a whisper: the frame to write.
    pub open spec fn whisper(self, receiver: Seq<char>, message: Seq<char>) -> StepView<
        Seq<char>,
    > {
        match self.gate() {
            Some(step) => step,
            None => StepView::Done(Ok(private_frame(receiver, message))),
        }
    }

    /// The connection after one read of the transport, and the answer: the
    /// frame as it came, or, after a failure, the request for one handshake.
    pub open spec fn read(self, outcome: Result<Seq<char>, Seq<char>>) -> (
        ConnectionView,
        StepView<Seq<char>>,
    ) {
        match self.gate() {
            Some(step) => (self, step),
            None => match outcome {
                Ok(frame) => (self, StepView::Done(Ok(frame))),
                Err(detail) => (
                    self.in_phase(PhaseView::Rebuilding(detail)),
                    StepView::Owed(self.handshake()),
                ),
            },
        }
    }

    /// As `read`, but a frame counts only where it begins with `prefix`, and
    /// then only what follows the prefix is handed on.
    pub open spec fn read_until_prefix(
        self,
        prefix: Seq<char>,
        outcome: Result<Seq<char>, Seq<char>>,
    ) -> (ConnectionView, StepView<Seq<char>>) {
        let (next, step) = self.read(outcome);
        (
            next,
            match step {
                StepView::Done(Ok(frame)) => match payload_after(prefix, frame) {
                    Some(payload) => StepView::Done(Ok(payload)),
                    None => StepView::Again,
                },
                other => other,
            },
        )
    }

    /// A read that waits for a public post.
    pub open spec fn read_msg(self, outcome: Result<Seq<char>, Seq<char>>) -> (
        ConnectionView,
        StepView<ChatMessageView>,
    ) {
        let (next, step) = self.read_until_prefix(PUBLIC_TAG@, outcome);
        (
            next,
            match step {
                StepView::Done(Ok(payload)) => StepView::Done(chat_decoding(payload)),
                StepView::Done(Err(error)) => StepView::Done(Err(error)),
                StepView::Owed(request) => StepView::Owed(request),
                StepView::Again => StepView::Again,
            },
        )
    }

    /// A read that waits for a whisper.
    pub open spec fn read_whisper(self, outcome: Result<Seq<char>, Seq<char>>) -> (
        ConnectionView,
        StepView<WhisperMessageView>,
    ) {
        let (next, step) = self.read_until_prefix(PRIVATE_TAG@, outcome);
        (
            next,
            match step {
                StepView::Done(Ok(payload)) => StepView::Done(whisper_decoding(payload)),
                StepView::Done(Err(error)) => StepView::Done(Err(error)),
                StepView::Owed(request) => StepView::Owed(request),
                StepView::Again => StepView::Again,
            },
        )
    }

    /// A read that waits for either kind of event.
    pub open spec fn read_all(self, outcome: Result<Seq<char>, Seq<char>>) -> (
        ConnectionView,
        StepView<MessageTypeView>,
    ) {
        let (next, step) = self.read(outcome);
        (
            next,
            match step {
                StepView::Done(Ok(frame)) => match decoding(frame) {
                    Some(decoded) => StepView::Done(decoded),
                    None => StepView::Again,
                },
                StepView::Done(Err(error)) => StepView::Done(Err(error)),
                StepView::Owed(request) => StepView::Owed(request),
                StepView::Again => StepView::Again,
            },
        )
    }
}

/// What the report of a write comes to.
pub open spec fn write_report(outcome: Result<(), Seq<char>>) -> Result<(), ErrorView> {
    match outcome {
        Ok(_) => Ok(()),
        Err(detail) => Err(ErrorView::WriteFailed(detail)),
    }
}

impl View for Connection {
    type V = ConnectionView;

    closed spec fn view(&self) -> ConnectionView {
        ConnectionView { endpoint: self.endpoint@, cookie: self.cookie@, phase: self.phase@ }
    }
}

impl Connection {
    #[verifier::type_invariant]
    spec fn well_formed(self) -> bool {
        self@.wf()
    }

    /// A connection to the service, not yet verified.
    pub fn new(cookie: &str) -> (connection: Connection)
        ensures
            connection@ == ConnectionView::opening(PRIMARY_ENDPOINT@, cookie@),
    {
        let endpoint = PRIMARY_ENDPOINT;
        return Connection::new_at_endpoint(endpoint, cookie);
    }

    /// A connection to the service's second deployment, not yet verified.
    pub fn new_dev(cookie: &str) -> (connection: Connection)
        ensures
            connection@ == ConnectionView::opening(DEV_ENDPOINT@, cookie@),
    {
        let endpoint = DEV_ENDPOINT;
        return Connection::new_at_endpoint(endpoint, cookie);
    }

    fn new_at_endpoint(endpoint: &str, cookie: &str) -> (connection: Connection)
        requires
            endpoint@ == PRIMARY_ENDPOINT@ || endpoint@ == DEV_ENDPOINT@,
        ensures
            connection@ == ConnectionView::opening(endpoint@, cookie@),
    {
        let phase = if is_header_value(cookie) {
            Phase::Verifying
        } else {
            Phase::Failed(ChatError::InvalidCredentialFormat(cookie.to_owned()))
        };
        Connection { endpoint: endpoint.to_owned(), cookie: cookie.to_owned(), phase }
    }

    /// The address that the connection leads to.
    pub fn endpoint(&self) -> (endpoint: &str)
        ensures
            endpoint@ == self@.endpoint,
    {
        self.endpoint.as_str()
    }

    /// The credential as it was given.
    pub fn cookie(&self) -> (cookie: &str)
        ensures
            cookie@ == self@.cookie,
    {
        self.cookie.as_str()
    }

    /// Where the connection stands.
    pub fn phase(&self) -> (phase: &Phase)
        ensures
            phase@ == self@.phase,
    {
        &self.phase
    }

    /// Whether a socket is open.
    pub fn is_live(&self) -> (live: bool)
        ensures
            live == (self@.phase is Live),
    {
        match &self.phase {
            Phase::Live => true,
            _ => false,
        }
    }

    /// The failure that ended the connection, if it has ended.
    pub fn failure(&self) -> (failure: Option<ChatError>)
        ensures
            match self@.phase {
                PhaseView::Failed(error) => some_view(failure) == Some(error),
                _ => failure is None,
            },
    {
        match &self.phase {
            Phase::Failed(error) => Some(error.clone()),
            _ => None,
        }
    }

    fn verification(&self) -> (request: Request)
        ensures
            request@ == self@.verification(),
    {
        Request::Verify { url: IDENTITY_URL.to_owned(), cookie: self.cookie.clone() }
    }

    fn handshake(&self) -> (request: Request)
        ensures
            request@ == self@.handshake(),
    {
        Request::Handshake {
            endpoint: self.endpoint.clone(),
            cookie: normalized(self.cookie.as_str()),
        }
    }

    /// The request that is owed now: the credential check before anything
    /// else, then a handshake, and a handshake again after a failed read.
    pub fn pending(&self) -> (request: Option<Request>)
        ensures
            some_view(request) == self@.pending(),
            self@.wf(),
    {
        proof {
            use_type_invariant(self);
        }
        match &self.phase {
            Phase::Verifying => Some(self.verification()),
            Phase::Connecting => Some(self.handshake()),
            Phase::Rebuilding(_) => Some(self.handshake()),
            Phase::Live => None,
            Phase::Failed(_) => None,
        }
    }

    fn gate<T: View>(&self) -> (step: Option<Step<T>>)
        ensures
            some_view(step) == self@.gate::<T::V>(),
    {
        match &self.phase {
            Phase::Live => None,
            Phase::Failed(error) => Some(Step::Done(Err(error.clone()))),
            Phase::Verifying => Some(Step::Owed(self.verification())),
            Phase::Connecting => Some(Step::Owed(self.handshake())),
            Phase::Rebuilding(_) => Some(Step::Owed(self.handshake())),
        }
    }

    /// Takes the report of the credential check: the status of the service's
    /// answer, or `None` where the request got none. A status of success
    /// leads on to the handshake, anything else ends the connection.
    pub fn verified(&mut self, status: Option<u16>) -> (report: Result<(), ChatError>)
        ensures
            (final(self)@, view_of(report)) == old(self)@.verified(status),
    {
        proof {
            use_type_invariant(&*self);
        }
        match &self.phase {
            Phase::Verifying => {
                if accepted(status) {
                    self.phase = Phase::Connecting;
                    Ok(())
                } else {
                    self.phase = Phase::Failed(ChatError::AuthenticationRejected(self.cookie.clone()));
                    Err(ChatError::AuthenticationRejected(self.cookie.clone()))
                }
            },
            Phase::Failed(error) => Err(error.clone()),
            _ => Ok(()),
        }
    }

    /// Takes the report of a handshake: `Ok` where it gave a socket, the
    /// transport's words where it did not.
    pub fn established(&mut self, outcome: Result<(), String>) -> (report: Result<(), ChatError>)
        ensures
            (final(self)@, view_of(report)) == old(self)@.established(view_of(outcome)),
    {
        proof {
            use_type_invariant(&*self);
        }
        match &self.phase {
            Phase::Connecting => match outcome {
                Ok(_) => {
                    self.phase = Phase::Live;
                    Ok(())
                },
                Err(detail) => {
                    self.phase = Phase::Failed(ChatError::HandshakeFailed(detail.clone()));
                    Err(ChatError::HandshakeFailed(detail))
                },
            },
            Phase::Rebuilding(read_detail) => {
                let read_detail = read_detail.clone();
                match outcome {
                    Ok(_) => {
                        self.phase = Phase::Live;
                        Err(ChatError::ReadFailed { detail: read_detail, reconnected: true })
                    },
                    Err(detail) => {
                        self.phase = Phase::Failed(ChatError::HandshakeFailed(detail));
                        Err(ChatError::ReadFailed { detail: read_detail, reconnected: false })
                    },
                }
            },
            Phase::Failed(error) => Err(error.clone()),
            _ => Ok(()),
        }
    }

    /// Builds the frame of a public post, for the driver to write.
    pub fn send(&self, message: &str) -> (step: Step<String>)
        ensures
            step@ == self@.send(message@),
    {
        match self.gate() {
            Some(step) => step,
            None => {
                let msg = encode_public(message);
                Step::Done(Ok(msg))
            },
        }
    }

    /// Builds the frame of a whisper, for the driver to write.
    pub fn whisper(&self, receiver: &str, message: &str) -> (step: Step<String>)
        ensures
            step@ == self@.whisper(receiver@, message@),
    {
        match self.gate() {
            Some(step) => step,
            None => {
                let msg = encode_private(receiver, message);
                Step::Done(Ok(msg))
            },
        }
    }

    /// Takes the report of a write: `Ok` where the frame went out, the
    /// transport's words where it did not. A failed write is reported and
    /// nothing else: only a failed read leads to a new handshake.
    pub fn written(outcome: Result<(), String>) -> (report: Result<(), ChatError>)
        ensures
            view_of(report) == write_report(view_of(outcome)),
    {
        match outcome {
            Ok(_) => Ok(()),
            Err(detail) => Err(ChatError::WriteFailed(detail)),
        }
    }

    fn read(&mut self, outcome: Result<String, String>) -> (step: Step<String>)
        ensures
            (final(self)@, step@) == old(self)@.read(view_of(outcome)),
    {
        match self.gate() {
            Some(step) => step,
            None => match outcome {
                Ok(frame) => Step::Done(Ok(frame)),
                Err(detail) => {
                    proof {
                        use_type_invariant(&*self);
                    }
                    let request = self.handshake();
                    self.phase = Phase::Rebuilding(detail);
                    Step::Owed(request)
                },
            },
        }
    }

    /// Takes what one read of the transport gave and hands a frame on only
    /// where it begins with `prefix`, without the prefix.
    pub fn read_until_prefix(&mut self, prefix: &str, outcome: Result<String, String>) -> (step:
        Step<String>)
        ensures
            (final(self)@, step@) == old(self)@.read_until_prefix(prefix@, view_of(outcome)),
    {
        match self.read(outcome) {
            Step::Done(Ok(msg)) => match strip_tag(msg.as_str(), prefix) {
                Some(payload) => Step::Done(Ok(payload.to_owned())),
                None => Step::Again,
            },
            other => other,
        }
    }

    /// Takes what one read of the transport gave, for a caller that waits for
    /// either kind of event. A frame with another tag is passed over.
    pub fn read_all(&mut self, outcome: Result<String, String>) -> (step: Step<MessageType>)
        ensures
            (final(self)@, step@) == old(self)@.read_all(view_of(outcome)),
    {
        match self.read(outcome) {
            Step::Done(Ok(msg)) => match decode(msg.as_str()) {
                Some(decoded) => Step::Done(decoded),
                None => Step::Again,
            },
            Step::Done(Err(error)) => Step::Done(Err(error)),
            Step::Owed(request) => Step::Owed(request),
            Step::Again => Step::Again,
        }
    }

    /// Takes what one read of the transport gave, for a caller that waits for
    /// a public post. Every other frame is passed over.
    pub fn read_msg(&mut self, outcome: Result<String, String>) -> (step: Step<ChatMessage>)
        ensures
            (final(self)@, step@) == old(self)@.read_msg(view_of(outcome)),
    {
        match self.read_until_prefix(PUBLIC_TAG, outcome) {
            Step::Done(Ok(msg)) => Step::Done(msg_to_chatmessage(msg.as_str())),
            Step::Done(Err(error)) => Step::Done(Err(error)),
            Step::Owed(request) => Step::Owed(request),
            Step::Again => Step::Again,
        }
    }

    /// Takes what one read of the transport gave, for a caller that waits for
    /// a whisper. Every other frame is passed over.
    pub fn read_whisper(&mut self, outcome: Result<String, String>) -> (step: Step<WhisperMessage>)
        ensures
            (final(self)@, step@) == old(self)@.read_whisper(view_of(outcome)),
    {
        let prefix = PRIVATE_TAG;
        match self.read_until_prefix(prefix, outcome) {
            Step::Done(Ok(msg)) => Step::Done(msg_to_whispermessage(msg.as_str())),
            Step::Done(Err(error)) => Step::Done(Err(error)),
            Step::Owed(request) => Step::Owed(request),
            Step::Again => Step::Again,
        }
    }

    /// Takes what one read of the transport gave and hands the frame on as
    /// it came, whatever its tag.
    pub fn read_any(&mut self, outcome: Result<String, String>) -> (step: Step<String>)
        ensures
            (final(self)@, step@) == old(self)@.read(view_of(outcome)),
    {
        self.read(outcome)
    }
}

} // verus!
