//! The handshake of one connection as a state machine without I/O.
//!
//! The caller owns the socket and the two collaborators (the authenticator
//! and the command executor). It hands the session one [`Event`] at a time
//! and carries out the [`Action`] that comes back: write bytes, ask a
//! collaborator, start relaying, or close.

use vstd::prelude::*;
use crate::address::{Address, AddressModel};
use crate::auth::{
    lemma_verification_result_round_trip,
    s5client_upw_auth_request,
    s5server_user_pw_negotiation_verification_result,
    CredentialsModel,
};
use crate::bytes::copy_range;
use crate::codes::{
    AuthMethod,
    Command,
    ReplyCode,
    Socks5Error,
    AUTH_STATUS_FAILURE,
    AUTH_STATUS_SUCCESS,
    SERVER_NO_ACCEPTABLE_METHOD,
    SOCKS5_VERSION,
};
use crate::framing::{decode_fault, FrameKind};
use crate::greeting::{
    lemma_greeting_round_trip,
    lemma_negotiation_resp_round_trip,
    s5client_netotiation_request,
    s5server_negotiation_resp,
    GreetingModel,
};
use crate::request::{
    lemma_reply_round_trip,
    s5client_2dest_request,
    s5server_reply,
    ReplyModel,
    RequestModel,
};
use crate::selector::{lemma_select_first_offered, select, select_spec};

verus! {

/// The states of a handshake.
#[derive(Debug, Clone, Copy, PartialEq, Eq, Structural)]
pub enum SessionState {
    /// Nothing was received yet; the client's greeting comes next.
    AwaitingGreeting,
    /// A method that needs credentials was selected and they are not yet
    /// verified.
    Authenticating,
    /// The client may send its request, or has sent it and the executor has
    /// not yet answered.
    AwaitingRequest,
    /// The handshake succeeded; the relay takes over.
    Established,
    /// The handshake failed; the connection is closed.
    Closed,
}

/// What the server accepts: the authentication methods, most preferred
/// first, and the commands.
#[derive(Debug, PartialEq, Eq)]
pub struct ServerConfig {
    pub methods: Vec<AuthMethod>,
    pub connect: bool,
    pub bind: bool,
    pub udp_associate: bool,
}

/// The mathematical value of a [`ServerConfig`].
pub struct ConfigModel {
    pub methods: Seq<AuthMethod>,
    pub connect: bool,
    pub bind: bool,
    pub udp_associate: bool,
}

impl ConfigModel {
    /// Whether the server's policy admits `cmd`.
    pub open spec fn permits(self, cmd: Command) -> bool {
        match cmd {
            Command::Connect => self.connect,
            Command::Bind => self.bind,
            Command::UdpAssociate => self.udp_associate,
        }
    }
}

impl View for ServerConfig {
    type V = ConfigModel;

    open spec fn view(&self) -> ConfigModel {
        ConfigModel {
            methods: self.methods@,
            connect: self.connect,
            bind: self.bind,
            udp_associate: self.udp_associate,
        }
    }
}

impl Default for ServerConfig {
    /// Prefers user name and password to no authentication, and admits
    /// `Connect` only.
    fn default() -> (config: Self)
        ensures
            config@.methods == seq![AuthMethod::UserPassword, AuthMethod::NoAuth],
            config@.connect,
            !config@.bind,
            !config@.udp_associate,
    {
        let mut methods: Vec<AuthMethod> = Vec::new();
        methods.push(AuthMethod::UserPassword);
        methods.push(AuthMethod::NoAuth);
        assert(methods@ =~= seq![AuthMethod::UserPassword, AuthMethod::NoAuth]);
        ServerConfig { methods, connect: true, bind: false, udp_associate: false }
    }
}

impl ServerConfig {
    /// Whether the server's policy admits `cmd`.
    pub fn permits(&self, cmd: Command) -> (permitted: bool)
        ensures
            permitted == self@.permits(cmd),
    {
        match cmd {
            Command::Connect => self.connect,
            Command::Bind => self.bind,
            Command::UdpAssociate => self.udp_associate,
        }
    }
}

/// What happened on the connection or came back from a collaborator.
#[derive(Debug, PartialEq, Eq)]
pub enum Event {
    /// Bytes arrived from the client. They are read as one frame from their
    /// first byte; bytes behind that frame are not looked at.
    Frame(Vec<u8>),
    /// The authenticator's answer to [`Action::Verify`].
    Verdict(bool),
    /// The executor's answer to [`Action::Prepare`]: the endpoint that the
    /// relay is bound to, or the reply code of the failure.
    Prepared(Result<(Address, u16), ReplyCode>),
    /// The connection was closed or timed out.
    Disconnected,
}

/// The mathematical value of an [`Event`].
pub enum EventModel {
    Frame(Seq<u8>),
    Verdict(bool),
    Prepared(Result<(AddressModel, u16), ReplyCode>),
    Disconnected,
}

impl View for Event {
    type V = EventModel;

    open spec fn view(&self) -> EventModel {
        match *self {
            Event::Frame(bytes) => EventModel::Frame(bytes@),
            Event::Verdict(verified) => EventModel::Verdict(verified),
            Event::Prepared(Ok((address, port))) => EventModel::Prepared(Ok((address@, port))),
            Event::Prepared(Err(code)) => EventModel::Prepared(Err(code)),
            Event::Disconnected => EventModel::Disconnected,
        }
    }
}

/// What the caller does next.
#[derive(Debug, PartialEq, Eq)]
pub enum Action {
    /// Write these bytes, then read the next frame.
    Reply(Vec<u8>),
    /// Ask the authenticator whether the credentials hold, and hand its
    /// answer back as [`Event::Verdict`].
    Verify(s5client_upw_auth_request),
    /// Ask the executor to prepare the request, and hand its answer back as
    /// [`Event::Prepared`].
    Prepare(s5client_2dest_request),
    /// Write `reply`; the handshake is complete and `request` is what the
    /// relay serves.
    Relay { reply: Vec<u8>, request: s5client_2dest_request },
    /// Write `response`, which tells the client of the failure, then close.
    Reject { response: Vec<u8>, reason: Socks5Error },
    /// Close without writing anything.
    Abort { reason: Socks5Error },
    /// Nothing: the event is none that the session was waiting for.
    Ignore,
}

/// The mathematical value of an [`Action`].
pub enum ActionModel {
    Reply(Seq<u8>),
    Verify(CredentialsModel),
    Prepare(RequestModel),
    Relay { reply: Seq<u8>, request: RequestModel },
    Reject { response: Seq<u8>, reason: Socks5Error },
    Abort { reason: Socks5Error },
    Ignore,
}

impl View for Action {
    type V = ActionModel;

    open spec fn view(&self) -> ActionModel {
        match *self {
            Action::Reply(bytes) => ActionModel::Reply(bytes@),
            Action::Verify(credentials) => ActionModel::Verify(credentials@),
            Action::Prepare(request) => ActionModel::Prepare(request@),
            Action::Relay { reply, request } => ActionModel::Relay {
                reply: reply@,
                request: request@,
            },
            Action::Reject { response, reason } => ActionModel::Reject {
                response: response@,
                reason,
            },
            Action::Abort { reason } => ActionModel::Abort { reason },
            Action::Ignore => ActionModel::Ignore,
        }
    }
}

/// One connection's place in the handshake. It refines [`SessionState`] by
/// what the session is waiting for: a frame from the client or the answer
/// of a collaborator.
#[derive(Debug, PartialEq, Eq)]
pub enum Session {
    /// Waiting for the client's greeting.
    AwaitingGreeting,
    /// Waiting for the client's credentials.
    AwaitingCredentials,
    /// Waiting for the authenticator's answer.
    AwaitingVerdict,
    /// Waiting for the client's request.
    AwaitingRequest,
    /// Waiting for the executor's answer to the request held here.
    AwaitingExecution(s5client_2dest_request),
    /// The handshake succeeded.
    Established,
    /// The handshake failed.
    Closed,
}

/// The mathematical value of a [`Session`].
pub enum SessionModel {
    AwaitingGreeting,
    AwaitingCredentials,
    AwaitingVerdict,
    AwaitingRequest,
    AwaitingExecution(RequestModel),
    Established,
    Closed,
}

impl SessionModel {
    /// The handshake state that the session is in.
    pub open spec fn state(self) -> SessionState {
        match self {
            SessionModel::AwaitingGreeting => SessionState::AwaitingGreeting,
            SessionModel::AwaitingCredentials => SessionState::Authenticating,
            SessionModel::AwaitingVerdict => SessionState::Authenticating,
            SessionModel::AwaitingRequest => SessionState::AwaitingRequest,
            SessionModel::AwaitingExecution(_) => SessionState::AwaitingRequest,
            SessionModel::Established => SessionState::Established,
            SessionModel::Closed => SessionState::Closed,
        }
    }

    /// Whether the handshake is over.
    pub open spec fn is_terminal(self) -> bool {
        self is Established || self is Closed
    }

    /// The frame that the session waits for; `None` while it waits for a
    /// collaborator and when the handshake is over.
    pub open spec fn awaits(self) -> Option<FrameKind> {
        match self {
            SessionModel::AwaitingGreeting => Some(FrameKind::Greeting),
            SessionModel::AwaitingCredentials => Some(FrameKind::Credentials),
            SessionModel::AwaitingRequest => Some(FrameKind::Request),
            _ => None,
        }
    }
}

impl View for Session {
    type V = SessionModel;

    open spec fn view(&self) -> SessionModel {
        match *self {
            Session::AwaitingGreeting => SessionModel::AwaitingGreeting,
            Session::AwaitingCredentials => SessionModel::AwaitingCredentials,
            Session::AwaitingVerdict => SessionModel::AwaitingVerdict,
            Session::AwaitingRequest => SessionModel::AwaitingRequest,
            Session::AwaitingExecution(request) => SessionModel::AwaitingExecution(request@),
            Session::Established => SessionModel::Established,
            Session::Closed => SessionModel::Closed,
        }
    }
}

/// The frame that answers a greeting with `method`.
pub open spec fn greeting_answer(method: u8) -> Seq<u8> {
    s5server_negotiation_resp { method }.wire()
}

/// The frame that answers credentials with `status`.
pub open spec fn verdict_answer(status: u8) -> Seq<u8> {
    s5server_user_pw_negotiation_verification_result { status }.wire()
}

/// The step taken when `buffer` arrives while the greeting is awaited.
///
/// A greeting that does not decode closes the connection without an answer.
/// Otherwise the method is selected from the offered codes. If there is
/// none, the answer is `0xFF` and the connection closes; if it is
/// `NoAuth`, the request comes next; otherwise the credentials do.
pub open spec fn greeting_step(config: ConfigModel, buffer: Seq<u8>) -> (
    SessionModel,
    ActionModel,
) {
    match GreetingModel::decode_spec(buffer) {
        Err(error) => (SessionModel::Closed, ActionModel::Abort { reason: error }),
        Ok((greeting, _)) => match select_spec(config.methods, greeting.methods.to_set()) {
            None => (
                SessionModel::Closed,
                ActionModel::Reject {
                    response: greeting_answer(SERVER_NO_ACCEPTABLE_METHOD),
                    reason: Socks5Error::NoAcceptableMethod,
                },
            ),
            Some(AuthMethod::NoAuth) => (
                SessionModel::AwaitingRequest,
                ActionModel::Reply(greeting_answer(AuthMethod::NoAuth.code())),
            ),
            Some(AuthMethod::UserPassword) => (
                SessionModel::AwaitingCredentials,
                ActionModel::Reply(greeting_answer(AuthMethod::UserPassword.code())),
            ),
        },
    }
}

/// The step taken when `buffer` arrives while credentials are awaited:
/// credentials that decode go to the authenticator, anything else closes
/// the connection without an answer.
pub open spec fn credentials_step(buffer: Seq<u8>) -> (SessionModel, ActionModel) {
    match CredentialsModel::decode_spec(buffer) {
        Err(error) => (SessionModel::Closed, ActionModel::Abort { reason: error }),
        Ok((credentials, _)) => (SessionModel::AwaitingVerdict, ActionModel::Verify(credentials)),
    }
}

/// The step taken when the authenticator has answered.
pub open spec fn verdict_step(verified: bool) -> (SessionModel, ActionModel) {
    if verified {
        (SessionModel::AwaitingRequest, ActionModel::Reply(verdict_answer(AUTH_STATUS_SUCCESS)))
    } else {
        (
            SessionModel::Closed,
            ActionModel::Reject {
                response: verdict_answer(AUTH_STATUS_FAILURE),
                reason: Socks5Error::AuthenticationFailed,
            },
        )
    }
}

/// The step that turns a command down: the reply says so and the connection
/// closes.
pub open spec fn command_refusal() -> (SessionModel, ActionModel) {
    (
        SessionModel::Closed,
        ActionModel::Reject {
            response: ReplyModel::unbound(ReplyCode::CommandNotSupported).wire(),
            reason: Socks5Error::UnsupportedCommand,
        },
    )
}

/// The step taken when `buffer` arrives while the request is awaited.
///
/// A command that is unknown, or that the server's policy excludes, is
/// answered with `CommandNotSupported`. Any other request that does not
/// decode closes the connection without an answer. A request that decodes
/// goes to the executor.
pub open spec fn request_step(config: ConfigModel, buffer: Seq<u8>) -> (SessionModel, ActionModel) {
    match RequestModel::decode_spec(buffer) {
        Err(Socks5Error::UnsupportedCommand) => command_refusal(),
        Err(error) => (SessionModel::Closed, ActionModel::Abort { reason: error }),
        Ok((request, _)) => if config.permits(request.cmd) {
            (SessionModel::AwaitingExecution(request), ActionModel::Prepare(request))
        } else {
            command_refusal()
        },
    }
}

/// The reply that the executor's answer becomes: success with the bound
/// endpoint, or the failure's code with the all-zero endpoint. A bound
/// address that cannot be put on the wire counts as a general failure.
pub open spec fn reply_of(outcome: Result<(AddressModel, u16), ReplyCode>) -> ReplyModel {
    match outcome {
        Ok((address, port)) => if address.wf() {
            ReplyModel { rep: ReplyCode::Succeeded, bnd_addr: address, bnd_port: port }
        } else {
            ReplyModel::unbound(ReplyCode::GeneralFailure)
        },
        Err(code) => ReplyModel::unbound(code),
    }
}

/// The step taken when the executor has answered for `request`: its answer
/// is sent as the reply; the handshake is established if the reply says
/// `Succeeded` and closed if it says anything else.
pub open spec fn execution_step(
    request: RequestModel,
    outcome: Result<(AddressModel, u16), ReplyCode>,
) -> (SessionModel, ActionModel) {
    let reply = reply_of(outcome);
    if reply.rep == ReplyCode::Succeeded {
        (SessionModel::Established, ActionModel::Relay { reply: reply.wire(), request })
    } else {
        (
            SessionModel::Closed,
            ActionModel::Reject {
                response: reply.wire(),
                reason: Socks5Error::ExecutionFailed(reply.rep),
            },
        )
    }
}

/// The session after `event` and the action that the caller owes.
///
/// An event that the session is not waiting for changes nothing; in
/// particular no event changes a session that is established or closed. A
/// disconnect closes every session that is still in its handshake.
pub open spec fn step_spec(session: SessionModel, config: ConfigModel, event: EventModel) -> (
    SessionModel,
    ActionModel,
) {
    match (session, event) {
        (SessionModel::Established, _) => (session, ActionModel::Ignore),
        (SessionModel::Closed, _) => (session, ActionModel::Ignore),
        (_, EventModel::Disconnected) => (
            SessionModel::Closed,
            ActionModel::Abort { reason: Socks5Error::TruncatedFrame },
        ),
        (SessionModel::AwaitingGreeting, EventModel::Frame(buffer)) => greeting_step(
            config,
            buffer,
        ),
        (SessionModel::AwaitingCredentials, EventModel::Frame(buffer)) => credentials_step(buffer),
        (SessionModel::AwaitingVerdict, EventModel::Verdict(verified)) => verdict_step(verified),
        (SessionModel::AwaitingRequest, EventModel::Frame(buffer)) => request_step(config, buffer),
        (SessionModel::AwaitingExecution(request), EventModel::Prepared(outcome)) => execution_step(
            request,
            outcome,
        ),
        _ => (session, ActionModel::Ignore),
    }
}

/// Handles the bytes that arrive while the greeting is awaited.
pub fn on_greeting(config: &ServerConfig, buffer: &[u8]) -> (next: (Session, Action))
    ensures
        (next.0@, next.1@) == greeting_step(config@, buffer@),
{
    match s5client_netotiation_request::decode(buffer) {
        Err(error) => (Session::Closed, Action::Abort { reason: error }),
        Ok((greeting, _)) => {
            match select(config.methods.as_slice(), greeting.methods.as_slice()) {
                None => {
                    let response = s5server_negotiation_resp::none_acceptable().to_bytes();
                    let bytes = copy_range(response.as_slice(), 0, 2);
                    assert(bytes@ =~= greeting_answer(SERVER_NO_ACCEPTABLE_METHOD));
                    (
                        Session::Closed,
                        Action::Reject { response: bytes, reason: Socks5Error::NoAcceptableMethod },
                    )
                },
                Some(method) => {
                    let response = s5server_negotiation_resp::new(method).to_bytes();
                    let bytes = copy_range(response.as_slice(), 0, 2);
                    assert(bytes@ =~= greeting_answer(method.code()));
                    match method {
                        AuthMethod::NoAuth => (Session::AwaitingRequest, Action::Reply(bytes)),
                        AuthMethod::UserPassword => (
                            Session::AwaitingCredentials,
                            Action::Reply(bytes),
                        ),
                    }
                },
            }
        },
    }
}

/// Handles the bytes that arrive while credentials are awaited.
pub fn on_credentials(buffer: &[u8]) -> (next: (Session, Action))
    ensures
        (next.0@, next.1@) == credentials_step(buffer@),
{
    match s5client_upw_auth_request::decode(buffer) {
        Err(error) => (Session::Closed, Action::Abort { reason: error }),
        Ok((credentials, _)) => (Session::AwaitingVerdict, Action::Verify(credentials)),
    }
}

/// Handles the authenticator's answer.
pub fn on_verdict(verified: bool) -> (next: (Session, Action))
    ensures
        (next.0@, next.1@) == verdict_step(verified),
{
    let response = s5server_user_pw_negotiation_verification_result::new(verified).to_bytes();
    let bytes = copy_range(response.as_slice(), 0, 2);
    if verified {
        assert(bytes@ =~= verdict_answer(AUTH_STATUS_SUCCESS));
        (Session::AwaitingRequest, Action::Reply(bytes))
    } else {
        assert(bytes@ =~= verdict_answer(AUTH_STATUS_FAILURE));
        (
            Session::Closed,
            Action::Reject { response: bytes, reason: Socks5Error::AuthenticationFailed },
        )
    }
}

/// Turns a command down.
fn refuse_command() -> (next: (Session, Action))
    ensures
        (next.0@, next.1@) == command_refusal(),
{
    let response = s5server_reply::unbound(ReplyCode::CommandNotSupported).encode();
    (Session::Closed, Action::Reject { response, reason: Socks5Error::UnsupportedCommand })
}

/// Handles the bytes that arrive while the request is awaited.
pub fn on_request(config: &ServerConfig, buffer: &[u8]) -> (next: (Session, Action))
    ensures
        (next.0@, next.1@) == request_step(config@, buffer@),
{
    match s5client_2dest_request::decode(buffer) {
        Err(Socks5Error::UnsupportedCommand) => refuse_command(),
        Err(error) => (Session::Closed, Action::Abort { reason: error }),
        Ok((request, _)) => {
            if config.permits(request.cmd) {
                let pending = request.clone();
                (Session::AwaitingExecution(pending), Action::Prepare(request))
            } else {
                refuse_command()
            }
        },
    }
}

/// Handles the executor's answer for `request`.
pub fn on_prepared(
    request: s5client_2dest_request,
    outcome: &Result<(Address, u16), ReplyCode>,
) -> (next: (Session, Action))
    ensures
        (next.0@, next.1@) == execution_step(
            request@,
            match *outcome {
                Ok((address, port)) => Ok((address@, port)),
                Err(code) => Err(code),
            },
        ),
{
    let reply = match outcome {
        Ok((address, port)) => {
            if address.is_valid() {
                s5server_reply {
                    rep: ReplyCode::Succeeded,
                    bnd_addr: address.clone(),
                    bnd_port: *port,
                }
            } else {
                s5server_reply::unbound(ReplyCode::GeneralFailure)
            }
        },
        Err(code) => s5server_reply::unbound(*code),
    };
    let bytes = reply.encode();
    match reply.rep {
        ReplyCode::Succeeded => (Session::Established, Action::Relay { reply: bytes, request }),
        _ => (
            Session::Closed,
            Action::Reject { response: bytes, reason: Socks5Error::ExecutionFailed(reply.rep) },
        ),
    }
}

impl Session {
    /// A session for a connection that was just accepted.
    pub fn new() -> (session: Session)
        ensures
            session@ is AwaitingGreeting,
    {
        Session::AwaitingGreeting
    }

    /// The handshake state that the session is in.
    pub fn state(&self) -> (state: SessionState)
        ensures
            state == self@.state(),
    {
        match self {
            Session::AwaitingGreeting => SessionState::AwaitingGreeting,
            Session::AwaitingCredentials => SessionState::Authenticating,
            Session::AwaitingVerdict => SessionState::Authenticating,
            Session::AwaitingRequest => SessionState::AwaitingRequest,
            Session::AwaitingExecution(_) => SessionState::AwaitingRequest,
            Session::Established => SessionState::Established,
            Session::Closed => SessionState::Closed,
        }
    }

    /// Whether the handshake is over.
    pub fn is_terminal(&self) -> (terminal: bool)
        ensures
            terminal == self@.is_terminal(),
    {
        match self {
            Session::Established => true,
            Session::Closed => true,
            _ => false,
        }
    }

    /// The frame that the session waits for; `None` while it waits for a
    /// collaborator and when the handshake is over.
    pub fn awaits(&self) -> (kind: Option<FrameKind>)
        ensures
            kind == self@.awaits(),
    {
        match self {
            Session::AwaitingGreeting => Some(FrameKind::Greeting),
            Session::AwaitingCredentials => Some(FrameKind::Credentials),
            Session::AwaitingRequest => Some(FrameKind::Request),
            _ => None,
        }
    }

    /// Takes the session through one event and says what the caller does
    /// next.
    pub fn step(self, config: &ServerConfig, event: &Event) -> (next: (Session, Action))
        ensures
            (next.0@, next.1@) == step_spec(self@, config@, event@),
    {
        match self {
            Session::Established => (Session::Established, Action::Ignore),
            Session::Closed => (Session::Closed, Action::Ignore),
            Session::AwaitingGreeting => match event {
                Event::Frame(bytes) => on_greeting(config, bytes.as_slice()),
                Event::Disconnected => disconnect(),
                _ => (Session::AwaitingGreeting, Action::Ignore),
            },
            Session::AwaitingCredentials => match event {
                Event::Frame(bytes) => on_credentials(bytes.as_slice()),
                Event::Disconnected => disconnect(),
                _ => (Session::AwaitingCredentials, Action::Ignore),
            },
            Session::AwaitingVerdict => match event {
                Event::Verdict(verified) => on_verdict(*verified),
                Event::Disconnected => disconnect(),
                _ => (Session::AwaitingVerdict, Action::Ignore),
            },
            Session::AwaitingRequest => match event {
                Event::Frame(bytes) => on_request(config, bytes.as_slice()),
                Event::Disconnected => disconnect(),
                _ => (Session::AwaitingRequest, Action::Ignore),
            },
            Session::AwaitingExecution(request) => match event {
                Event::Prepared(outcome) => on_prepared(request, outcome),
                Event::Disconnected => disconnect(),
                _ => (Session::AwaitingExecution(request), Action::Ignore),
            },
        }
    }
}

/// Closes a session whose connection went away.
fn disconnect() -> (next: (Session, Action))
    ensures
        next.0@ is Closed,
        next.1@ == (ActionModel::Abort { reason: Socks5Error::TruncatedFrame }),
{
    (Session::Closed, Action::Abort { reason: Socks5Error::TruncatedFrame })
}

/// Whether the handshake may pass from the state `from` to the state `to`
/// in one step. Every state may stay as it is; `Established` and `Closed`
/// have no other successor.
pub open spec fn may_follow(from: SessionState, to: SessionState) -> bool {
    ||| to == from
    ||| from == SessionState::AwaitingGreeting && to == SessionState::Authenticating
    ||| from == SessionState::AwaitingGreeting && to == SessionState::AwaitingRequest
    ||| from == SessionState::Authenticating && to == SessionState::AwaitingRequest
    ||| from == SessionState::AwaitingRequest && to == SessionState::Established
    ||| from != SessionState::Established && to == SessionState::Closed
}

/// The fault in the frame that a session reads from `buffer`, if it awaits
/// a frame and that frame does not decode.
pub open spec fn frame_fault(session: SessionModel, buffer: Seq<u8>) -> Option<Socks5Error> {
    match session.awaits() {
        Some(kind) => decode_fault(kind, buffer),
        None => None,
    }
}

/// No event changes a session that is established or closed, and none asks
/// the caller for anything there: once closed, nothing more is read.
pub proof fn lemma_terminal_sessions_stay(
    session: SessionModel,
    config: ConfigModel,
    event: EventModel,
)
    requires
        session.is_terminal(),
    ensures
        step_spec(session, config, event) == (session, ActionModel::Ignore),
        session.awaits() is None,
{
}

/// Each step moves along the handshake's transition table, and the action
/// fits the move: the session closes exactly when the caller is told to
/// reject or abort, it becomes established exactly when the caller is told
/// to relay, and an ignored event leaves it as it was.
pub proof fn lemma_step_follows_table(session: SessionModel, config: ConfigModel, event: EventModel)
    ensures
        ({
            let (next, action) = step_spec(session, config, event);
            &&& may_follow(session.state(), next.state())
            &&& (action is Reject || action is Abort) <==> (next is Closed && !(session is Closed))
            &&& action is Relay <==> (next is Established && !(session is Established))
            &&& action is Ignore ==> next == session
            &&& action is Verify ==> next is AwaitingVerdict
            &&& action is Prepare ==> next == SessionModel::AwaitingExecution(action->Prepare_0)
        }),
{
}

/// A frame that does not decode closes the connection, whatever the state.
/// The caller writes nothing, unless the fault is a command that the
/// protocol lets the server turn down in a reply.
pub proof fn lemma_decode_failure_closes(
    session: SessionModel,
    config: ConfigModel,
    buffer: Seq<u8>,
)
    requires
        frame_fault(session, buffer) is Some,
    ensures
        ({
            let (next, action) = step_spec(session, config, EventModel::Frame(buffer));
            let fault = frame_fault(session, buffer)->Some_0;
            &&& next is Closed
            &&& fault != Socks5Error::UnsupportedCommand ==> action == (ActionModel::Abort {
                reason: fault,
            })
            &&& fault == Socks5Error::UnsupportedCommand ==> action == command_refusal().1
        }),
{
}

/// A greeting that offers none of the server's methods is answered with
/// `0xFF`, and the connection closes.
pub proof fn lemma_no_acceptable_method(config: ConfigModel, greeting: GreetingModel, rest: Seq<u8>)
    requires
        greeting.wf(),
        forall|k: int|
            0 <= k < config.methods.len() ==> !greeting.methods.contains(
                #[trigger] config.methods[k].code(),
            ),
    ensures
        step_spec(
            SessionModel::AwaitingGreeting,
            config,
            EventModel::Frame(greeting.wire() + rest),
        ) == (
            SessionModel::Closed,
            ActionModel::Reject {
                response: seq![SOCKS5_VERSION, SERVER_NO_ACCEPTABLE_METHOD],
                reason: Socks5Error::NoAcceptableMethod,
            },
        ),
{
    lemma_greeting_round_trip(greeting, rest);
    lemma_select_first_offered(config.methods, greeting.methods.to_set());
}

/// The method that the server names in its answer to a greeting is one of
/// its own supported methods and one that the client offered.
pub proof fn lemma_answer_names_supported_and_offered(config: ConfigModel, buffer: Seq<u8>)
    requires
        greeting_step(config, buffer).1 is Reply,
    ensures
        ({
            let answer = greeting_step(config, buffer).1->Reply_0;
            let offered = GreetingModel::decode_spec(buffer)->Ok_0.0.methods;
            &&& GreetingModel::decode_spec(buffer) is Ok
            &&& answer.len() == 2
            &&& offered.contains(answer[1])
            &&& exists|i: int|
                0 <= i < config.methods.len() && (#[trigger] config.methods[i]).code() == answer[1]
        }),
{
    let offered = GreetingModel::decode_spec(buffer)->Ok_0.0.methods;
    lemma_select_first_offered(config.methods, offered.to_set());
}

/// Whatever the session tells the caller to write is a frame that the
/// matching decoder reads back in full: the answer to a greeting names the
/// selected method, the answer to credentials reports their acceptance, and
/// the reply reports `Succeeded` exactly when the session is established.
pub proof fn lemma_responses_decode(session: SessionModel, config: ConfigModel, event: EventModel)
    ensures
        ({
            let (next, action) = step_spec(session, config, event);
            let written = match action {
                ActionModel::Reply(bytes) => Some(bytes),
                ActionModel::Relay { reply, .. } => Some(reply),
                ActionModel::Reject { response, .. } => Some(response),
                _ => None,
            };
            written matches Some(bytes) ==> match session {
                SessionModel::AwaitingGreeting => {
                    &&& s5server_negotiation_resp::decode_spec(bytes) matches Ok((answer, taken))
                    &&& taken == bytes.len()
                    &&& answer.method == SERVER_NO_ACCEPTABLE_METHOD <==> next is Closed
                    &&& answer.method == AuthMethod::NoAuth.code() <==> next is AwaitingRequest
                    &&& answer.method == AuthMethod::UserPassword.code()
                        <==> next is AwaitingCredentials
                },
                SessionModel::AwaitingVerdict => {
                    &&& s5server_user_pw_negotiation_verification_result::decode_spec(
                        bytes,
                    ) matches Ok((answer, taken))
                    &&& taken == bytes.len()
                    &&& answer.accepted() <==> next is AwaitingRequest
                },
                _ => {
                    &&& ReplyModel::decode_spec(bytes) matches Ok((reply, taken))
                    &&& taken == bytes.len()
                    &&& reply.rep == ReplyCode::Succeeded <==> next is Established
                },
            }
        }),
{
    let (next, action) = step_spec(session, config, event);
    match session {
        SessionModel::AwaitingGreeting => {
            match action {
                ActionModel::Reply(bytes) => {
                    lemma_negotiation_resp_round_trip(
                        s5server_negotiation_resp { method: bytes[1] },
                        Seq::empty(),
                    );
                    assert(bytes + Seq::<u8>::empty() =~= bytes);
                },
                ActionModel::Reject { response, .. } => {
                    lemma_negotiation_resp_round_trip(
                        s5server_negotiation_resp { method: response[1] },
                        Seq::empty(),
                    );
                    assert(response + Seq::<u8>::empty() =~= response);
                },
                _ => {},
            }
        },
        SessionModel::AwaitingVerdict => {
            match action {
                ActionModel::Reply(bytes) => {
                    lemma_verification_result_round_trip(
                        s5server_user_pw_negotiation_verification_result { status: bytes[1] },
                        Seq::empty(),
                    );
                    assert(bytes + Seq::<u8>::empty() =~= bytes);
                },
                ActionModel::Reject { response, .. } => {
                    lemma_verification_result_round_trip(
                        s5server_user_pw_negotiation_verification_result { status: response[1] },
                        Seq::empty(),
                    );
                    assert(response + Seq::<u8>::empty() =~= response);
                },
                _ => {},
            }
        },
        SessionModel::AwaitingRequest => {
            match action {
                ActionModel::Reject { response, .. } => {
                    let reply = ReplyModel::unbound(ReplyCode::CommandNotSupported);
                    lemma_reply_round_trip(reply, Seq::empty());
                    assert(response + Seq::<u8>::empty() =~= response);
                },
                _ => {},
            }
        },
        SessionModel::AwaitingExecution(request) => {
            match event {
                EventModel::Prepared(outcome) => {
                    let reply = reply_of(outcome);
                    lemma_reply_round_trip(reply, Seq::empty());
                    assert(reply.wire() + Seq::<u8>::empty() =~= reply.wire());
                },
                _ => {},
            }
        },
        _ => {},
    }
}

} // verus!
