//! The LG webOS SSAP protocol over a WebSocket, as two sessions.
//!
//! Turning off: connect, send a `register` request carrying the stored
//! client key, wait for `registered`, send `ssap://system/turnOff`, wait
//! briefly for its acknowledgement, close.
//!
//! Pairing: connect, send a `register` request without a key (the TV shows
//! an Allow/Deny prompt), wait for `registered` with the granted key, close.
//!
//! Each session is a state machine: the caller performs the action it is
//! given (connect, send, read a reply within a deadline, close) and hands the
//! outcome back as the next event.

use vstd::prelude::*;
use crate::text::same_text;

verus! {

/// A reply from the TV, as far as the protocol reads it.
#[derive(Debug, Clone)]
pub struct SsapResponse {
    /// The `type` field: `registered`, `error`, `response`, `hello`, ...
    pub msg_type: String,
    /// The `id` field, when present.
    pub id: Option<String>,
    /// The `returnValue` field, when present.
    pub return_value: Option<bool>,
    /// The payload's `client-key` field, when it is a string.
    pub client_key: Option<String>,
    /// The payload as JSON text, when present.
    pub payload: Option<String>,
}

/// What reading the next WebSocket message gave.
#[derive(Debug, Clone)]
pub enum Incoming {
    /// A text message: its SSAP reply, or `None` when it is not one.
    Text(Option<SsapResponse>),
    /// A message that is not text (binary, ping, pong, close frame).
    Other,
    /// The WebSocket failed; the message says how.
    Failed(String),
    /// The stream ended.
    Closed,
}

/// Why a session failed.
#[derive(Debug, Clone, PartialEq, Eq)]
pub enum SsapError {
    /// The connection or the WebSocket handshake failed.
    ConnectFailed(String),
    /// A request could not be sent.
    SendFailed(String),
    /// A text reply was not a valid SSAP message.
    MalformedResponse,
    /// The TV answered `error`; its payload as JSON text.
    Rejected(Option<String>),
    /// The TV answered `registered` without a client key.
    MissingClientKey,
    /// The WebSocket failed while waiting.
    Transport(String),
    /// The WebSocket closed while waiting.
    ClosedEarly,
    /// No answer came in time.
    TimedOut,
}

/// The registration manifest, with the client key when one is held.
#[derive(Debug, Clone, PartialEq, Eq)]
pub struct RegisterPayload {
    pub client_key: Option<String>,
}

/// An SSAP request: `{"type": .., "id": .., "uri": .., "payload": ..}`.
#[derive(Debug, Clone)]
pub struct SsapRequest {
    pub msg_type: String,
    pub id: String,
    pub uri: Option<String>,
    pub payload: Option<RegisterPayload>,
}

/// The `register` request: type `register`, id `register_0`, the manifest
/// and `client_key` as payload.
pub open spec fn is_register_request(r: SsapRequest, client_key: Option<String>) -> bool {
    &&& r.msg_type@ == "register"@
    &&& r.id@ == "register_0"@
    &&& r.uri is None
    &&& r.payload == Some(RegisterPayload { client_key })
}

/// The turn-off request: type `request`, id `cmd_id`, uri
/// `ssap://system/turnOff`, no payload.
pub open spec fn is_turn_off_request(r: SsapRequest, cmd_id: Seq<char>) -> bool {
    &&& r.msg_type@ == "request"@
    &&& r.id@ == cmd_id
    &&& r.uri matches Some(u) && u@ == "ssap://system/turnOff"@
    &&& r.payload is None
}

/// The register request, with `client_key` when one is held.
pub fn register_request(client_key: Option<String>) -> (r: SsapRequest)
    ensures
        is_register_request(r, client_key),
{
    SsapRequest {
        msg_type: "register".to_owned(),
        id: "register_0".to_owned(),
        uri: None,
        payload: Some(RegisterPayload { client_key }),
    }
}

/// The turn-off request with id `cmd_id`.
pub fn turn_off_request(cmd_id: String) -> (r: SsapRequest)
    ensures
        is_turn_off_request(r, cmd_id@),
{
    SsapRequest {
        msg_type: "request".to_owned(),
        id: cmd_id,
        uri: Some("ssap://system/turnOff".to_owned()),
        payload: None,
    }
}

/// A lowercase hexadecimal digit.
pub open spec fn is_lower_hex(c: char) -> bool {
    ('0' <= c <= '9') || ('a' <= c <= 'f')
}

/// A random (version 4) UUID in its hyphenated lowercase text form,
/// `xxxxxxxx-xxxx-4xxx-yxxx-xxxxxxxxxxxx` with `y` one of `8 9 a b`.
pub open spec fn is_uuid_v4_text(s: Seq<char>) -> bool {
    &&& s.len() == 36
    &&& forall|i: int|
        0 <= i < 36 ==> if i == 8 || i == 13 || i == 18 || i == 23 {
            #[trigger] s[i] == '-'
        } else {
            is_lower_hex(s[i])
        }
    &&& s[14] == '4'
    &&& (s[19] == '8' || s[19] == '9' || s[19] == 'a' || s[19] == 'b')
}

/// `uuid::Uuid::new_v4().to_string()`. Claimed, from uuid 1.29's source: a
/// fresh random version-4 UUID in hyphenated lowercase form. Which one is
/// left open; uuid panics when the operating system gives no random bytes.
#[verifier::external_body]
fn new_uuid_v4() -> (r: String)
    ensures
        is_uuid_v4_text(r@),
{
    uuid::Uuid::new_v4().to_string()
}

/// A turn-off request with a fresh random id.
pub fn fresh_turn_off_request() -> (r: SsapRequest)
    ensures
        is_uuid_v4_text(r.id@),
        is_turn_off_request(r, r.id@),
{
    turn_off_request(new_uuid_v4())
}

/// How a `register` request stands after a reply.
#[derive(Debug, Clone)]
pub enum RegisterStep {
    /// Not decided yet ("hello", prompts, non-text messages): read on.
    KeepWaiting,
    /// The TV answered `registered`, with the client key if it sent one.
    Registered(Option<String>),
    /// The registration failed.
    Failed(SsapError),
}

/// The rule for replies to a `register` request.
pub open spec fn register_reply(msg: Incoming) -> RegisterStep {
    match msg {
        Incoming::Text(Some(resp)) => if resp.msg_type@ == "registered"@ {
            RegisterStep::Registered(resp.client_key)
        } else if resp.msg_type@ == "error"@ {
            RegisterStep::Failed(SsapError::Rejected(resp.payload))
        } else {
            RegisterStep::KeepWaiting
        },
        Incoming::Text(None) => RegisterStep::Failed(SsapError::MalformedResponse),
        Incoming::Other => RegisterStep::KeepWaiting,
        Incoming::Failed(e) => RegisterStep::Failed(SsapError::Transport(e)),
        Incoming::Closed => RegisterStep::Failed(SsapError::ClosedEarly),
    }
}

/// Decides what a reply to a `register` request means.
pub fn on_register_reply(msg: Incoming) -> (r: RegisterStep)
    ensures
        r == register_reply(msg),
{
    match msg {
        Incoming::Text(Some(resp)) => {
            if same_text(resp.msg_type.as_str(), "registered") {
                RegisterStep::Registered(resp.client_key)
            } else if same_text(resp.msg_type.as_str(), "error") {
                RegisterStep::Failed(SsapError::Rejected(resp.payload))
            } else {
                RegisterStep::KeepWaiting
            }
        },
        Incoming::Text(None) => RegisterStep::Failed(SsapError::MalformedResponse),
        Incoming::Other => RegisterStep::KeepWaiting,
        Incoming::Failed(e) => RegisterStep::Failed(SsapError::Transport(e)),
        Incoming::Closed => RegisterStep::Failed(SsapError::ClosedEarly),
    }
}

/// How the wait for the turn-off acknowledgement stands after a reply.
#[derive(Debug, Clone, Copy, PartialEq, Eq)]
pub enum AckStep {
    /// Not the acknowledgement: read on.
    KeepWaiting,
    /// The TV acknowledged the command; `accepted` is false when it
    /// answered `returnValue: false`.
    Acknowledged { accepted: bool },
    /// Stop waiting (the TV may close the socket as it powers off).
    StopWaiting,
}

/// The rule for replies while waiting for the acknowledgement of `cmd_id`.
pub open spec fn command_reply(msg: Incoming, cmd_id: Seq<char>) -> AckStep {
    match msg {
        Incoming::Text(Some(resp)) => if resp.id matches Some(id) && id@ == cmd_id {
            AckStep::Acknowledged { accepted: resp.return_value != Some(false) }
        } else {
            AckStep::KeepWaiting
        },
        Incoming::Text(None) => AckStep::KeepWaiting,
        _ => AckStep::StopWaiting,
    }
}

/// Decides what a reply means while waiting for the acknowledgement of `cmd_id`.
pub fn on_command_reply(msg: &Incoming, cmd_id: &str) -> (r: AckStep)
    ensures
        r == command_reply(*msg, cmd_id@),
{
    match msg {
        Incoming::Text(Some(resp)) => {
            match &resp.id {
                Some(id) => {
                    if same_text(id.as_str(), cmd_id) {
                        let refused = match resp.return_value {
                            Some(v) => !v,
                            None => false,
                        };
                        AckStep::Acknowledged { accepted: !refused }
                    } else {
                        AckStep::KeepWaiting
                    }
                },
                None => AckStep::KeepWaiting,
            }
        },
        Incoming::Text(None) => AckStep::KeepWaiting,
        _ => AckStep::StopWaiting,
    }
}

/// How a pairing request stands after a reply.
#[derive(Debug, Clone)]
pub enum PairStep {
    /// Not decided yet (prompts, non-text messages): read on.
    KeepWaiting,
    /// The user accepted; the client key the TV granted.
    Paired(String),
    /// Pairing failed.
    Failed(SsapError),
}

/// The rule for replies to a pairing request.
pub open spec fn pairing_reply(msg: Incoming) -> PairStep {
    match msg {
        Incoming::Text(Some(resp)) => if resp.msg_type@ == "registered"@ {
            match resp.client_key {
                Some(k) => PairStep::Paired(k),
                None => PairStep::Failed(SsapError::MissingClientKey),
            }
        } else if resp.msg_type@ == "error"@ {
            PairStep::Failed(SsapError::Rejected(resp.payload))
        } else {
            PairStep::KeepWaiting
        },
        Incoming::Text(None) => PairStep::Failed(SsapError::MalformedResponse),
        Incoming::Other => PairStep::KeepWaiting,
        Incoming::Failed(e) => PairStep::Failed(SsapError::Transport(e)),
        Incoming::Closed => PairStep::Failed(SsapError::ClosedEarly),
    }
}

/// Decides what a reply to a pairing request means.
pub fn on_pairing_reply(msg: Incoming) -> (r: PairStep)
    ensures
        r == pairing_reply(msg),
{
    match msg {
        Incoming::Text(Some(resp)) => {
            if same_text(resp.msg_type.as_str(), "registered") {
                match resp.client_key {
                    Some(k) => PairStep::Paired(k),
                    None => PairStep::Failed(SsapError::MissingClientKey),
                }
            } else if same_text(resp.msg_type.as_str(), "error") {
                PairStep::Failed(SsapError::Rejected(resp.payload))
            } else {
                PairStep::KeepWaiting
            }
        },
        Incoming::Text(None) => PairStep::Failed(SsapError::MalformedResponse),
        Incoming::Other => PairStep::KeepWaiting,
        Incoming::Failed(e) => PairStep::Failed(SsapError::Transport(e)),
        Incoming::Closed => PairStep::Failed(SsapError::ClosedEarly),
    }
}

/// What happened to the last action.
#[derive(Debug, Clone)]
pub enum SessionEvent {
    /// The WebSocket connection is open.
    Connected,
    /// Connecting failed; the message says how.
    ConnectFailed(String),
    /// The request was sent.
    Sent,
    /// Sending failed; the message says how.
    SendFailed(String),
    /// A message was read.
    Reply(Incoming),
    /// The current wait's deadline passed.
    WaitExpired,
    /// The connection was closed (whether or not cleanly).
    Closed,
}

/// What the session asks its caller to do next.
#[derive(Debug)]
pub enum SessionAction<T> {
    /// Open the WebSocket at `url`, giving up after `timeout_secs`.
    Connect { url: String, timeout_secs: u64 },
    /// Send this request as a text message.
    Send(SsapRequest),
    /// Read the next message. `Some(s)` starts a new wait of `s` seconds;
    /// `None` goes on with the current one.
    ReadReply { restart_wait_secs: Option<u64> },
    /// Close the connection; for a turn-off, whether the command was
    /// acknowledged (`Some(false)`: answered `returnValue: false`).
    Close { acknowledged: Option<bool> },
    /// The session is over, with this result.
    Finish(Result<T, SsapError>),
}

/// `wss://IP:3001`, the TV's secure SSAP endpoint.
pub open spec fn endpoint_url(ip: Seq<char>) -> Seq<char> {
    "wss://"@ + ip + ":3001"@
}

/// The TV's secure SSAP endpoint for address `ip`.
pub fn endpoint(ip: &str) -> (r: String)
    ensures
        r@ == endpoint_url(ip@),
{
    let mut url = "wss://".to_owned();
    url.append(ip);
    url.append(":3001");
    url
}

/// Where a turn-off session is.
#[derive(Debug)]
pub enum TurnOffStage {
    NotStarted,
    Connecting,
    /// Sending the `register` request.
    Registering,
    AwaitingRegistered,
    /// Sending the turn-off request with this id.
    Commanding { cmd_id: String },
    AwaitingAck { cmd_id: String },
    Closing,
    Finished,
}

/// A session that turns the TV off with a stored client key.
#[derive(Debug)]
pub struct TurnOffSession {
    pub stage: TurnOffStage,
    pub ip: String,
    pub client_key: String,
    pub connect_secs: u64,
    pub ack_secs: u64,
}

/// The events that a turn-off session waits for in each stage.
pub open spec fn turn_off_expects(stage: TurnOffStage, e: SessionEvent) -> bool {
    match stage {
        TurnOffStage::Connecting => e is Connected || e is ConnectFailed,
        TurnOffStage::Registering => e is Sent || e is SendFailed,
        TurnOffStage::AwaitingRegistered => e is Reply || e is WaitExpired,
        TurnOffStage::Commanding { .. } => e is Sent || e is SendFailed,
        TurnOffStage::AwaitingAck { .. } => e is Reply || e is WaitExpired,
        TurnOffStage::Closing => e is Closed,
        _ => false,
    }
}

/// One step of a turn-off session: from `pre`, on event `e`, to `post`,
/// asking for action `a`.
pub open spec fn turn_off_step(
    pre: TurnOffSession,
    e: SessionEvent,
    post: TurnOffSession,
    a: SessionAction<()>,
) -> bool {
    &&& post.ip == pre.ip
    &&& post.client_key == pre.client_key
    &&& post.connect_secs == pre.connect_secs
    &&& post.ack_secs == pre.ack_secs
    &&& match pre.stage {
        TurnOffStage::Connecting => match e {
            SessionEvent::Connected => {
                &&& post.stage is Registering
                &&& a matches SessionAction::Send(req) && is_register_request(req, Some(pre.client_key))
            },
            SessionEvent::ConnectFailed(m) => {
                &&& post.stage is Finished
                &&& a == SessionAction::<()>::Finish(Err(SsapError::ConnectFailed(m)))
            },
            _ => false,
        },
        TurnOffStage::Registering => match e {
            SessionEvent::Sent => {
                &&& post.stage is AwaitingRegistered
                &&& a == SessionAction::<()>::ReadReply { restart_wait_secs: Some(pre.ack_secs) }
            },
            SessionEvent::SendFailed(m) => {
                &&& post.stage is Finished
                &&& a == SessionAction::<()>::Finish(Err(SsapError::SendFailed(m)))
            },
            _ => false,
        },
        TurnOffStage::AwaitingRegistered => match e {
            SessionEvent::Reply(m) => match register_reply(m) {
                RegisterStep::KeepWaiting => {
                    &&& post.stage is AwaitingRegistered
                    &&& a == SessionAction::<()>::ReadReply { restart_wait_secs: None }
                },
                RegisterStep::Registered(_) => {
                    &&& post.stage matches TurnOffStage::Commanding { cmd_id } && is_uuid_v4_text(cmd_id@)
                    &&& a matches SessionAction::Send(req) && is_turn_off_request(req, post.stage->Commanding_cmd_id@)
                },
                RegisterStep::Failed(err) => {
                    &&& post.stage is Finished
                    &&& a == SessionAction::<()>::Finish(Err(err))
                },
            },
            SessionEvent::WaitExpired => {
                &&& post.stage is Finished
                &&& a == SessionAction::<()>::Finish(Err(SsapError::TimedOut))
            },
            _ => false,
        },
        TurnOffStage::Commanding { cmd_id } => match e {
            SessionEvent::Sent => {
                &&& post.stage == TurnOffStage::AwaitingAck { cmd_id }
                &&& a == SessionAction::<()>::ReadReply { restart_wait_secs: Some(pre.ack_secs) }
            },
            SessionEvent::SendFailed(m) => {
                &&& post.stage is Finished
                &&& a == SessionAction::<()>::Finish(Err(SsapError::SendFailed(m)))
            },
            _ => false,
        },
        TurnOffStage::AwaitingAck { cmd_id } => match e {
            SessionEvent::Reply(m) => match command_reply(m, cmd_id@) {
                AckStep::KeepWaiting => {
                    &&& post.stage == TurnOffStage::AwaitingAck { cmd_id }
                    &&& a == SessionAction::<()>::ReadReply { restart_wait_secs: None }
                },
                AckStep::Acknowledged { accepted } => {
                    &&& post.stage is Closing
                    &&& a == SessionAction::<()>::Close { acknowledged: Some(accepted) }
                },
                AckStep::StopWaiting => {
                    &&& post.stage is Closing
                    &&& a == SessionAction::<()>::Close { acknowledged: None }
                },
            },
            SessionEvent::WaitExpired => {
                &&& post.stage is Closing
                &&& a == SessionAction::<()>::Close { acknowledged: None }
            },
            _ => false,
        },
        TurnOffStage::Closing => {
            &&& e is Closed
            &&& post.stage is Finished
            &&& a == SessionAction::<()>::Finish(Ok(()))
        },
        _ => false,
    }
}

impl TurnOffSession {
    /// A session that will turn off the TV at `ip` using `client_key`.
    pub fn new(ip: String, client_key: String, connect_secs: u64, ack_secs: u64) -> (s: Self)
        ensures
            s.stage is NotStarted,
            s.ip == ip,
            s.client_key == client_key,
            s.connect_secs == connect_secs,
            s.ack_secs == ack_secs,
    {
        TurnOffSession { stage: TurnOffStage::NotStarted, ip, client_key, connect_secs, ack_secs }
    }

    /// Begins the session: connect to the TV.
    pub fn start(&mut self) -> (a: SessionAction<()>)
        requires
            old(self).stage is NotStarted,
        ensures
            final(self).stage is Connecting,
            final(self).ip == old(self).ip,
            final(self).client_key == old(self).client_key,
            final(self).connect_secs == old(self).connect_secs,
            final(self).ack_secs == old(self).ack_secs,
            a matches SessionAction::Connect { url, timeout_secs } && url@ == endpoint_url(
                old(self).ip@,
            ) && timeout_secs == old(self).connect_secs,
    {
        self.stage = TurnOffStage::Connecting;
        SessionAction::Connect { url: endpoint(self.ip.as_str()), timeout_secs: self.connect_secs }
    }

    /// Whether the session is over.
    pub fn is_finished(&self) -> (r: bool)
        ensures
            r == self.stage is Finished,
    {
        match self.stage {
            TurnOffStage::Finished => true,
            _ => false,
        }
    }

    /// Advances the session on the outcome of its last action.
    pub fn step(&mut self, event: SessionEvent) -> (a: SessionAction<()>)
        requires
            turn_off_expects(old(self).stage, event),
        ensures
            turn_off_step(*old(self), event, *final(self), a),
    {
        let (next, a) = self.next(event);
        self.stage = next;
        a
    }

    fn next(&self, event: SessionEvent) -> (r: (TurnOffStage, SessionAction<()>))
        requires
            turn_off_expects(self.stage, event),
        ensures
            turn_off_step(
                *self,
                event,
                TurnOffSession {
                    stage: r.0,
                    ip: self.ip,
                    client_key: self.client_key,
                    connect_secs: self.connect_secs,
                    ack_secs: self.ack_secs,
                },
                r.1,
            ),
    {
        match &self.stage {
            TurnOffStage::Connecting => match event {
                SessionEvent::Connected => (
                    TurnOffStage::Registering,
                    SessionAction::Send(register_request(Some(self.client_key.clone()))),
                ),
                SessionEvent::ConnectFailed(m) => (
                    TurnOffStage::Finished,
                    SessionAction::Finish(Err(SsapError::ConnectFailed(m))),
                ),
                _ => (TurnOffStage::Finished, SessionAction::Finish(Err(SsapError::ClosedEarly))),
            },
            TurnOffStage::Registering => match event {
                SessionEvent::Sent => (
                    TurnOffStage::AwaitingRegistered,
                    SessionAction::ReadReply { restart_wait_secs: Some(self.ack_secs) },
                ),
                SessionEvent::SendFailed(m) => (
                    TurnOffStage::Finished,
                    SessionAction::Finish(Err(SsapError::SendFailed(m))),
                ),
                _ => (TurnOffStage::Finished, SessionAction::Finish(Err(SsapError::ClosedEarly))),
            },
            TurnOffStage::AwaitingRegistered => match event {
                SessionEvent::Reply(m) => match on_register_reply(m) {
                    RegisterStep::KeepWaiting => (
                        TurnOffStage::AwaitingRegistered,
                        SessionAction::ReadReply { restart_wait_secs: None },
                    ),
                    RegisterStep::Registered(_) => {
                        let req = fresh_turn_off_request();
                        let cmd_id = req.id.clone();
                        (TurnOffStage::Commanding { cmd_id }, SessionAction::Send(req))
                    },
                    RegisterStep::Failed(err) => (
                        TurnOffStage::Finished,
                        SessionAction::Finish(Err(err)),
                    ),
                },
                SessionEvent::WaitExpired => (
                    TurnOffStage::Finished,
                    SessionAction::Finish(Err(SsapError::TimedOut)),
                ),
                _ => (TurnOffStage::Finished, SessionAction::Finish(Err(SsapError::ClosedEarly))),
            },
            TurnOffStage::Commanding { cmd_id } => match event {
                SessionEvent::Sent => (
                    TurnOffStage::AwaitingAck { cmd_id: cmd_id.clone() },
                    SessionAction::ReadReply { restart_wait_secs: Some(self.ack_secs) },
                ),
                SessionEvent::SendFailed(m) => (
                    TurnOffStage::Finished,
                    SessionAction::Finish(Err(SsapError::SendFailed(m))),
                ),
                _ => (TurnOffStage::Finished, SessionAction::Finish(Err(SsapError::ClosedEarly))),
            },
            TurnOffStage::AwaitingAck { cmd_id } => match event {
                SessionEvent::Reply(m) => match on_command_reply(&m, cmd_id.as_str()) {
                    AckStep::KeepWaiting => (
                        TurnOffStage::AwaitingAck { cmd_id: cmd_id.clone() },
                        SessionAction::ReadReply { restart_wait_secs: None },
                    ),
                    AckStep::Acknowledged { accepted } => (
                        TurnOffStage::Closing,
                        SessionAction::Close { acknowledged: Some(accepted) },
                    ),
                    AckStep::StopWaiting => (
                        TurnOffStage::Closing,
                        SessionAction::Close { acknowledged: None },
                    ),
                },
                _ => (TurnOffStage::Closing, SessionAction::Close { acknowledged: None }),
            },
            TurnOffStage::Closing => (TurnOffStage::Finished, SessionAction::Finish(Ok(()))),
            _ => (TurnOffStage::Finished, SessionAction::Finish(Err(SsapError::ClosedEarly))),
        }
    }
}

/// Seconds a pairing session waits for the connection.
pub const PAIR_CONNECT_SECS: u64 = 10;

/// Where a pairing session is.
#[derive(Debug)]
pub enum PairStage {
    NotStarted,
    Connecting,
    /// Sending the key-less `register` request.
    Registering,
    /// Waiting for the user to accept the prompt on the TV.
    AwaitingAcceptance,
    /// Closing, with the key the TV granted.
    Closing { client_key: String },
    Finished,
}

/// A session that pairs with the TV and obtains a client key.
#[derive(Debug)]
pub struct PairSession {
    pub stage: PairStage,
    pub ip: String,
    pub pair_timeout_secs: u64,
}

/// The events that a pairing session waits for in each stage.
pub open spec fn pair_expects(stage: PairStage, e: SessionEvent) -> bool {
    match stage {
        PairStage::Connecting => e is Connected || e is ConnectFailed,
        PairStage::Registering => e is Sent || e is SendFailed,
        PairStage::AwaitingAcceptance => e is Reply || e is WaitExpired,
        PairStage::Closing { .. } => e is Closed,
        _ => false,
    }
}

/// One step of a pairing session: from `pre`, on event `e`, to `post`,
/// asking for action `a`.
pub open spec fn pair_step(
    pre: PairSession,
    e: SessionEvent,
    post: PairSession,
    a: SessionAction<String>,
) -> bool {
    &&& post.ip == pre.ip
    &&& post.pair_timeout_secs == pre.pair_timeout_secs
    &&& match pre.stage {
        PairStage::Connecting => match e {
            SessionEvent::Connected => {
                &&& post.stage is Registering
                &&& a matches SessionAction::Send(req) && is_register_request(req, None)
            },
            SessionEvent::ConnectFailed(m) => {
                &&& post.stage is Finished
                &&& a == SessionAction::<String>::Finish(Err(SsapError::ConnectFailed(m)))
            },
            _ => false,
        },
        PairStage::Registering => match e {
            SessionEvent::Sent => {
                &&& post.stage is AwaitingAcceptance
                &&& a == SessionAction::<String>::ReadReply {
                    restart_wait_secs: Some(pre.pair_timeout_secs),
                }
            },
            SessionEvent::SendFailed(m) => {
                &&& post.stage is Finished
                &&& a == SessionAction::<String>::Finish(Err(SsapError::SendFailed(m)))
            },
            _ => false,
        },
        PairStage::AwaitingAcceptance => match e {
            SessionEvent::Reply(m) => match pairing_reply(m) {
                PairStep::KeepWaiting => {
                    &&& post.stage is AwaitingAcceptance
                    &&& a == SessionAction::<String>::ReadReply { restart_wait_secs: None }
                },
                PairStep::Paired(k) => {
                    &&& post.stage == PairStage::Closing { client_key: k }
                    &&& a == SessionAction::<String>::Close { acknowledged: None }
                },
                PairStep::Failed(err) => {
                    &&& post.stage is Finished
                    &&& a == SessionAction::<String>::Finish(Err(err))
                },
            },
            SessionEvent::WaitExpired => {
                &&& post.stage is Finished
                &&& a == SessionAction::<String>::Finish(Err(SsapError::TimedOut))
            },
            _ => false,
        },
        PairStage::Closing { client_key } => {
            &&& e is Closed
            &&& post.stage is Finished
            &&& a == SessionAction::<String>::Finish(Ok(client_key))
        },
        _ => false,
    }
}

impl PairSession {
    /// A session that will pair with the TV at `ip`, waiting up to
    /// `pair_timeout_secs` for the user to accept.
    pub fn new(ip: String, pair_timeout_secs: u64) -> (s: Self)
        ensures
            s.stage is NotStarted,
            s.ip == ip,
            s.pair_timeout_secs == pair_timeout_secs,
    {
        PairSession { stage: PairStage::NotStarted, ip, pair_timeout_secs }
    }

    /// Begins the session: connect to the TV.
    pub fn start(&mut self) -> (a: SessionAction<String>)
        requires
            old(self).stage is NotStarted,
        ensures
            final(self).stage is Connecting,
            final(self).ip == old(self).ip,
            final(self).pair_timeout_secs == old(self).pair_timeout_secs,
            a matches SessionAction::Connect { url, timeout_secs } && url@ == endpoint_url(
                old(self).ip@,
            ) && timeout_secs == PAIR_CONNECT_SECS,
    {
        self.stage = PairStage::Connecting;
        SessionAction::Connect { url: endpoint(self.ip.as_str()), timeout_secs: PAIR_CONNECT_SECS }
    }

    /// Whether the session is over.
    pub fn is_finished(&self) -> (r: bool)
        ensures
            r == self.stage is Finished,
    {
        match self.stage {
            PairStage::Finished => true,
            _ => false,
        }
    }

    /// Advances the session on the outcome of its last action.
    pub fn step(&mut self, event: SessionEvent) -> (a: SessionAction<String>)
        requires
            pair_expects(old(self).stage, event),
        ensures
            pair_step(*old(self), event, *final(self), a),
    {
        let (next, a) = self.next(event);
        self.stage = next;
        a
    }

    fn next(&self, event: SessionEvent) -> (r: (PairStage, SessionAction<String>))
        requires
            pair_expects(self.stage, event),
        ensures
            pair_step(
                *self,
                event,
                PairSession { stage: r.0, ip: self.ip, pair_timeout_secs: self.pair_timeout_secs },
                r.1,
            ),
    {
        match &self.stage {
            PairStage::Connecting => match event {
                SessionEvent::Connected => (
                    PairStage::Registering,
                    SessionAction::Send(register_request(None)),
                ),
                SessionEvent::ConnectFailed(m) => (
                    PairStage::Finished,
                    SessionAction::Finish(Err(SsapError::ConnectFailed(m))),
                ),
                _ => (PairStage::Finished, SessionAction::Finish(Err(SsapError::ClosedEarly))),
            },
            PairStage::Registering => match event {
                SessionEvent::Sent => (
                    PairStage::AwaitingAcceptance,
                    SessionAction::ReadReply { restart_wait_secs: Some(self.pair_timeout_secs) },
                ),
                SessionEvent::SendFailed(m) => (
                    PairStage::Finished,
                    SessionAction::Finish(Err(SsapError::SendFailed(m))),
                ),
                _ => (PairStage::Finished, SessionAction::Finish(Err(SsapError::ClosedEarly))),
            },
            PairStage::AwaitingAcceptance => match event {
                SessionEvent::Reply(m) => match on_pairing_reply(m) {
                    PairStep::KeepWaiting => (
                        PairStage::AwaitingAcceptance,
                        SessionAction::ReadReply { restart_wait_secs: None },
                    ),
                    PairStep::Paired(k) => (
                        PairStage::Closing { client_key: k },
                        SessionAction::Close { acknowledged: None },
                    ),
                    PairStep::Failed(err) => (PairStage::Finished, SessionAction::Finish(Err(err))),
                },
                SessionEvent::WaitExpired => (
                    PairStage::Finished,
                    SessionAction::Finish(Err(SsapError::TimedOut)),
                ),
                _ => (PairStage::Finished, SessionAction::Finish(Err(SsapError::ClosedEarly))),
            },
            PairStage::Closing { client_key } => (
                PairStage::Finished,
                SessionAction::Finish(Ok(client_key.clone())),
            ),
            _ => (PairStage::Finished, SessionAction::Finish(Err(SsapError::ClosedEarly))),
        }
    }
}

/// Law: a turn-off session sends the turn-off command only in answer to a
/// `registered` reply to its `register` request.
pub proof fn lemma_command_only_after_registration(
    pre: TurnOffSession,
    e: SessionEvent,
    post: TurnOffSession,
    req: SsapRequest,
)
    requires
        turn_off_step(pre, e, post, SessionAction::Send(req)),
        req.msg_type@ == "request"@,
    ensures
        pre.stage is AwaitingRegistered,
        e matches SessionEvent::Reply(m) && register_reply(m) is Registered,
{
    reveal_strlit("request");
    reveal_strlit("register");
    assert("request"@[2] != "register"@[2]);
}

/// Law: once the turn-off command has been sent, the session can no longer
/// fail: it keeps waiting, closes, or finishes successfully.
pub proof fn lemma_no_failure_after_command_sent(
    pre: TurnOffSession,
    e: SessionEvent,
    post: TurnOffSession,
    a: SessionAction<()>,
)
    requires
        turn_off_step(pre, e, post, a),
        pre.stage is AwaitingAck || pre.stage is Closing,
    ensures
        !(a matches SessionAction::Finish(Err(_))),
        post.stage is AwaitingAck || post.stage is Closing || post.stage is Finished,
        post.stage is Finished ==> a == SessionAction::<()>::Finish(Ok(())),
{
}

/// Law: a pairing session succeeds only with the client key that the TV sent
/// in its `registered` reply.
pub proof fn lemma_paired_key_comes_from_tv(
    pre: PairSession,
    e: SessionEvent,
    post: PairSession,
    a: SessionAction<String>,
)
    requires
        pair_step(pre, e, post, a),
    ensures
        a matches SessionAction::Finish(Ok(k)) ==> pre.stage == (PairStage::Closing {
            client_key: k,
        }),
        post.stage matches PairStage::Closing { client_key } ==> {
            &&& pre.stage is AwaitingAcceptance
            &&& e matches SessionEvent::Reply(Incoming::Text(Some(resp)))
            &&& resp.msg_type@ == "registered"@
            &&& resp.client_key == Some(client_key)
        },
{
}

/// Law: while a `register` request waits, only an `error` reply rejects it;
/// a reply of any type other than `registered` or `error` (a `hello`, a
/// prompt `response`) and a non-text message leave it undecided, and only a
/// `registered` reply completes it.
pub proof fn lemma_register_rejected_only_by_error(m: Incoming)
    ensures
        (m matches Incoming::Text(Some(r)) && r.msg_type@ != "registered"@ && r.msg_type@ != "error"@)
            ==> register_reply(m) is KeepWaiting,
        m is Other ==> register_reply(m) is KeepWaiting,
        (register_reply(m) matches RegisterStep::Failed(SsapError::Rejected(_))) ==> (m matches Incoming::Text(Some(r)) && r.msg_type@ == "error"@),
        register_reply(m) is Registered ==> (m matches Incoming::Text(Some(r)) && r.msg_type@ == "registered"@),
{
}

/// Law: while the user is asked to accept pairing, a non-text message or a
/// reply of a type other than `registered` or `error` never decides it;
/// pairing fails only on an `error` reply, a malformed text reply, a
/// transport failure, a close, or a `registered` reply without a key; and it
/// succeeds only with the key of a `registered` reply.
pub proof fn lemma_pairing_decided_only_by_answers(m: Incoming)
    ensures
        m is Other ==> pairing_reply(m) is KeepWaiting,
        (m matches Incoming::Text(Some(r)) && r.msg_type@ != "registered"@ && r.msg_type@ != "error"@)
            ==> pairing_reply(m) is KeepWaiting,
        pairing_reply(m) is Failed ==> {
            ||| m matches Incoming::Text(None)
            ||| m is Failed
            ||| m is Closed
            ||| (m matches Incoming::Text(Some(r)) && r.msg_type@ == "error"@)
            ||| (m matches Incoming::Text(Some(r)) && r.msg_type@ == "registered"@ && r.client_key is None)
        },
        pairing_reply(m) matches PairStep::Paired(k) ==> (m matches Incoming::Text(Some(r)) && r.msg_type@ == "registered"@ && r.client_key == Some(k)),
{
}

} // verus!
