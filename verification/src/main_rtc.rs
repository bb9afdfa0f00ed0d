//! The runtime's side of the main-thread RTC protocol: the commands it asks
//! the registry to run, the request envelopes it sends, and how it reads the
//! results and errors that come back.

use vstd::prelude::*;
use crate::browser_protocol::{MainRtcCommandName, main_rtc_command_name};
use crate::text::{concat2, concat3, debug_quoted, owned, str_debug_repr, str_eq};

verus! {

/// The error codes of the runtime protocol.
#[derive(Debug, Clone, Copy, PartialEq, Eq, Structural)]
pub enum BrowserWorkerErrorCode {
    SpawnFailed,
    UnsupportedBrowser,
    InvalidStunUrl,
    InvalidRemote,
    UnsupportedAlpn,
    WebRtcFailed,
    DataChannelFailed,
    BootstrapFailed,
    Closed,
}

pub open spec fn error_code_name(c: BrowserWorkerErrorCode) -> Seq<char> {
    match c {
        BrowserWorkerErrorCode::SpawnFailed => "spawnFailed"@,
        BrowserWorkerErrorCode::UnsupportedBrowser => "unsupportedBrowser"@,
        BrowserWorkerErrorCode::InvalidStunUrl => "invalidStunUrl"@,
        BrowserWorkerErrorCode::InvalidRemote => "invalidRemote"@,
        BrowserWorkerErrorCode::UnsupportedAlpn => "unsupportedAlpn"@,
        BrowserWorkerErrorCode::WebRtcFailed => "webrtcFailed"@,
        BrowserWorkerErrorCode::DataChannelFailed => "dataChannelFailed"@,
        BrowserWorkerErrorCode::BootstrapFailed => "bootstrapFailed"@,
        BrowserWorkerErrorCode::Closed => "closed"@,
    }
}

impl BrowserWorkerErrorCode {
    pub fn as_str(self) -> (r: &'static str)
        ensures
            r@ == error_code_name(self),
    {
        match self {
            BrowserWorkerErrorCode::SpawnFailed => "spawnFailed",
            BrowserWorkerErrorCode::UnsupportedBrowser => "unsupportedBrowser",
            BrowserWorkerErrorCode::InvalidStunUrl => "invalidStunUrl",
            BrowserWorkerErrorCode::InvalidRemote => "invalidRemote",
            BrowserWorkerErrorCode::UnsupportedAlpn => "unsupportedAlpn",
            BrowserWorkerErrorCode::WebRtcFailed => "webrtcFailed",
            BrowserWorkerErrorCode::DataChannelFailed => "dataChannelFailed",
            BrowserWorkerErrorCode::BootstrapFailed => "bootstrapFailed",
            BrowserWorkerErrorCode::Closed => "closed",
        }
    }
}

/// An error of the runtime protocol.
#[derive(Debug)]
pub struct BrowserWorkerError {
    pub code: BrowserWorkerErrorCode,
    pub message: String,
}

/// A runtime error as it travels on the wire.
#[derive(Debug)]
pub struct BrowserWorkerWireError {
    pub code: BrowserWorkerErrorCode,
    pub message: String,
}

impl BrowserWorkerError {
    pub fn new(code: BrowserWorkerErrorCode, message: &str) -> (e: Self)
        ensures
            e.code == code,
            e.message@ == message@,
    {
        BrowserWorkerError { code, message: owned(message) }
    }

    /// The error for a request that reaches a closed runtime.
    pub fn closed() -> (e: Self)
        ensures
            e.code == BrowserWorkerErrorCode::Closed,
            e.message@ == "browser worker node is closed"@,
    {
        Self::new(BrowserWorkerErrorCode::Closed, "browser worker node is closed")
    }

    pub fn wire_error(&self) -> (w: BrowserWorkerWireError)
        ensures
            w.code == self.code,
            w.message == self.message,
    {
        BrowserWorkerWireError { code: self.code, message: self.message.clone() }
    }
}

/// A key naming one RTC session; never empty.
#[derive(Debug, PartialEq, Eq)]
pub struct WorkerSessionKey(String);

impl WorkerSessionKey {
    pub closed spec fn view(&self) -> Seq<char> {
        self.0@
    }

    pub fn new(value: String) -> (r: Result<Self, BrowserWorkerError>)
        ensures
            value@.len() == 0 ==> (r matches Err(e) && e.code == BrowserWorkerErrorCode::WebRtcFailed
                && e.message@ == "session key must not be empty"@),
            value@.len() > 0 ==> (r matches Ok(k) && k.view() == value@),
    {
        if value.as_str().is_empty() {
            return Err(
                BrowserWorkerError::new(
                    BrowserWorkerErrorCode::WebRtcFailed,
                    "session key must not be empty",
                ),
            );
        }
        Ok(WorkerSessionKey(value))
    }

    pub fn as_str(&self) -> (r: &str)
        ensures
            r@ == self.view(),
    {
        self.0.as_str()
    }
}

#[derive(Debug, Clone, Copy, PartialEq, Eq, Structural)]
pub enum WorkerSessionRole {
    Dialer,
    Acceptor,
}

#[derive(Debug, PartialEq, Eq)]
pub enum WorkerProtocolIceCandidate {
    Candidate { candidate: String, sdp_mid: Option<String>, sdp_mline_index: Option<u16> },
    EndOfCandidates,
}

#[derive(Debug)]
pub struct WorkerMainCreatePeerConnectionPayload {
    pub session_key: String,
    pub role: WorkerSessionRole,
    pub generation: u64,
    pub stun_urls: Vec<String>,
    pub remote_endpoint: String,
}

#[derive(Debug)]
pub struct WorkerMainCreateDataChannelPayload {
    pub session_key: String,
    pub label: String,
    pub protocol: String,
    pub ordered: bool,
    pub max_retransmits: u16,
}

#[derive(Debug)]
pub struct WorkerMainSessionPayload {
    pub session_key: String,
}

#[derive(Debug)]
pub struct WorkerMainAcceptOfferPayload {
    pub session_key: String,
    pub remote_endpoint: Option<String>,
    pub sdp: String,
}

#[derive(Debug)]
pub struct WorkerMainAcceptAnswerPayload {
    pub session_key: String,
    pub sdp: String,
}

#[derive(Debug)]
pub struct WorkerMainAddRemoteIcePayload {
    pub session_key: String,
    pub ice: WorkerProtocolIceCandidate,
}

#[derive(Debug)]
pub struct WorkerMainClosePeerConnectionPayload {
    pub session_key: String,
    pub reason: Option<String>,
}

/// A command the runtime asks the main-thread registry to run.
#[derive(Debug)]
pub enum WorkerMainRtcCommand {
    CreatePeerConnection(WorkerMainCreatePeerConnectionPayload),
    CreateDataChannel(WorkerMainCreateDataChannelPayload),
    TakeDataChannel(WorkerMainSessionPayload),
    CreateOffer(WorkerMainSessionPayload),
    AcceptOffer(WorkerMainAcceptOfferPayload),
    CreateAnswer(WorkerMainSessionPayload),
    AcceptAnswer(WorkerMainAcceptAnswerPayload),
    NextLocalIce(WorkerMainSessionPayload),
    AddRemoteIce(WorkerMainAddRemoteIcePayload),
    ClosePeerConnection(WorkerMainClosePeerConnectionPayload),
}

pub open spec fn command_kind(c: WorkerMainRtcCommand) -> MainRtcCommandName {
    match c {
        WorkerMainRtcCommand::CreatePeerConnection(_) => MainRtcCommandName::CreatePeerConnection,
        WorkerMainRtcCommand::CreateDataChannel(_) => MainRtcCommandName::CreateDataChannel,
        WorkerMainRtcCommand::TakeDataChannel(_) => MainRtcCommandName::TakeDataChannel,
        WorkerMainRtcCommand::CreateOffer(_) => MainRtcCommandName::CreateOffer,
        WorkerMainRtcCommand::AcceptOffer(_) => MainRtcCommandName::AcceptOffer,
        WorkerMainRtcCommand::CreateAnswer(_) => MainRtcCommandName::CreateAnswer,
        WorkerMainRtcCommand::AcceptAnswer(_) => MainRtcCommandName::AcceptAnswer,
        WorkerMainRtcCommand::NextLocalIce(_) => MainRtcCommandName::NextLocalIce,
        WorkerMainRtcCommand::AddRemoteIce(_) => MainRtcCommandName::AddRemoteIce,
        WorkerMainRtcCommand::ClosePeerConnection(_) => MainRtcCommandName::ClosePeerConnection,
    }
}

pub open spec fn command_session_key(c: WorkerMainRtcCommand) -> String {
    match c {
        WorkerMainRtcCommand::CreatePeerConnection(p) => p.session_key,
        WorkerMainRtcCommand::CreateDataChannel(p) => p.session_key,
        WorkerMainRtcCommand::TakeDataChannel(p) => p.session_key,
        WorkerMainRtcCommand::CreateOffer(p) => p.session_key,
        WorkerMainRtcCommand::AcceptOffer(p) => p.session_key,
        WorkerMainRtcCommand::CreateAnswer(p) => p.session_key,
        WorkerMainRtcCommand::AcceptAnswer(p) => p.session_key,
        WorkerMainRtcCommand::NextLocalIce(p) => p.session_key,
        WorkerMainRtcCommand::AddRemoteIce(p) => p.session_key,
        WorkerMainRtcCommand::ClosePeerConnection(p) => p.session_key,
    }
}

/// The generation a command carries: only peer-connection creation has one.
pub open spec fn command_generation(c: WorkerMainRtcCommand) -> Option<u64> {
    match c {
        WorkerMainRtcCommand::CreatePeerConnection(p) => Some(p.generation),
        _ => None,
    }
}

/// The reason a command carries: only peer-connection close has one.
pub open spec fn command_reason(c: WorkerMainRtcCommand) -> Option<String> {
    match c {
        WorkerMainRtcCommand::ClosePeerConnection(p) => p.reason,
        _ => None,
    }
}

impl WorkerMainRtcCommand {
    pub fn name(&self) -> (n: MainRtcCommandName)
        ensures
            n == command_kind(*self),
    {
        match self {
            WorkerMainRtcCommand::CreatePeerConnection(_) => MainRtcCommandName::CreatePeerConnection,
            WorkerMainRtcCommand::CreateDataChannel(_) => MainRtcCommandName::CreateDataChannel,
            WorkerMainRtcCommand::TakeDataChannel(_) => MainRtcCommandName::TakeDataChannel,
            WorkerMainRtcCommand::CreateOffer(_) => MainRtcCommandName::CreateOffer,
            WorkerMainRtcCommand::AcceptOffer(_) => MainRtcCommandName::AcceptOffer,
            WorkerMainRtcCommand::CreateAnswer(_) => MainRtcCommandName::CreateAnswer,
            WorkerMainRtcCommand::AcceptAnswer(_) => MainRtcCommandName::AcceptAnswer,
            WorkerMainRtcCommand::NextLocalIce(_) => MainRtcCommandName::NextLocalIce,
            WorkerMainRtcCommand::AddRemoteIce(_) => MainRtcCommandName::AddRemoteIce,
            WorkerMainRtcCommand::ClosePeerConnection(_) => MainRtcCommandName::ClosePeerConnection,
        }
    }

    pub fn session_key(&self) -> (k: &String)
        ensures
            *k == command_session_key(*self),
    {
        match self {
            WorkerMainRtcCommand::CreatePeerConnection(p) => &p.session_key,
            WorkerMainRtcCommand::CreateDataChannel(p) => &p.session_key,
            WorkerMainRtcCommand::TakeDataChannel(p) => &p.session_key,
            WorkerMainRtcCommand::CreateOffer(p) => &p.session_key,
            WorkerMainRtcCommand::AcceptOffer(p) => &p.session_key,
            WorkerMainRtcCommand::CreateAnswer(p) => &p.session_key,
            WorkerMainRtcCommand::AcceptAnswer(p) => &p.session_key,
            WorkerMainRtcCommand::NextLocalIce(p) => &p.session_key,
            WorkerMainRtcCommand::AddRemoteIce(p) => &p.session_key,
            WorkerMainRtcCommand::ClosePeerConnection(p) => &p.session_key,
        }
    }
}

/// A request envelope for the main-thread registry.
#[derive(Debug)]
pub struct MainRtcRequestEnvelope {
    pub kind: String,
    pub id: u64,
    pub command: String,
    pub payload: WorkerMainRtcCommand,
}

/// What the runtime remembers of a request it sent to the registry.
#[derive(Debug)]
pub struct PendingMainRtcRequest {
    pub id: u64,
    pub command: String,
    pub session_key: String,
    pub generation: Option<u64>,
    pub reason: Option<String>,
}

/// The request envelope for `command` under `id`, and what to remember of
/// it until its response arrives.
pub fn main_rtc_command_request_envelope(id: u64, command: WorkerMainRtcCommand) -> (r: (
    MainRtcRequestEnvelope,
    PendingMainRtcRequest,
))
    ensures
        r.0.kind@ == "request"@,
        r.0.id == id,
        r.0.command@ == main_rtc_command_name(command_kind(command)),
        r.0.payload == command,
        r.1.id == id,
        r.1.command@ == main_rtc_command_name(command_kind(command)),
        r.1.session_key == command_session_key(command),
        r.1.generation == command_generation(command),
        r.1.reason == command_reason(command),
{
    let name = command.name();
    let session_key = command.session_key().clone();
    let generation = match &command {
        WorkerMainRtcCommand::CreatePeerConnection(p) => Some(p.generation),
        _ => None,
    };
    let reason = match &command {
        WorkerMainRtcCommand::ClosePeerConnection(p) => p.reason.clone(),
        _ => None,
    };
    let envelope = MainRtcRequestEnvelope {
        kind: owned("request"),
        id,
        command: owned(name.as_str()),
        payload: command,
    };
    (envelope, PendingMainRtcRequest {
        id,
        command: owned(name.as_str()),
        session_key,
        generation,
        reason,
    })
}

/// The result of a main-thread RTC command, decoded both ways the runtime
/// may read it: as an SDP result and as an ICE event, each with the
/// decoder's message where the result does not have that shape.
#[derive(Debug)]
pub struct MainRtcResultBody {
    pub sdp: Result<String, String>,
    pub ice: Result<WorkerProtocolIceCandidate, String>,
}

/// The response payload that the runtime feeds back into itself for a
/// request it sent to the registry.
#[derive(Debug)]
pub struct MainRtcResultEnvelope {
    pub session_key: String,
    pub command: String,
    pub reason: Option<String>,
    pub result: Option<MainRtcResultBody>,
    pub error: Option<BrowserWorkerWireError>,
}

pub fn worker_main_rtc_result_payload_from_response(
    pending: &PendingMainRtcRequest,
    result: Option<MainRtcResultBody>,
    error: Option<BrowserWorkerWireError>,
) -> (e: MainRtcResultEnvelope)
    ensures
        e.session_key == pending.session_key,
        e.command == pending.command,
        e.reason == pending.reason,
        e.result == result,
        e.error == error,
{
    MainRtcResultEnvelope {
        session_key: pending.session_key.clone(),
        command: pending.command.clone(),
        reason: pending.reason.clone(),
        result,
        error,
    }
}

#[derive(Debug)]
pub struct MainRtcErrorPayload {
    pub code: Option<BrowserWorkerErrorCode>,
    pub message: String,
}

/// A main-thread RTC result as the runtime decodes it.
#[derive(Debug)]
pub struct MainRtcResultPayload {
    pub session_key: String,
    pub command: Option<String>,
    pub event: Option<String>,
    pub result: Option<MainRtcResultBody>,
    pub error: Option<MainRtcErrorPayload>,
    pub message: Option<String>,
    pub reason: Option<String>,
}

pub open spec fn envelope_as_payload(e: MainRtcResultEnvelope) -> MainRtcResultPayload {
    MainRtcResultPayload {
        session_key: e.session_key,
        command: Some(e.command),
        event: None,
        result: e.result,
        error: match e.error {
            Some(w) => Some(MainRtcErrorPayload { code: Some(w.code), message: w.message }),
            None => None,
        },
        message: None,
        reason: e.reason,
    }
}

impl MainRtcResultEnvelope {
    /// The envelope as the runtime reads it back.
    pub fn into_payload(self) -> (p: MainRtcResultPayload)
        ensures
            p == envelope_as_payload(self),
    {
        MainRtcResultPayload {
            session_key: self.session_key,
            command: Some(self.command),
            event: None,
            result: self.result,
            error: match self.error {
                Some(w) => Some(MainRtcErrorPayload { code: Some(w.code), message: w.message }),
                None => None,
            },
            message: None,
            reason: self.reason,
        }
    }
}

/// What a main-thread RTC result tells the runtime.
#[derive(Debug, PartialEq, Eq)]
pub enum WorkerMainRtcResultEvent {
    PeerConnectionCreated,
    DataChannelCreated,
    OfferCreated { sdp: String },
    OfferAccepted,
    AnswerCreated { sdp: String },
    AnswerAccepted,
    LocalIce { ice: WorkerProtocolIceCandidate },
    RemoteIceAccepted,
    DataChannelOpen,
    WebRtcFailed { message: String },
    WebRtcClosed { message: String },
    PeerConnectionCloseAcknowledged,
}

#[derive(Debug)]
pub struct WorkerMainRtcResultInput {
    pub session_key: WorkerSessionKey,
    pub event: WorkerMainRtcResultEvent,
    pub error_message: Option<String>,
}

pub open spec fn failed_with(e: BrowserWorkerError, message: Seq<char>) -> bool {
    e.code == BrowserWorkerErrorCode::WebRtcFailed && e.message@ == message
}

/// The event that the result of `command` stands for: `event` is it, or
/// `message` is the text of the error reading it fails with.
pub open spec fn event_from_command(command: Seq<char>, result: Option<MainRtcResultBody>, r: Result<
    WorkerMainRtcResultEvent,
    BrowserWorkerError,
>) -> bool {
    if command == main_rtc_command_name(MainRtcCommandName::CreatePeerConnection) {
        r matches Ok(WorkerMainRtcResultEvent::PeerConnectionCreated)
    } else if command == main_rtc_command_name(MainRtcCommandName::CreateDataChannel)
        || command == main_rtc_command_name(MainRtcCommandName::TakeDataChannel) {
        r matches Ok(WorkerMainRtcResultEvent::DataChannelCreated)
    } else if command == main_rtc_command_name(MainRtcCommandName::CreateOffer)
        || command == main_rtc_command_name(MainRtcCommandName::CreateAnswer) {
        match result {
            None => r matches Err(e) && failed_with(e, "main RTC "@ + str_debug_repr(command)
                + " result is missing result"@),
            Some(body) => match body.sdp {
                Ok(sdp) => if command == main_rtc_command_name(MainRtcCommandName::CreateOffer) {
                    r == Ok::<WorkerMainRtcResultEvent, BrowserWorkerError>(
                        WorkerMainRtcResultEvent::OfferCreated { sdp },
                    )
                } else {
                    r == Ok::<WorkerMainRtcResultEvent, BrowserWorkerError>(
                        WorkerMainRtcResultEvent::AnswerCreated { sdp },
                    )
                },
                Err(why) => r matches Err(e) && failed_with(
                    e,
                    "main RTC SDP result has invalid shape: "@ + why@,
                ),
            },
        }
    } else if command == main_rtc_command_name(MainRtcCommandName::AcceptOffer) {
        r matches Ok(WorkerMainRtcResultEvent::OfferAccepted)
    } else if command == main_rtc_command_name(MainRtcCommandName::AcceptAnswer) {
        r matches Ok(WorkerMainRtcResultEvent::AnswerAccepted)
    } else if command == main_rtc_command_name(MainRtcCommandName::NextLocalIce) {
        match result {
            None => r matches Err(e) && failed_with(e, "main RTC local ICE result is missing result"@),
            Some(body) => match body.ice {
                Ok(ice) => r == Ok::<WorkerMainRtcResultEvent, BrowserWorkerError>(
                    WorkerMainRtcResultEvent::LocalIce { ice },
                ),
                Err(why) => r matches Err(e) && failed_with(
                    e,
                    "main RTC ICE result has invalid shape: "@ + why@,
                ),
            },
        }
    } else if command == main_rtc_command_name(MainRtcCommandName::AddRemoteIce) {
        r matches Ok(WorkerMainRtcResultEvent::RemoteIceAccepted)
    } else if command == main_rtc_command_name(MainRtcCommandName::ClosePeerConnection) {
        r matches Ok(WorkerMainRtcResultEvent::PeerConnectionCloseAcknowledged)
    } else {
        r matches Err(e) && failed_with(e, "unsupported main RTC result command "@
            + str_debug_repr(command))
    }
}

/// The event the result of `command` stands for.
pub fn main_rtc_event_from_command(command: &str, result: Option<MainRtcResultBody>) -> (r: Result<
    WorkerMainRtcResultEvent,
    BrowserWorkerError,
>)
    ensures
        event_from_command(command@, result, r),
{
    let Some(name) = MainRtcCommandName::from_name(command) else {
        let quoted = debug_quoted(command);
        let m = concat2("unsupported main RTC result command ", quoted.as_str());
        return Err(BrowserWorkerError { code: BrowserWorkerErrorCode::WebRtcFailed, message: m });
    };
    match name {
        MainRtcCommandName::CreatePeerConnection => Ok(WorkerMainRtcResultEvent::PeerConnectionCreated),
        MainRtcCommandName::CreateDataChannel | MainRtcCommandName::TakeDataChannel => Ok(
            WorkerMainRtcResultEvent::DataChannelCreated,
        ),
        MainRtcCommandName::CreateOffer | MainRtcCommandName::CreateAnswer => {
            let sdp = match result {
                None => {
                    let quoted = debug_quoted(command);
                    let m = concat3("main RTC ", quoted.as_str(), " result is missing result");
                    return Err(
                        BrowserWorkerError { code: BrowserWorkerErrorCode::WebRtcFailed, message: m },
                    );
                },
                Some(body) => match body.sdp {
                    Ok(sdp) => sdp,
                    Err(why) => {
                        let m = concat2("main RTC SDP result has invalid shape: ", why.as_str());
                        return Err(
                            BrowserWorkerError { code: BrowserWorkerErrorCode::WebRtcFailed, message: m },
                        );
                    },
                },
            };
            match name {
                MainRtcCommandName::CreateOffer => Ok(WorkerMainRtcResultEvent::OfferCreated { sdp }),
                _ => Ok(WorkerMainRtcResultEvent::AnswerCreated { sdp }),
            }
        },
        MainRtcCommandName::AcceptOffer => Ok(WorkerMainRtcResultEvent::OfferAccepted),
        MainRtcCommandName::AcceptAnswer => Ok(WorkerMainRtcResultEvent::AnswerAccepted),
        MainRtcCommandName::NextLocalIce => match result {
            None => Err(
                BrowserWorkerError::new(
                    BrowserWorkerErrorCode::WebRtcFailed,
                    "main RTC local ICE result is missing result",
                ),
            ),
            Some(body) => match body.ice {
                Ok(ice) => Ok(WorkerMainRtcResultEvent::LocalIce { ice }),
                Err(why) => Err(
                    BrowserWorkerError {
                        code: BrowserWorkerErrorCode::WebRtcFailed,
                        message: concat2("main RTC ICE result has invalid shape: ", why.as_str()),
                    },
                ),
            },
        },
        MainRtcCommandName::AddRemoteIce => Ok(WorkerMainRtcResultEvent::RemoteIceAccepted),
        MainRtcCommandName::ClosePeerConnection => Ok(
            WorkerMainRtcResultEvent::PeerConnectionCloseAcknowledged,
        ),
    }
}


pub open spec fn first_present(a: Option<String>, b: Option<String>, fallback: Seq<char>) -> Seq<char> {
    match a {
        Some(m) => m@,
        None => match b {
            Some(m) => m@,
            None => fallback,
        },
    }
}

/// The event that a result named by `event` stands for.
pub open spec fn event_from_name(
    event: Seq<char>,
    message: Option<String>,
    reason: Option<String>,
    r: Result<WorkerMainRtcResultEvent, BrowserWorkerError>,
) -> bool {
    if event == "dataChannelOpen"@ {
        r matches Ok(WorkerMainRtcResultEvent::DataChannelOpen)
    } else if event == "webrtcFailed"@ || event == "failed"@ {
        r matches Ok(WorkerMainRtcResultEvent::WebRtcFailed { message: m }) && m@ == first_present(
            message,
            reason,
            "main-thread WebRTC failed"@,
        )
    } else if event == "closed"@ || event == "webrtcClosed"@ {
        r matches Ok(WorkerMainRtcResultEvent::WebRtcClosed { message: m }) && m@ == first_present(
            message,
            reason,
            "main-thread WebRTC closed"@,
        )
    } else {
        r matches Err(e) && failed_with(e, "unsupported main RTC result event "@ + str_debug_repr(event))
    }
}

fn first_present_string(a: Option<String>, b: Option<String>, fallback: &str) -> (r: String)
    ensures
        r@ == first_present(a, b, fallback@),
{
    match a {
        Some(m) => m,
        None => match b {
            Some(m) => m,
            None => owned(fallback),
        },
    }
}

pub fn main_rtc_event_from_event_name(event: &str, message: Option<String>, reason: Option<String>) -> (r:
    Result<WorkerMainRtcResultEvent, BrowserWorkerError>)
    ensures
        event_from_name(event@, message, reason, r),
{
    if str_eq(event, "dataChannelOpen") {
        Ok(WorkerMainRtcResultEvent::DataChannelOpen)
    } else if str_eq(event, "webrtcFailed") || str_eq(event, "failed") {
        Ok(
            WorkerMainRtcResultEvent::WebRtcFailed {
                message: first_present_string(message, reason, "main-thread WebRTC failed"),
            },
        )
    } else if str_eq(event, "closed") || str_eq(event, "webrtcClosed") {
        Ok(
            WorkerMainRtcResultEvent::WebRtcClosed {
                message: first_present_string(message, reason, "main-thread WebRTC closed"),
            },
        )
    } else {
        let quoted = debug_quoted(event);
        Err(
            BrowserWorkerError {
                code: BrowserWorkerErrorCode::WebRtcFailed,
                message: concat2("unsupported main RTC result event ", quoted.as_str()),
            },
        )
    }
}

/// How the runtime reads a main-thread RTC result: the session key must not
/// be empty; an error in the payload wins and stands for a WebRTC failure
/// with its message; otherwise an event name decides, else the command.
pub open spec fn result_input_from(p: MainRtcResultPayload, r: Result<WorkerMainRtcResultInput, BrowserWorkerError>) -> bool {
    if p.session_key@.len() == 0 {
        r matches Err(e) && failed_with(e, "session key must not be empty"@)
    } else if p.error is Some {
        r matches Ok(input) && {
            &&& input.session_key.view() == p.session_key@
            &&& input.error_message is None
            &&& input.event matches WorkerMainRtcResultEvent::WebRtcFailed { message }
            &&& message == p.error->0.message
        }
    } else if p.event is Some {
        match r {
            Ok(input) => input.session_key.view() == p.session_key@ && input.error_message is None
                && event_from_name(p.event->0@, p.message, p.reason, Ok(input.event)),
            Err(e) => event_from_name(p.event->0@, p.message, p.reason, Err(e)),
        }
    } else if p.command is Some {
        match r {
            Ok(input) => input.session_key.view() == p.session_key@ && input.error_message is None
                && event_from_command(p.command->0@, p.result, Ok(input.event)),
            Err(e) => event_from_command(p.command->0@, p.result, Err(e)),
        }
    } else {
        r matches Err(e) && failed_with(e, "main RTC result payload must include command or event"@)
    }
}

pub fn main_rtc_result_input_from_payload(payload: MainRtcResultPayload) -> (r: Result<
    WorkerMainRtcResultInput,
    BrowserWorkerError,
>)
    ensures
        result_input_from(payload, r),
{
    let ghost p = payload;
    let session_key = WorkerSessionKey::new(payload.session_key)?;
    if let Some(error) = payload.error {
        return Ok(
            WorkerMainRtcResultInput {
                session_key,
                event: WorkerMainRtcResultEvent::WebRtcFailed { message: error.message },
                error_message: None,
            },
        );
    }
    let event = if let Some(event) = payload.event {
        main_rtc_event_from_event_name(event.as_str(), payload.message, payload.reason)?
    } else if let Some(command) = payload.command {
        main_rtc_event_from_command(command.as_str(), payload.result)?
    } else {
        return Err(
            BrowserWorkerError::new(
                BrowserWorkerErrorCode::WebRtcFailed,
                "main RTC result payload must include command or event",
            ),
        );
    };
    Ok(WorkerMainRtcResultInput { session_key, event, error_message: None })
}

/// An error response to a request the runtime sent reads back as a WebRTC
/// failure of the same session carrying the error's message, whatever the
/// command was (for any non-empty session key).
pub proof fn law_error_response_reads_back_as_failure(
    pending: PendingMainRtcRequest,
    result: Option<MainRtcResultBody>,
    error: BrowserWorkerWireError,
    envelope: MainRtcResultEnvelope,
    read: Result<WorkerMainRtcResultInput, BrowserWorkerError>,
)
    requires
        pending.session_key@.len() > 0,
        envelope.session_key == pending.session_key,
        envelope.command == pending.command,
        envelope.reason == pending.reason,
        envelope.result == result,
        envelope.error == Some(error),
        result_input_from(envelope_as_payload(envelope), read),
    ensures
        read matches Ok(input) && {
            &&& input.session_key.view() == pending.session_key@
            &&& input.event matches WorkerMainRtcResultEvent::WebRtcFailed { message }
            &&& message == error.message
        },
{
}

/// A successful response to a request the runtime sent reads back, for the
/// same session, as the event that the result of its command stands for (or
/// fails as reading that result fails).
pub proof fn law_result_response_reads_back_as_command_event(
    pending: PendingMainRtcRequest,
    result: Option<MainRtcResultBody>,
    envelope: MainRtcResultEnvelope,
    read: Result<WorkerMainRtcResultInput, BrowserWorkerError>,
)
    requires
        pending.session_key@.len() > 0,
        envelope.session_key == pending.session_key,
        envelope.command == pending.command,
        envelope.reason == pending.reason,
        envelope.result == result,
        envelope.error is None,
        result_input_from(envelope_as_payload(envelope), read),
    ensures
        match read {
            Ok(input) => input.session_key.view() == pending.session_key@ && event_from_command(
                pending.command@,
                result,
                Ok(input.event),
            ),
            Err(e) => event_from_command(pending.command@, result, Err(e)),
        },
{
}

/// Each command goes out under the name of its own kind: a request to
/// accept an answer is sent as `main.accept-answer`, never as
/// `main.accept-offer`, and so on for every command.
pub proof fn law_commands_travel_under_their_own_names(
    create_peer_connection: WorkerMainCreatePeerConnectionPayload,
    create_data_channel: WorkerMainCreateDataChannelPayload,
    session: WorkerMainSessionPayload,
    accept_offer: WorkerMainAcceptOfferPayload,
    accept_answer: WorkerMainAcceptAnswerPayload,
    add_remote_ice: WorkerMainAddRemoteIcePayload,
    close: WorkerMainClosePeerConnectionPayload,
)
    ensures
        command_kind(WorkerMainRtcCommand::CreatePeerConnection(create_peer_connection))
            == MainRtcCommandName::CreatePeerConnection,
        command_kind(WorkerMainRtcCommand::CreateDataChannel(create_data_channel))
            == MainRtcCommandName::CreateDataChannel,
        command_kind(WorkerMainRtcCommand::TakeDataChannel(session)) == MainRtcCommandName::TakeDataChannel,
        command_kind(WorkerMainRtcCommand::CreateOffer(session)) == MainRtcCommandName::CreateOffer,
        command_kind(WorkerMainRtcCommand::AcceptOffer(accept_offer)) == MainRtcCommandName::AcceptOffer,
        command_kind(WorkerMainRtcCommand::CreateAnswer(session)) == MainRtcCommandName::CreateAnswer,
        command_kind(WorkerMainRtcCommand::AcceptAnswer(accept_answer)) == MainRtcCommandName::AcceptAnswer,
        command_kind(WorkerMainRtcCommand::NextLocalIce(session)) == MainRtcCommandName::NextLocalIce,
        command_kind(WorkerMainRtcCommand::AddRemoteIce(add_remote_ice)) == MainRtcCommandName::AddRemoteIce,
        command_kind(WorkerMainRtcCommand::ClosePeerConnection(close))
            == MainRtcCommandName::ClosePeerConnection,
        main_rtc_command_name(command_kind(WorkerMainRtcCommand::AcceptAnswer(accept_answer)))
            == "main.accept-answer"@,
        main_rtc_command_name(command_kind(WorkerMainRtcCommand::AcceptOffer(accept_offer)))
            == "main.accept-offer"@,
        main_rtc_command_name(command_kind(WorkerMainRtcCommand::CreateAnswer(session)))
            == "main.create-answer"@,
        main_rtc_command_name(command_kind(WorkerMainRtcCommand::CreateOffer(session)))
            == "main.create-offer"@,
{
}

/// The result of each command reads as the event of the same name: the
/// result of `main.accept-offer` as `OfferAccepted`, that of
/// `main.accept-answer` as `AnswerAccepted`, and so on; a created offer or
/// answer carries the SDP of the result, a local ICE result its candidate.
pub proof fn law_command_results_read_as_their_own_events(
    result: Option<MainRtcResultBody>,
    r: Result<WorkerMainRtcResultEvent, BrowserWorkerError>,
)
    ensures
        event_from_command(main_rtc_command_name(MainRtcCommandName::AcceptOffer), result, r)
            ==> r matches Ok(WorkerMainRtcResultEvent::OfferAccepted),
        event_from_command(main_rtc_command_name(MainRtcCommandName::AcceptAnswer), result, r)
            ==> r matches Ok(WorkerMainRtcResultEvent::AnswerAccepted),
        event_from_command(main_rtc_command_name(MainRtcCommandName::CreatePeerConnection), result, r)
            ==> r matches Ok(WorkerMainRtcResultEvent::PeerConnectionCreated),
        event_from_command(main_rtc_command_name(MainRtcCommandName::CreateDataChannel), result, r)
            ==> r matches Ok(WorkerMainRtcResultEvent::DataChannelCreated),
        event_from_command(main_rtc_command_name(MainRtcCommandName::TakeDataChannel), result, r)
            ==> r matches Ok(WorkerMainRtcResultEvent::DataChannelCreated),
        event_from_command(main_rtc_command_name(MainRtcCommandName::AddRemoteIce), result, r)
            ==> r matches Ok(WorkerMainRtcResultEvent::RemoteIceAccepted),
        event_from_command(main_rtc_command_name(MainRtcCommandName::ClosePeerConnection), result, r)
            ==> r matches Ok(WorkerMainRtcResultEvent::PeerConnectionCloseAcknowledged),
        event_from_command(main_rtc_command_name(MainRtcCommandName::CreateOffer), result, r)
            && result is Some && result->0.sdp is Ok ==> r == Ok::<
            WorkerMainRtcResultEvent,
            BrowserWorkerError,
        >(WorkerMainRtcResultEvent::OfferCreated { sdp: result->0.sdp->Ok_0 }),
        event_from_command(main_rtc_command_name(MainRtcCommandName::CreateAnswer), result, r)
            && result is Some && result->0.sdp is Ok ==> r == Ok::<
            WorkerMainRtcResultEvent,
            BrowserWorkerError,
        >(WorkerMainRtcResultEvent::AnswerCreated { sdp: result->0.sdp->Ok_0 }),
        event_from_command(main_rtc_command_name(MainRtcCommandName::NextLocalIce), result, r)
            && result is Some && result->0.ice is Ok ==> r == Ok::<
            WorkerMainRtcResultEvent,
            BrowserWorkerError,
        >(WorkerMainRtcResultEvent::LocalIce { ice: result->0.ice->Ok_0 }),
{
    assert forall|a: MainRtcCommandName, b: MainRtcCommandName|
        a != b implies #[trigger] main_rtc_command_name(a) != #[trigger] main_rtc_command_name(b) by {
        crate::browser_protocol::law_main_rtc_names_distinct(a, b);
    }
}

/// A result named by an event reads as that event: `dataChannelOpen` as an
/// open data channel, `webrtcFailed` and `failed` as a failure, `closed` and
/// `webrtcClosed` as a close, each carrying the result's message, else its
/// reason, else a fixed text.
pub proof fn law_event_names_read_as_their_events(
    message: Option<String>,
    reason: Option<String>,
    r: Result<WorkerMainRtcResultEvent, BrowserWorkerError>,
)
    ensures
        event_from_name("dataChannelOpen"@, message, reason, r) ==> r matches Ok(
            WorkerMainRtcResultEvent::DataChannelOpen,
        ),
        event_from_name("webrtcFailed"@, message, reason, r) || event_from_name("failed"@, message, reason, r)
            ==> (r matches Ok(WorkerMainRtcResultEvent::WebRtcFailed { message: m }) && (message is Some
            ==> m@ == message->0@)),
        event_from_name("closed"@, message, reason, r) || event_from_name("webrtcClosed"@, message, reason, r)
            ==> (r matches Ok(WorkerMainRtcResultEvent::WebRtcClosed { message: m }) && (message is Some
            ==> m@ == message->0@)),
{
    reveal_strlit("dataChannelOpen");
    reveal_strlit("webrtcFailed");
    reveal_strlit("failed");
    reveal_strlit("closed");
    reveal_strlit("webrtcClosed");
    assert("dataChannelOpen"@[0] != "webrtcFailed"@[0]);
    assert("failed"@.len() != "dataChannelOpen"@.len());
    assert("closed"@.len() != "dataChannelOpen"@.len() && "closed"@ != "webrtcFailed"@ && "closed"@[0] != "failed"@[0]);
    assert("webrtcClosed"@[6] != "webrtcFailed"@[6]);
    assert("webrtcClosed"@.len() != "dataChannelOpen"@.len()
        && "webrtcClosed"@.len() != "failed"@.len());
}

} // verus!
