//! The RTC control protocol between the runtime and the main-thread
//! registry: request envelopes, response envelopes and what is answered when
//! a request cannot be served.

use vstd::prelude::*;
use crate::error::Error;
use crate::js_wire::{
    WireErrorValue, error_to_wire_value_for_command, opt_string_view, opt_view,
    spec_wire_error_code, spec_wire_error_reason,
};
use crate::error::error_message;
use crate::text::{concat2, concat3, debug_quoted, str_debug_repr, str_eq, str_starts_with};

verus! {

/// A request payload as decoded: an object (with its contents) or some other
/// value.
pub enum RtcControlPayload<P> {
    Object(P),
    NotObject,
}

/// A request envelope as decoded from the control port.
pub struct RtcControlRequestEnvelope<P> {
    pub kind: String,
    pub id: u64,
    pub command: String,
    pub payload: Option<RtcControlPayload<P>>,
}

/// A request the registry serves. A missing payload stands for the empty
/// object.
pub struct MainRtcControlRequest<P> {
    pub id: u64,
    pub command: String,
    pub payload: Option<P>,
}

/// Why an envelope is refused, if it is.
pub open spec fn envelope_problem<P>(env: RtcControlRequestEnvelope<P>) -> Option<Seq<char>> {
    if env.kind@ != "request"@ {
        Some("malformed RTC control message: kind must be request"@)
    } else if !(env.command@.len() >= 5 && env.command@.subrange(0, 5) == "main."@) {
        Some("unsupported RTC control command "@ + str_debug_repr(env.command@))
    } else if env.payload matches Some(RtcControlPayload::NotObject) {
        Some("malformed payload for "@ + env.command@ + ": payload must be an object"@)
    } else {
        None
    }
}

/// Accepts a request envelope of kind `request` for a `main.` command whose
/// payload, where present, is an object; refuses any other with a `WebRtc`
/// error saying why.
pub fn rtc_control_request_from_js<P>(envelope: RtcControlRequestEnvelope<P>) -> (r: Result<
    MainRtcControlRequest<P>,
    Error,
>)
    ensures
        match envelope_problem(envelope) {
            Some(m) => r matches Err(Error::WebRtc(s)) && s@ == m,
            None => r matches Ok(req) && {
                &&& req.id == envelope.id
                &&& req.command@ == envelope.command@
                &&& match envelope.payload {
                    Some(RtcControlPayload::Object(p)) => req.payload == Some(p),
                    _ => req.payload is None,
                }
            },
        },
{
    proof {
        reveal_strlit("request");
        reveal_strlit("main.");
    }
    if !str_eq(envelope.kind.as_str(), "request") {
        return Err(
            Error::WebRtc(crate::text::owned("malformed RTC control message: kind must be request")),
        );
    }
    let command = envelope.command;
    if !str_starts_with(command.as_str(), "main.") {
        let quoted = debug_quoted(command.as_str());
        return Err(Error::WebRtc(concat2("unsupported RTC control command ", quoted.as_str())));
    }
    let payload = match envelope.payload {
        Some(RtcControlPayload::Object(p)) => Some(p),
        Some(RtcControlPayload::NotObject) => {
            return Err(
                Error::WebRtc(
                    concat3("malformed payload for ", command.as_str(), ": payload must be an object"),
                ),
            );
        },
        None => None,
    };
    Ok(MainRtcControlRequest { id: envelope.id, command, payload })
}

/// A response envelope: `kind` is always `response`, `ok` tells the two
/// shapes apart.
pub enum RtcControlResponse<R, E> {
    Success { id: u64, result: R },
    Failure { id: u64, error: E },
}

impl<R, E> RtcControlResponse<R, E> {
    pub fn kind(&self) -> (k: &'static str)
        ensures
            k@ == "response"@,
    {
        "response"
    }

    pub fn id(&self) -> (id: u64)
        ensures
            id == match self {
                RtcControlResponse::Success { id, .. } => *id,
                RtcControlResponse::Failure { id, .. } => *id,
            },
    {
        match self {
            RtcControlResponse::Success { id, .. } => *id,
            RtcControlResponse::Failure { id, .. } => *id,
        }
    }

    pub fn ok(&self) -> (b: bool)
        ensures
            b == (self is Success),
    {
        match self {
            RtcControlResponse::Success { .. } => true,
            RtcControlResponse::Failure { .. } => false,
        }
    }
}

pub fn rtc_control_success_response<R, E>(id: u64, result: R) -> (r: RtcControlResponse<R, E>)
    ensures
        r == (RtcControlResponse::<R, E>::Success { id, result }),
{
    RtcControlResponse::Success { id, result }
}

pub fn rtc_control_error_response<R, E>(id: u64, error: E) -> (r: RtcControlResponse<R, E>)
    ensures
        r == (RtcControlResponse::<R, E>::Failure { id, error }),
{
    RtcControlResponse::Failure { id, error }
}

/// The answer to a request that failed while serving `command` (or before its
/// command was known): an error response carrying the wire form of `error`.
pub fn rtc_control_failure<R>(id: u64, command: Option<&str>, error: Error) -> (r: RtcControlResponse<
    R,
    WireErrorValue,
>)
    ensures
        r matches RtcControlResponse::Failure { id: rid, error: w } && {
            &&& rid == id
            &&& w.code@ == spec_wire_error_code(opt_view(command), error)
            &&& w.message@ == error_message(error)
            &&& opt_string_view(w.detail.command) == opt_view(command)
            &&& w.detail.reason matches Some(reason) && reason@ == spec_wire_error_reason(error)
        },
{
    RtcControlResponse::Failure { id, error: error_to_wire_value_for_command(command, error) }
}

/// The answer to a message that could not be decoded as a request: an error
/// response where the message at least carried an id, nothing otherwise.
pub fn rtc_control_undecodable<R>(message_id: Option<u64>, error: Error) -> (r: Option<
    RtcControlResponse<R, WireErrorValue>,
>)
    ensures
        match message_id {
            None => r is None,
            Some(id) => r matches Some(RtcControlResponse::Failure { id: rid, error: w }) && {
                &&& rid == id
                &&& w.code@ == spec_wire_error_code(None, error)
                &&& w.message@ == error_message(error)
                &&& w.detail.command is None
                &&& w.detail.reason matches Some(reason) && reason@ == spec_wire_error_reason(error)
            },
        },
{
    match message_id {
        Some(id) => Some(rtc_control_failure(id, None, error)),
        None => None,
    }
}

/// Whether a message goes out with a transfer list: only when the list has
/// something in it.
pub fn posts_with_transfer(transfer_len: Option<u32>) -> (b: bool)
    ensures
        b == (transfer_len matches Some(n) && n > 0),
{
    match transfer_len {
        Some(n) => n > 0,
        None => false,
    }
}

} // verus!
