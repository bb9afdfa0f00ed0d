//! The error values that cross the boundary between the browser facade, its
//! runtime and the main-thread RTC registry: a code, a message and a detail.

use vstd::prelude::*;
use crate::browser_protocol::MAIN_RTC_CREATE_DATA_CHANNEL_COMMAND;
use crate::error::{Error, error_message};
use crate::text::{owned, str_eq};

verus! {

pub open spec fn opt_view(s: Option<&str>) -> Option<Seq<char>> {
    match s {
        Some(s) => Some(s@),
        None => None,
    }
}

pub open spec fn opt_string_view(s: Option<String>) -> Option<Seq<char>> {
    match s {
        Some(s) => Some(s@),
        None => None,
    }
}

/// The wire code of an error raised while serving `command`.
pub open spec fn spec_wire_error_code(command: Option<Seq<char>>, e: Error) -> Seq<char> {
    match e {
        Error::BrowserWebRtcUnavailable => "unsupportedBrowser"@,
        Error::InvalidIceConfig(_) => "invalidStunUrl"@,
        Error::SessionClosed => "closed"@,
        Error::UnknownSession => "webrtcFailed"@,
        Error::WebRtc(_) | Error::InvalidConfig(_) => {
            if command == Some(MAIN_RTC_CREATE_DATA_CHANNEL_COMMAND@) {
                "dataChannelFailed"@
            } else {
                "webrtcFailed"@
            }
        },
        _ => "webrtcFailed"@,
    }
}

/// The reason that the detail of a wire error names.
pub open spec fn spec_wire_error_reason(e: Error) -> Seq<char> {
    match e {
        Error::UnknownSession => "unknownSessionKey"@,
        Error::SessionClosed => "sessionClosed"@,
        Error::BrowserWebRtcUnavailable => "unsupportedBrowser"@,
        Error::InvalidIceConfig(_) => "invalidStunUrl"@,
        Error::InvalidConfig(_) => "invalidConfig"@,
        Error::WebRtc(_) => "webRtcOperationFailed"@,
        Error::SendQueueFull => "sendQueueFull"@,
        Error::InvalidAddr(_) => "invalidAddr"@,
        Error::InvalidFrame(_) => "invalidFrame"@,
        Error::PayloadTooLarge { .. } => "payloadTooLarge"@,
    }
}

/// The wire code of each error: an unavailable browser is
/// `unsupportedBrowser`, a bad ICE configuration `invalidStunUrl`, a closed
/// session `closed`; a failed operation or bad configuration while creating
/// a data channel is `dataChannelFailed`, and every other error, including
/// an unknown session, is `webrtcFailed`.
pub proof fn law_wire_codes_name_the_failure(command: Option<Seq<char>>, e: Error)
    ensures
        e is BrowserWebRtcUnavailable ==> spec_wire_error_code(command, e) == "unsupportedBrowser"@,
        e is InvalidIceConfig ==> spec_wire_error_code(command, e) == "invalidStunUrl"@,
        e is SessionClosed ==> spec_wire_error_code(command, e) == "closed"@,
        (e is WebRtc || e is InvalidConfig) && command == Some("main.create-data-channel"@)
            ==> spec_wire_error_code(command, e) == "dataChannelFailed"@,
        !(e is BrowserWebRtcUnavailable || e is InvalidIceConfig || e is SessionClosed) && !((e is WebRtc
            || e is InvalidConfig) && command == Some("main.create-data-channel"@))
            ==> spec_wire_error_code(command, e) == "webrtcFailed"@,
{
}

pub fn wire_error_code_for_command(command: Option<&str>, error: &Error) -> (r: &'static str)
    ensures
        r@ == spec_wire_error_code(opt_view(command), *error),
{
    match error {
        Error::BrowserWebRtcUnavailable => "unsupportedBrowser",
        Error::InvalidIceConfig(_) => "invalidStunUrl",
        Error::SessionClosed => "closed",
        Error::UnknownSession => "webrtcFailed",
        Error::WebRtc(_) | Error::InvalidConfig(_) => {
            let data_channel = match command {
                Some(c) => str_eq(c, MAIN_RTC_CREATE_DATA_CHANNEL_COMMAND),
                None => false,
            };
            if data_channel {
                "dataChannelFailed"
            } else {
                "webrtcFailed"
            }
        },
        Error::InvalidAddr(_) | Error::InvalidFrame(_) | Error::PayloadTooLarge { .. }
        | Error::SendQueueFull => "webrtcFailed",
    }
}

pub fn wire_error_reason(error: &Error) -> (r: &'static str)
    ensures
        r@ == spec_wire_error_reason(*error),
{
    match error {
        Error::UnknownSession => "unknownSessionKey",
        Error::SessionClosed => "sessionClosed",
        Error::BrowserWebRtcUnavailable => "unsupportedBrowser",
        Error::InvalidIceConfig(_) => "invalidStunUrl",
        Error::InvalidConfig(_) => "invalidConfig",
        Error::WebRtc(_) => "webRtcOperationFailed",
        Error::SendQueueFull => "sendQueueFull",
        Error::InvalidAddr(_) => "invalidAddr",
        Error::InvalidFrame(_) => "invalidFrame",
        Error::PayloadTooLarge { .. } => "payloadTooLarge",
    }
}

/// The detail of a wire error: the command it arose from and, for errors of
/// this crate, a reason.
#[derive(Debug)]
pub struct WireErrorDetail {
    pub command: Option<String>,
    pub reason: Option<&'static str>,
}

/// An error as it travels on the wire.
#[derive(Debug)]
pub struct WireErrorValue {
    pub code: String,
    pub message: String,
    pub detail: WireErrorDetail,
}

fn owned_opt(s: Option<&str>) -> (r: Option<String>)
    ensures
        opt_string_view(r) == opt_view(s),
{
    match s {
        Some(s) => Some(owned(s)),
        None => None,
    }
}

/// The wire form of an error raised while serving `command`.
pub fn error_to_wire_value_ref(command: Option<&str>, error: &Error) -> (w: WireErrorValue)
    ensures
        w.code@ == spec_wire_error_code(opt_view(command), *error),
        w.message@ == error_message(*error),
        opt_string_view(w.detail.command) == opt_view(command),
        w.detail.reason matches Some(r) && r@ == spec_wire_error_reason(*error),
{
    let code = wire_error_code_for_command(command, error);
    WireErrorValue {
        code: owned(code),
        message: error.message(),
        detail: WireErrorDetail { command: owned_opt(command), reason: Some(wire_error_reason(error)) },
    }
}

pub fn error_to_wire_value_for_command(command: Option<&str>, error: Error) -> (w: WireErrorValue)
    ensures
        w.code@ == spec_wire_error_code(opt_view(command), error),
        w.message@ == error_message(error),
        opt_string_view(w.detail.command) == opt_view(command),
        w.detail.reason matches Some(r) && r@ == spec_wire_error_reason(error),
{
    error_to_wire_value_ref(command, &error)
}

/// A wire error raised by the facade's request bridge itself.
pub fn worker_bridge_wire_error(code: &str, message: &str, command: Option<&str>) -> (w:
    WireErrorValue)
    ensures
        w.code@ == code@,
        w.message@ == message@,
        opt_string_view(w.detail.command) == opt_view(command),
        w.detail.reason is None,
{
    WireErrorValue {
        code: owned(code),
        message: owned(message),
        detail: WireErrorDetail { command: owned_opt(command), reason: None },
    }
}

/// A bridge wire error carrying an error of this crate.
pub fn worker_bridge_error_from_error(command: Option<&str>, error: Error) -> (w: WireErrorValue)
    ensures
        w.code@ == spec_wire_error_code(opt_view(command), error),
        w.message@ == error_message(error),
        opt_string_view(w.detail.command) == opt_view(command),
        w.detail.reason is None,
{
    let code = wire_error_code_for_command(command, &error);
    let message = error.message();
    worker_bridge_wire_error(code, message.as_str(), command)
}

/// What can be read off a JavaScript error value: the value itself when it
/// is a string, the name and message of an `Error` object, the `name` and
/// `message` properties of another object, and its JSON text.
#[derive(Debug)]
pub struct JsErrorParts {
    pub as_string: Option<String>,
    pub error_object: Option<(String, String)>,
    pub name_property: Option<String>,
    pub message_property: Option<String>,
    pub json: Option<String>,
}

pub open spec fn nonempty(s: Option<String>) -> bool {
    s matches Some(x) && x@.len() > 0
}

/// The text a JavaScript error value reads as: a string as it is; an `Error`
/// object as its message (when its name is empty or `Error`), its name (when
/// its message is empty) or `name: message`; another object by its `name`
/// and `message` properties in the same way; else its JSON text unless that
/// is empty, `null` or `{}`; else a fixed text.
pub open spec fn js_error_text_spec(p: JsErrorParts) -> Seq<char> {
    if p.as_string is Some {
        p.as_string->0@
    } else if p.error_object is Some {
        let (name, message) = p.error_object->0;
        if name@.len() == 0 || name@ == "Error"@ {
            message@
        } else if message@.len() == 0 {
            name@
        } else {
            name@ + ": "@ + message@
        }
    } else if nonempty(p.name_property) && nonempty(p.message_property) {
        p.name_property->0@ + ": "@ + p.message_property->0@
    } else if nonempty(p.name_property) {
        p.name_property->0@
    } else if nonempty(p.message_property) {
        p.message_property->0@
    } else if p.json matches Some(j) && j@.len() > 0 && j@ != "null"@ && j@ != "{}"@ {
        p.json->0@
    } else {
        "unknown JavaScript error"@
    }
}

fn is_nonempty(s: &Option<String>) -> (b: bool)
    ensures
        b == nonempty(*s),
{
    match s {
        Some(x) => !x.as_str().is_empty(),
        None => false,
    }
}

pub fn js_error_text(parts: JsErrorParts) -> (r: String)
    ensures
        r@ == js_error_text_spec(parts),
{
    if let Some(s) = parts.as_string {
        return s;
    }
    if let Some((name, message)) = parts.error_object {
        if name.as_str().is_empty() || str_eq(name.as_str(), "Error") {
            return message;
        } else if message.as_str().is_empty() {
            return name;
        } else {
            return crate::text::concat3(name.as_str(), ": ", message.as_str());
        }
    }
    let has_name = is_nonempty(&parts.name_property);
    let has_message = is_nonempty(&parts.message_property);
    if has_name && has_message {
        match (parts.name_property, parts.message_property) {
            (Some(n), Some(m)) => {
                return crate::text::concat3(n.as_str(), ": ", m.as_str());
            },
            _ => {},
        }
    } else if has_name {
        match parts.name_property {
            Some(n) => {
                return n;
            },
            None => {},
        }
    } else if has_message {
        match parts.message_property {
            Some(m) => {
                return m;
            },
            None => {},
        }
    }
    match parts.json {
        Some(j) => {
            if !j.as_str().is_empty() && !str_eq(j.as_str(), "null") && !str_eq(j.as_str(), "{}") {
                return j;
            }
        },
        None => {},
    }
    owned("unknown JavaScript error")
}

} // verus!
