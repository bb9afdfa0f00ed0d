//! The crate's error type, its human-readable message and the I/O error kind
//! it maps to.

use vstd::prelude::*;
use vstd::string::*;
use crate::text::owned;

verus! {

#[derive(Debug)]
pub enum Error {
    InvalidAddr(&'static str),
    InvalidFrame(&'static str),
    PayloadTooLarge { actual: usize, max: usize },
    UnknownSession,
    SessionClosed,
    SendQueueFull,
    BrowserWebRtcUnavailable,
    WebRtc(String),
    InvalidIceConfig(&'static str),
    InvalidConfig(&'static str),
}

/// The kind of `std::io::Error` that an [`Error`] converts into.
#[derive(Debug, Clone, Copy, PartialEq, Eq, Structural)]
pub enum IoErrorKind {
    InvalidInput,
    NotConnected,
    WouldBlock,
    Unsupported,
    Other,
}

pub open spec fn spec_io_error_kind(e: Error) -> IoErrorKind {
    match e {
        Error::InvalidAddr(_) | Error::InvalidFrame(_) | Error::PayloadTooLarge { .. } => {
            IoErrorKind::InvalidInput
        },
        Error::UnknownSession | Error::SessionClosed => IoErrorKind::NotConnected,
        Error::SendQueueFull => IoErrorKind::WouldBlock,
        Error::BrowserWebRtcUnavailable => IoErrorKind::Unsupported,
        Error::WebRtc(_) | Error::InvalidIceConfig(_) | Error::InvalidConfig(_) => {
            IoErrorKind::Other
        },
    }
}

/// Decimal digits of a natural number, most significant first.
pub open spec fn decimal(n: nat) -> Seq<char>
    decreases n,
{
    if n < 10 {
        seq![digit_char(n)]
    } else {
        decimal(n / 10).push(digit_char(n % 10))
    }
}

pub open spec fn digit_char(d: nat) -> char {
    if d == 0 { '0' }
    else if d == 1 { '1' }
    else if d == 2 { '2' }
    else if d == 3 { '3' }
    else if d == 4 { '4' }
    else if d == 5 { '5' }
    else if d == 6 { '6' }
    else if d == 7 { '7' }
    else if d == 8 { '8' }
    else { '9' }
}

/// The text that the error displays.
pub open spec fn error_message(e: Error) -> Seq<char> {
    match e {
        Error::InvalidAddr(s) => "invalid WebRTC custom address: "@ + s@,
        Error::InvalidFrame(s) => "invalid WebRTC frame: "@ + s@,
        Error::PayloadTooLarge { actual, max } => "payload length "@ + decimal(actual as nat)
            + " exceeds maximum "@ + decimal(max as nat),
        Error::UnknownSession => "unknown WebRTC session"@,
        Error::SessionClosed => "WebRTC session is closed"@,
        Error::SendQueueFull => "WebRTC send queue is full"@,
        Error::BrowserWebRtcUnavailable => "browser WebRTC APIs are only available on wasm32-unknown-unknown"@,
        Error::WebRtc(s) => "browser WebRTC operation failed: "@ + s@,
        Error::InvalidIceConfig(s) => "invalid WebRTC ICE configuration: "@ + s@,
        Error::InvalidConfig(s) => "invalid WebRTC configuration: "@ + s@,
    }
}

/// Renders `n` in decimal with `usize`'s `ToString` (its `Display`: decimal
/// digits, no sign, no leading zeros).
#[verifier::external_body]
pub(crate) fn usize_to_decimal(n: usize) -> (r: String)
    ensures
        r@ == decimal(n as nat),
{
    n.to_string()
}

impl Error {
    /// The I/O error kind this error converts into.
    pub fn io_error_kind(&self) -> (k: IoErrorKind)
        ensures
            k == spec_io_error_kind(*self),
    {
        match self {
            Error::InvalidAddr(_) | Error::InvalidFrame(_) | Error::PayloadTooLarge { .. } => {
                IoErrorKind::InvalidInput
            },
            Error::UnknownSession | Error::SessionClosed => IoErrorKind::NotConnected,
            Error::SendQueueFull => IoErrorKind::WouldBlock,
            Error::BrowserWebRtcUnavailable => IoErrorKind::Unsupported,
            Error::WebRtc(_) | Error::InvalidIceConfig(_) | Error::InvalidConfig(_) => {
                IoErrorKind::Other
            },
        }
    }

    /// The human-readable text of the error.
    pub fn message(&self) -> (r: String)
        ensures
            r@ == error_message(*self),
    {
        match self {
            Error::InvalidAddr(s) => {
                let mut r = owned("invalid WebRTC custom address: ");
                r.append(s);
                r
            },
            Error::InvalidFrame(s) => {
                let mut r = owned("invalid WebRTC frame: ");
                r.append(s);
                r
            },
            Error::PayloadTooLarge { actual, max } => {
                let mut r = owned("payload length ");
                let a = usize_to_decimal(*actual);
                r.append(a.as_str());
                r.append(" exceeds maximum ");
                let m = usize_to_decimal(*max);
                r.append(m.as_str());
                r
            },
            Error::UnknownSession => owned("unknown WebRTC session"),
            Error::SessionClosed => owned("WebRTC session is closed"),
            Error::SendQueueFull => owned("WebRTC send queue is full"),
            Error::BrowserWebRtcUnavailable => owned(
                "browser WebRTC APIs are only available on wasm32-unknown-unknown",
            ),
            Error::WebRtc(s) => {
                let mut r = owned("browser WebRTC operation failed: ");
                r.append(s.as_str());
                r
            },
            Error::InvalidIceConfig(s) => {
                let mut r = owned("invalid WebRTC ICE configuration: ");
                r.append(s);
                r
            },
            Error::InvalidConfig(s) => {
                let mut r = owned("invalid WebRTC configuration: ");
                r.append(s);
                r
            },
        }
    }
}

} // verus!
