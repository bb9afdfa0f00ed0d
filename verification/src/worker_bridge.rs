//! The decisions of the facade's bridge to its runtime worker: which
//! payloads a request may carry, what a message from the worker means for
//! the requests in flight, and the errors pending requests are failed with.

use vstd::prelude::*;
use crate::js_wire::{WireErrorValue, opt_string_view, opt_view, worker_bridge_wire_error};
use crate::request_tracker::WorkerRequestBook;
use crate::rtc_control_wire::RtcControlPayload;
use crate::text::{concat3, str_eq};

verus! {

/// The payload a request to the worker goes out with: a missing payload
/// stands for the empty object (`None`), an object goes as it is, anything
/// else is refused.
pub fn worker_request_payload<P>(payload: Option<RtcControlPayload<P>>, command: &str) -> (r: Result<
    Option<P>,
    WireErrorValue,
>)
    ensures
        match payload {
            None => r matches Ok(None),
            Some(RtcControlPayload::Object(p)) => r == Ok::<Option<P>, WireErrorValue>(Some(p)),
            Some(RtcControlPayload::NotObject) => r matches Err(w) && {
                &&& w.code@ == "webrtcFailed"@
                &&& w.message@ == "malformed payload for "@ + command@ + ": payload must be an object"@
                &&& opt_string_view(w.detail.command) == Some(command@)
                &&& w.detail.reason is None
            },
        },
{
    match payload {
        None => Ok(None),
        Some(RtcControlPayload::Object(p)) => Ok(Some(p)),
        Some(RtcControlPayload::NotObject) => {
            let m = concat3("malformed payload for ", command, ": payload must be an object");
            Err(worker_bridge_wire_error("webrtcFailed", m.as_str(), Some(command)))
        },
    }
}

/// The message a worker error event reports: its own message when it has a
/// non-empty one, the fallback otherwise.
pub open spec fn reported_message(message: Option<Seq<char>>, fallback: Seq<char>) -> Seq<char> {
    match message {
        Some(m) => if m.len() > 0 { m } else { fallback },
        None => fallback,
    }
}

pub fn worker_error_message(message: Option<String>, fallback: &str) -> (r: String)
    ensures
        r@ == reported_message(opt_string_view(message), fallback@),
{
    match message {
        Some(m) => if m.as_str().is_empty() {
            crate::text::owned(fallback)
        } else {
            m
        },
        None => crate::text::owned(fallback),
    }
}

/// What pending requests are failed with when the worker crashes.
pub fn worker_crashed_error(message: Option<String>) -> (w: WireErrorValue)
    ensures
        w.code@ == "spawnFailed"@,
        w.message@ == reported_message(opt_string_view(message), "browser WebRTC worker crashed"@),
        w.detail.command is None,
        w.detail.reason is None,
{
    let m = worker_error_message(message, "browser WebRTC worker crashed");
    worker_bridge_wire_error("spawnFailed", m.as_str(), None)
}

/// What pending requests are failed with when the worker sends a message
/// that cannot be read.
pub fn worker_invalid_message_error() -> (w: WireErrorValue)
    ensures
        w.code@ == "webrtcFailed"@,
        w.message@ == "browser WebRTC worker sent an invalid message"@,
        w.detail.command is None,
        w.detail.reason is None,
{
    worker_bridge_wire_error("webrtcFailed", "browser WebRTC worker sent an invalid message", None)
}

/// What pending requests are failed with when the node is closed.
pub fn node_shut_down_error() -> (w: WireErrorValue)
    ensures
        w.code@ == "closed"@,
        w.message@ == "WebRTC Iroh browser node shut down"@,
        w.detail.command is None,
        w.detail.reason is None,
{
    worker_bridge_wire_error("closed", "WebRTC Iroh browser node shut down", None)
}

/// What a message from the worker calls for.
pub enum WorkerMessageAction<P> {
    /// Answer a request in flight: resolve it when `ok`, reject it otherwise.
    Settle { answer: P, ok: bool },
    /// Refuse a request the worker sent over the worker channel.
    RefuseWorkerRequest { id: u64, error: WireErrorValue },
    /// Nothing to do.
    Ignore,
}

/// A request is answered at most once: after a response settled request
/// `id`, nothing waits under `id` any more, so a second response for it is
/// ignored.
pub proof fn law_request_answered_at_most_once<P>(waiting: Map<u64, P>, id: u64)
    ensures
        !waiting.remove(id).contains_key(id),
{
}

/// Whether a message is handled as a response: a `response` kind, or no
/// kind at all but an id.
pub open spec fn is_response(kind: Option<Seq<char>>, id: Option<u64>) -> bool {
    match kind {
        Some(k) => k == "response"@,
        None => id is Some,
    }
}

impl<P> WorkerRequestBook<P> {
    /// Handles a message from the worker, given its kind, id, `ok` flag and
    /// command as read from it: a response settles the request it answers
    /// (once; a response for a request no longer waiting is ignored); a
    /// request is refused, since such requests travel over the RTC control
    /// port; anything else is ignored.
    pub fn on_worker_message(
        &mut self,
        kind: Option<&str>,
        id: Option<u64>,
        ok: bool,
        command: Option<&str>,
    ) -> (r: WorkerMessageAction<P>)
        requires
            old(self).wf(),
        ensures
            final(self).wf(),
            is_response(opt_view(kind), id) ==> match id {
                Some(i) => {
                    &&& final(self).waiting() == old(self).waiting().remove(i)
                    &&& if old(self).waiting().contains_key(i) {
                        &&& r matches WorkerMessageAction::Settle { answer, ok: o }
                        &&& answer == old(self).waiting()[i]
                        &&& o == ok
                        &&& final(self).ids().pending == old(self).ids().pending.remove(i)
                    } else {
                        r is Ignore && final(self).ids() == old(self).ids()
                    }
                },
                None => r is Ignore && *final(self) == *old(self),
            },
            opt_view(kind) == Some("request"@) ==> *final(self) == *old(self) && match id {
                Some(i) => r matches WorkerMessageAction::RefuseWorkerRequest { id: rid, error } && {
                    &&& rid == i
                    &&& error.code@ == "webrtcFailed"@
                    &&& error.message@ == "worker-to-main RTC requests must use the Wasm RTC control port"@
                    &&& opt_string_view(error.detail.command) == opt_view(command)
                    &&& error.detail.reason is None
                },
                None => r is Ignore,
            },
            !is_response(opt_view(kind), id) && opt_view(kind) != Some("request"@) ==> r is Ignore
                && *final(self) == *old(self),
    {
        proof {
            reveal_strlit("response");
            reveal_strlit("request");
            assert("response"@[2] != "request"@[2]);
        }
        let (respond, refuse) = match kind {
            Some(k) => (str_eq(k, "response"), str_eq(k, "request")),
            None => (id.is_some(), false),
        };
        if respond {
            let Some(i) = id else {
                return WorkerMessageAction::Ignore;
            };
            match self.settle(i) {
                Some(answer) => WorkerMessageAction::Settle { answer, ok },
                None => WorkerMessageAction::Ignore,
            }
        } else if refuse {
            match id {
                Some(i) => WorkerMessageAction::RefuseWorkerRequest {
                    id: i,
                    error: worker_bridge_wire_error(
                        "webrtcFailed",
                        "worker-to-main RTC requests must use the Wasm RTC control port",
                        command,
                    ),
                },
                None => WorkerMessageAction::Ignore,
            }
        } else {
            WorkerMessageAction::Ignore
        }
    }
}

} // verus!
