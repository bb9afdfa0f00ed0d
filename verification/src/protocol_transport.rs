//! Preparing a WebRTC transport for a worker-owned protocol connection: the
//! preparations waiting for their session to settle, and what each settled
//! session means for the preparation.

use vstd::prelude::*;
use crate::keyed_table::KeyedTable;
use crate::main_rtc::{
    BrowserWorkerError, BrowserWorkerErrorCode, BrowserWorkerWireError, WorkerSessionKey,
};
use crate::signaling::BootstrapTransportIntent;
use crate::text::str_eq;

verus! {

/// A preparation waiting for its session: how to answer it, the remote
/// endpoint, and the intent of the dial.
pub struct PendingProtocolTransportPrepare<S, R> {
    pub sender: S,
    pub remote: R,
    pub transport_intent: BootstrapTransportIntent,
}

/// The state of a session as reported in a result.
#[derive(Debug)]
pub struct PendingPrepareResultSession<D> {
    pub dial_id: Option<D>,
    pub resolved_transport: Option<String>,
    pub channel_attachment: Option<String>,
    pub lifecycle: Option<String>,
}

/// What a settled session means for a preparation.
#[derive(Debug, Clone, Copy, PartialEq, Eq, Structural)]
pub enum PendingPrepareAction {
    WebRtc,
    Relay,
    Fail,
    Closed,
}

pub open spec fn is_text(s: Option<String>, t: Seq<char>) -> bool {
    s matches Some(x) && x@ == t
}

/// The action a session state calls for, if it is settled: an open data
/// channel means WebRTC; a relay transport or lifecycle means relay; a
/// failed lifecycle or channel means failure; a closed one means closed.
pub open spec fn spec_prepare_action<D>(s: PendingPrepareResultSession<D>) -> Option<PendingPrepareAction> {
    if is_text(s.channel_attachment, "open"@) {
        Some(PendingPrepareAction::WebRtc)
    } else if is_text(s.resolved_transport, "irohRelay"@) || is_text(s.lifecycle, "relaySelected"@) {
        Some(PendingPrepareAction::Relay)
    } else if is_text(s.lifecycle, "failed"@) || is_text(s.channel_attachment, "failed"@) {
        Some(PendingPrepareAction::Fail)
    } else if is_text(s.lifecycle, "closed"@) || is_text(s.channel_attachment, "closed"@) {
        Some(PendingPrepareAction::Closed)
    } else {
        None
    }
}

fn text_is(s: &Option<String>, t: &str) -> (b: bool)
    ensures
        b == is_text(*s, t@),
{
    match s {
        Some(x) => str_eq(x.as_str(), t),
        None => false,
    }
}

pub fn pending_prepare_action_from_session<D>(session: &PendingPrepareResultSession<D>) -> (r: Option<
    PendingPrepareAction,
>)
    ensures
        r == spec_prepare_action(*session),
{
    if text_is(&session.channel_attachment, "open") {
        Some(PendingPrepareAction::WebRtc)
    } else if text_is(&session.resolved_transport, "irohRelay") || text_is(&session.lifecycle, "relaySelected") {
        Some(PendingPrepareAction::Relay)
    } else if text_is(&session.lifecycle, "failed") || text_is(&session.channel_attachment, "failed") {
        Some(PendingPrepareAction::Fail)
    } else if text_is(&session.lifecycle, "closed") || text_is(&session.channel_attachment, "closed") {
        Some(PendingPrepareAction::Closed)
    } else {
        None
    }
}

/// How a preparation is answered.
#[derive(Debug)]
pub enum PrepareResolution<R, D> {
    /// Register the WebRTC session of `dial_id` as the path to `remote`;
    /// the preparation is answered with the outcome of that.
    AddSessionAddr { remote: R, dial_id: D },
    /// The preparation succeeded.
    Ready,
    Failed(BrowserWorkerError),
}

pub open spec fn fails_with<R, D>(r: PrepareResolution<R, D>, code: BrowserWorkerErrorCode, message: Seq<char>) -> bool {
    r matches PrepareResolution::Failed(e) && e.code == code && e.message@ == message
}

/// The answer a preparation with this remote and intent gets for a session
/// that calls for `action`.
pub open spec fn resolution_for<R, D>(
    action: PendingPrepareAction,
    remote: R,
    intent: BootstrapTransportIntent,
    dial_id: Option<D>,
    r: PrepareResolution<R, D>,
) -> bool {
    match action {
        PendingPrepareAction::WebRtc => match dial_id {
            Some(d) => r == (PrepareResolution::AddSessionAddr::<R, D> { remote, dial_id: d }),
            None => fails_with(r, BrowserWorkerErrorCode::WebRtcFailed,
                "prepared WebRTC session is missing dial id"@),
        },
        PendingPrepareAction::Relay => if intent is WebRtcOnly {
            fails_with(r, BrowserWorkerErrorCode::WebRtcFailed,
                "WebRTC-only protocol transport preparation resolved to relay"@)
        } else {
            r is Ready
        },
        PendingPrepareAction::Fail => fails_with(r, BrowserWorkerErrorCode::WebRtcFailed,
            "WebRTC protocol transport preparation failed"@),
        PendingPrepareAction::Closed => fails_with(r, BrowserWorkerErrorCode::Closed,
            "browser worker node is closed"@),
    }
}

/// A session that settled on the relay path completes the preparation
/// exactly when the dial's intent allows relay fallback, that is for every
/// intent but WebRTC-only; for WebRTC-only it fails.
pub proof fn law_relay_resolution_follows_intent<R, D>(
    remote: R,
    intent: BootstrapTransportIntent,
    dial_id: Option<D>,
    r: PrepareResolution<R, D>,
)
    requires
        resolution_for(PendingPrepareAction::Relay, remote, intent, dial_id, r),
    ensures
        (r is Ready) <==> !(intent is WebRtcOnly),
        (r is Failed) <==> (intent is WebRtcOnly),
{
}

/// What each settled session means for the answer a preparation gets: it is
/// answered `Ready` only when the session went to the relay path and the
/// intent allows that; a failed session always fails with `WebRtcFailed`, a
/// closed one with `Closed`, and an open data channel either registers the
/// session's address or fails with `WebRtcFailed`.
pub proof fn law_resolution_follows_action<R, D>(
    action: PendingPrepareAction,
    remote: R,
    intent: BootstrapTransportIntent,
    dial_id: Option<D>,
    r: PrepareResolution<R, D>,
)
    requires
        resolution_for(action, remote, intent, dial_id, r),
    ensures
        (r is Ready) ==> action == PendingPrepareAction::Relay && !(intent is WebRtcOnly),
        (r is AddSessionAddr) ==> action == PendingPrepareAction::WebRtc && dial_id is Some,
        action == PendingPrepareAction::Fail ==> (r matches PrepareResolution::Failed(e) && e.code
            == BrowserWorkerErrorCode::WebRtcFailed),
        action == PendingPrepareAction::Closed ==> (r matches PrepareResolution::Failed(e) && e.code
            == BrowserWorkerErrorCode::Closed),
        action == PendingPrepareAction::WebRtc ==> (r is AddSessionAddr || (r matches PrepareResolution::Failed(e)
            && e.code == BrowserWorkerErrorCode::WebRtcFailed)),
        action == PendingPrepareAction::Relay ==> (r is Ready || (r matches PrepareResolution::Failed(e)
            && e.code == BrowserWorkerErrorCode::WebRtcFailed)),
{
}

/// A session whose lifecycle failed, with no open data channel and no
/// relay path, calls for failure, and so does a failed data channel without
/// an open one or a relay path.
pub proof fn law_failed_session_calls_for_failure<D>(s: PendingPrepareResultSession<D>)
    ensures
        !is_text(s.channel_attachment, "open"@) && !is_text(s.resolved_transport, "irohRelay"@)
            && !is_text(s.lifecycle, "relaySelected"@) && (is_text(s.lifecycle, "failed"@)
            || is_text(s.channel_attachment, "failed"@)) ==> spec_prepare_action(s) == Some(
            PendingPrepareAction::Fail,
        ),
        is_text(s.channel_attachment, "open"@) ==> spec_prepare_action(s) == Some(PendingPrepareAction::WebRtc),
{
}

/// A result arrived for a session: when it names a session key and a
/// settled session for which a preparation waits, the preparation leaves
/// the table and is handed back with its answer; otherwise nothing happens.
/// A session key that is not a valid key fails (and drops the preparation).
pub fn complete_pending_protocol_transport_prepare_from_result<S, R, D>(
    prepares: &mut KeyedTable<String, PendingProtocolTransportPrepare<S, R>>,
    session_key: Option<String>,
    session: Option<PendingPrepareResultSession<D>>,
) -> (r: Result<Option<(S, PrepareResolution<R, D>)>, BrowserWorkerWireError>)
    requires
        old(prepares).wf(),
    ensures
        final(prepares).wf(),
        match (session_key, session) {
            (Some(key), Some(s)) => match spec_prepare_action(s) {
                Some(action) => {
                    &&& final(prepares).view() == old(prepares).view().remove(key@)
                    &&& if !old(prepares).view().contains_key(key@) {
                        r matches Ok(None)
                    } else if key@.len() == 0 {
                        r matches Err(e) && e.code == BrowserWorkerErrorCode::WebRtcFailed
                            && e.message@ == "session key must not be empty"@
                    } else {
                        let p = old(prepares).view()[key@];
                        r matches Ok(Some((sender, res))) && sender == p.sender
                            && resolution_for(action, p.remote, p.transport_intent, s.dial_id, res)
                    }
                },
                None => r matches Ok(None) && final(prepares).view() == old(prepares).view(),
            },
            _ => r matches Ok(None) && final(prepares).view() == old(prepares).view(),
        },
{
    let Some(session_key) = session_key else {
        return Ok(None);
    };
    let Some(session) = session else {
        return Ok(None);
    };
    let Some(action) = pending_prepare_action_from_session(&session) else {
        return Ok(None);
    };
    let Some(pending) = prepares.remove(&session_key) else {
        return Ok(None);
    };
    if let Err(err) = WorkerSessionKey::new(session_key) {
        return Err(err.wire_error());
    }
    let resolution = match action {
        PendingPrepareAction::WebRtc => match session.dial_id {
            Some(dial_id) => PrepareResolution::AddSessionAddr { remote: pending.remote, dial_id },
            None => PrepareResolution::Failed(
                BrowserWorkerError::new(
                    BrowserWorkerErrorCode::WebRtcFailed,
                    "prepared WebRTC session is missing dial id",
                ),
            ),
        },
        PendingPrepareAction::Relay => if pending.transport_intent.allows_iroh_relay_fallback() {
            PrepareResolution::Ready
        } else {
            PrepareResolution::Failed(
                BrowserWorkerError::new(
                    BrowserWorkerErrorCode::WebRtcFailed,
                    "WebRTC-only protocol transport preparation resolved to relay",
                ),
            )
        },
        PendingPrepareAction::Fail => PrepareResolution::Failed(
            BrowserWorkerError::new(
                BrowserWorkerErrorCode::WebRtcFailed,
                "WebRTC protocol transport preparation failed",
            ),
        ),
        PendingPrepareAction::Closed => PrepareResolution::Failed(BrowserWorkerError::closed()),
    };
    Ok(Some((pending.sender, resolution)))
}

/// Starts waiting for the session of a preparation: the session key must
/// not be empty; the preparation and the session's signal writer are
/// recorded under it (replacing what was there), and the cleanup that
/// removes both again is handed back.
pub fn begin_protocol_transport_prepare<S, R, W>(
    prepares: &mut KeyedTable<String, PendingProtocolTransportPrepare<S, R>>,
    signal_senders: &mut KeyedTable<String, W>,
    session_key: String,
    writer: W,
    prepare: PendingProtocolTransportPrepare<S, R>,
) -> (r: Result<PendingProtocolTransportPrepareCleanup, BrowserWorkerError>)
    requires
        old(prepares).wf(),
        old(signal_senders).wf(),
    ensures
        final(prepares).wf(),
        final(signal_senders).wf(),
        session_key@.len() == 0 ==> {
            &&& r matches Err(e) && e.code == BrowserWorkerErrorCode::WebRtcFailed
                && e.message@ == "session key must not be empty"@
            &&& final(prepares).view() == old(prepares).view()
            &&& final(signal_senders).view() == old(signal_senders).view()
        },
        session_key@.len() > 0 ==> {
            &&& r matches Ok(c) && c.key() == session_key@
            &&& final(prepares).view() == old(prepares).view().insert(session_key@, prepare)
            &&& final(signal_senders).view() == old(signal_senders).view().insert(session_key@, writer)
        },
{
    let key = match WorkerSessionKey::new(session_key) {
        Ok(k) => k,
        Err(e) => return Err(e),
    };
    let text = crate::text::owned(key.as_str());
    let _ = signal_senders.insert(crate::text::owned(key.as_str()), writer);
    let _ = prepares.insert(crate::text::owned(key.as_str()), prepare);
    Ok(PendingProtocolTransportPrepareCleanup::new(text))
}

/// The cleanup of a preparation undoes its beginning: whatever the tables
/// held under other keys stays, and nothing is left under its key.
pub proof fn law_cleanup_undoes_begin<A, B>(
    prepares: Map<Seq<char>, A>,
    signal_senders: Map<Seq<char>, B>,
    key: Seq<char>,
    prepare: A,
    writer: B,
)
    ensures
        prepares.insert(key, prepare).remove(key) == prepares.remove(key),
        signal_senders.insert(key, writer).remove(key) == signal_senders.remove(key),
        !prepares.insert(key, prepare).remove(key).contains_key(key),
{
    assert(prepares.insert(key, prepare).remove(key) =~= prepares.remove(key));
    assert(signal_senders.insert(key, writer).remove(key) =~= signal_senders.remove(key));
}

/// Removes, when a preparation ends by any path, what it left behind under
/// its session key: the waiting preparation and the signal writer.
pub struct PendingProtocolTransportPrepareCleanup {
    session_key: String,
}

impl PendingProtocolTransportPrepareCleanup {
    pub closed spec fn key(&self) -> Seq<char> {
        self.session_key@
    }

    pub fn new(session_key: String) -> (c: Self)
        ensures
            c.key() == session_key@,
    {
        PendingProtocolTransportPrepareCleanup { session_key }
    }

    pub fn release<A, B>(
        &self,
        prepares: &mut KeyedTable<String, A>,
        signal_senders: &mut KeyedTable<String, B>,
    )
        requires
            old(prepares).wf(),
            old(signal_senders).wf(),
        ensures
            final(prepares).wf(),
            final(signal_senders).wf(),
            final(prepares).view() == old(prepares).view().remove(self.key()),
            final(signal_senders).view() == old(signal_senders).view().remove(self.key()),
    {
        let _ = prepares.remove(&self.session_key);
        let _ = signal_senders.remove(&self.session_key);
    }
}

} // verus!
