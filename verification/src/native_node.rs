//! The decisions of the native facade node: which path a dial takes, the
//! node's own state (open or closed, accept queues by ALPN, tracked
//! sessions), how each side of a WebRTC bootstrap reacts to the signals it
//! receives, and which transport path an application connection selected.

use vstd::prelude::*;
use vstd::string::*;
use vstd::utf8::{decode_utf8, encode_utf8, valid_utf8};
use crate::js_wire::opt_string_view;
use crate::keyed_table::{KeyedTable, TableKey};
use crate::signaling::{
    BootstrapTransportIntent, DialCoordinator, WebRtcIceCandidate, WebRtcSignal, coordinator_accepts,
    ensure_signal_route, terminal_error, terminal_error_message,
};
use crate::text::{owned, str_eq, utf8_string};

verus! {

/// The path a native dial starts on.
#[derive(Debug, Clone, Copy, PartialEq, Eq, Structural)]
pub enum NativeDialPlan {
    /// Connect over the plain Iroh endpoint.
    Iroh,
    /// Bootstrap WebRTC first.
    WebRtc,
}

pub fn dial_plan(intent: BootstrapTransportIntent) -> (p: NativeDialPlan)
    ensures
        p == (if intent is IrohRelay { NativeDialPlan::Iroh } else { NativeDialPlan::WebRtc }),
{
    if intent.uses_webrtc() {
        NativeDialPlan::WebRtc
    } else {
        NativeDialPlan::Iroh
    }
}

/// After a failed WebRTC dial: whether to dial again over Iroh. Only when
/// the intent allows the relay path and the endpoint is still open.
pub fn falls_back_to_iroh(intent: BootstrapTransportIntent, endpoint_closed: bool) -> (b: bool)
    ensures
        b == (!(intent is WebRtcOnly) && !endpoint_closed),
{
    intent.allows_iroh_relay_fallback() && !endpoint_closed
}

/// The ALPN of a WebRTC dial as the text its dial request carries; it must
/// be valid UTF-8.
pub fn bootstrap_alpn_text(alpn: &[u8]) -> (r: Result<String, String>)
    ensures
        valid_utf8(alpn@) ==> (r matches Ok(s) && s@ == decode_utf8(alpn@)),
        !valid_utf8(alpn@) ==> (r matches Err(m) && m@
            == "native WebRTC bootstrap ALPN must be valid UTF-8"@),
{
    match utf8_string(alpn) {
        Some(s) => Ok(s),
        None => Err(owned("native WebRTC bootstrap ALPN must be valid UTF-8")),
    }
}

/// Where an incoming application connection goes.
pub enum IncomingRoute<'a, Q> {
    /// Serve it as a WebRTC bootstrap connection.
    Bootstrap,
    /// Queue it on this accept queue.
    Queue(&'a Q),
    /// Close it with this reason.
    Refuse(&'static str),
}

pub open spec fn node_closed_message() -> Seq<char> {
    "native WebRTC node is closed"@
}

/// The state of a native node: whether it is closed, the accept loops it
/// runs, the accept queue of each ALPN it accepts, and the WebRTC sessions
/// it tracks.
pub struct NativeNodeState<Q, S, H> {
    closed: bool,
    accept_abort: Option<H>,
    webrtc_accept_abort: Option<H>,
    accept_queues: KeyedTable<Vec<u8>, Q>,
    sessions: Vec<S>,
}

/// What closing a node leaves the caller to do: stop the accept loops and
/// close the sessions.
pub struct NativeCloseWork<H, S> {
    pub accept_abort: Option<H>,
    pub webrtc_accept_abort: Option<H>,
    pub sessions: Vec<S>,
}

impl<Q, S, H> NativeNodeState<Q, S, H> {
    pub closed spec fn wf(&self) -> bool {
        self.accept_queues.wf()
    }

    pub closed spec fn is_closed_spec(&self) -> bool {
        self.closed
    }

    /// The accept queue of each accepted ALPN.
    pub closed spec fn accept_queues(&self) -> Map<Seq<u8>, Q> {
        self.accept_queues.view()
    }

    /// The accepted ALPNs, in the order they were first accepted.
    pub closed spec fn accepted_alpns(&self) -> Seq<Seq<u8>> {
        self.accept_queues.entries().map_values(|e: (Seq<u8>, Q)| e.0)
    }

    pub closed spec fn sessions(&self) -> Seq<S> {
        self.sessions@
    }

    pub closed spec fn accept_aborts(&self) -> (Option<H>, Option<H>) {
        (self.accept_abort, self.webrtc_accept_abort)
    }

    pub fn new() -> (s: Self)
        ensures
            s.wf(),
            !s.is_closed_spec(),
            s.accept_queues() == Map::<Seq<u8>, Q>::empty(),
            s.accepted_alpns() == Seq::<Seq<u8>>::empty(),
            s.sessions() == Seq::<S>::empty(),
            s.accept_aborts() == (None::<H>, None::<H>),
    {
        let s = NativeNodeState {
            closed: false,
            accept_abort: None,
            webrtc_accept_abort: None,
            accept_queues: KeyedTable::new(),
            sessions: Vec::new(),
        };
        proof { assert(s.accepted_alpns() =~= Seq::<Seq<u8>>::empty()); }
        s
    }

    pub fn is_closed(&self) -> (b: bool)
        ensures
            b == self.is_closed_spec(),
    {
        self.closed
    }

    /// Records the handles of the two accept loops.
    pub fn set_accept_aborts(&mut self, accept: H, webrtc_accept: H)
        requires
            old(self).wf(),
        ensures
            final(self).wf(),
            final(self).accept_aborts() == (Some(accept), Some(webrtc_accept)),
            final(self).is_closed_spec() == old(self).is_closed_spec(),
            final(self).accept_queues() == old(self).accept_queues(),
            final(self).accepted_alpns() == old(self).accepted_alpns(),
            final(self).sessions() == old(self).sessions(),
    {
        self.accept_abort = Some(accept);
        self.webrtc_accept_abort = Some(webrtc_accept);
    }

    /// Fails once the node is closed.
    pub fn ensure_open(&self) -> (r: Result<(), String>)
        ensures
            self.is_closed_spec() ==> (r matches Err(m) && m@ == node_closed_message()),
            !self.is_closed_spec() ==> r is Ok,
    {
        if self.closed {
            Err(owned("native WebRTC node is closed"))
        } else {
            Ok(())
        }
    }

    /// Tracks a WebRTC session so that closing the node closes it.
    pub fn track_session(&mut self, session: S) -> (r: Result<(), String>)
        requires
            old(self).wf(),
        ensures
            final(self).wf(),
            final(self).is_closed_spec() == old(self).is_closed_spec(),
            final(self).accept_queues() == old(self).accept_queues(),
            final(self).accepted_alpns() == old(self).accepted_alpns(),
            final(self).accept_aborts() == old(self).accept_aborts(),
            old(self).is_closed_spec() ==> {
                &&& r matches Err(m) && m@ == node_closed_message()
                &&& final(self).sessions() == old(self).sessions()
            },
            !old(self).is_closed_spec() ==> {
                &&& r is Ok
                &&& final(self).sessions() == old(self).sessions().push(session)
            },
    {
        if self.closed {
            return Err(owned("native WebRTC node is closed"));
        }
        self.sessions.push(session);
        Ok(())
    }

    /// The accept queue of `alpn`, created from `fresh` the first time the
    /// ALPN is accepted; fails once the node is closed.
    pub fn accept_receiver(&mut self, alpn: Vec<u8>, fresh: Q) -> (r: Result<&Q, String>)
        requires
            old(self).wf(),
        ensures
            final(self).wf(),
            final(self).is_closed_spec() == old(self).is_closed_spec(),
            final(self).sessions() == old(self).sessions(),
            final(self).accept_aborts() == old(self).accept_aborts(),
            old(self).is_closed_spec() ==> {
                &&& r matches Err(m) && m@ == node_closed_message()
                &&& final(self).accept_queues() == old(self).accept_queues()
                &&& final(self).accepted_alpns() == old(self).accepted_alpns()
            },
            !old(self).is_closed_spec() && old(self).accept_queues().contains_key(alpn@) ==> {
                &&& final(self).accept_queues() == old(self).accept_queues()
                &&& final(self).accepted_alpns() == old(self).accepted_alpns()
                &&& r matches Ok(q) && *q == old(self).accept_queues()[alpn@]
            },
            !old(self).is_closed_spec() && !old(self).accept_queues().contains_key(alpn@) ==> {
                &&& final(self).accept_queues() == old(self).accept_queues().insert(alpn@, fresh)
                &&& final(self).accepted_alpns() == old(self).accepted_alpns().push(alpn@)
                &&& r matches Ok(q) && *q == fresh
            },
    {
        if self.closed {
            return Err(owned("native WebRTC node is closed"));
        }
        let key = alpn.copy_key();
        let _ = self.accept_queues.insert_new(alpn, fresh);
        proof {
            assert(self.accepted_alpns() =~= self.accept_queues.entries().map_values(
                |e: (Seq<u8>, Q)| e.0,
            ));
            if !old(self).accept_queues().contains_key(key@) {
                assert(self.accepted_alpns() =~= old(self).accepted_alpns().push(key@));
            }
        }
        match self.accept_queues.get(&key) {
            Some(q) => Ok(q),
            None => Err(owned("native WebRTC node is closed")),
        }
    }

    /// The accept queue an incoming connection for `alpn` goes to, if the
    /// ALPN is accepted.
    pub fn accept_queue_for(&self, alpn: &Vec<u8>) -> (r: Option<&Q>)
        requires
            self.wf(),
        ensures
            match r {
                Some(q) => self.accept_queues().contains_key(alpn@) && *q == self.accept_queues()[alpn@],
                None => !self.accept_queues().contains_key(alpn@),
            },
    {
        self.accept_queues.get(alpn)
    }

    /// Fails unless `alpn` is accepted.
    pub fn ensure_accepting_alpn(&self, alpn: &Vec<u8>) -> (r: Result<(), String>)
        requires
            self.wf(),
        ensures
            self.accept_queues().contains_key(alpn@) ==> r is Ok,
            !self.accept_queues().contains_key(alpn@) ==> (r matches Err(m) && m@
                == "no active native WebRTC accept registration for ALPN"@),
    {
        if self.accept_queues.contains_key(alpn) {
            Ok(())
        } else {
            Err(owned("no active native WebRTC accept registration for ALPN"))
        }
    }

    /// The ALPNs the WebRTC application endpoint accepts: the accepted ones.
    pub fn webrtc_alpns(&self) -> (r: Vec<Vec<u8>>)
        requires
            self.wf(),
        ensures
            r@.len() == self.accepted_alpns().len(),
            forall|i: int| 0 <= i < r@.len() ==> #[trigger] r@[i]@ == self.accepted_alpns()[i],
    {
        self.accept_queues.keys()
    }

    /// The ALPNs the bootstrap endpoint accepts: the bootstrap ALPN first,
    /// then the accepted ones.
    pub fn bootstrap_alpns(&self, bootstrap_alpn: &Vec<u8>) -> (r: Vec<Vec<u8>>)
        requires
            self.wf(),
        ensures
            r@.len() == self.accepted_alpns().len() + 1,
            r@[0]@ == bootstrap_alpn@,
            forall|i: int| 0 <= i < self.accepted_alpns().len() ==> #[trigger] r@[i + 1]@
                == self.accepted_alpns()[i],
    {
        let mut r: Vec<Vec<u8>> = Vec::new();
        r.push(bootstrap_alpn.copy_key());
        let keys = self.accept_queues.keys();
        let mut i: usize = 0;
        while i < keys.len()
            invariant
                i <= keys@.len(),
                r@.len() == i + 1,
                r@[0]@ == bootstrap_alpn@,
                forall|j: int| 0 <= j < i ==> #[trigger] r@[j + 1]@ == keys@[j]@,
            decreases keys@.len() - i,
        {
            r.push(keys[i].copy_key());
            i = i + 1;
        }
        r
    }

    /// Closes the node: the first call marks it closed, forgets the accept
    /// queues and hands back the accept loops and sessions for the caller to
    /// stop and close; later calls do nothing.
    pub fn begin_close(&mut self) -> (r: Option<NativeCloseWork<H, S>>)
        requires
            old(self).wf(),
        ensures
            final(self).wf(),
            final(self).is_closed_spec(),
            old(self).is_closed_spec() ==> r is None && *final(self) == *old(self),
            !old(self).is_closed_spec() ==> (r matches Some(w) && {
                &&& (w.accept_abort, w.webrtc_accept_abort) == old(self).accept_aborts()
                &&& w.sessions@ == old(self).sessions()
                &&& final(self).accept_aborts() == (None::<H>, None::<H>)
                &&& final(self).accept_queues() == Map::<Seq<u8>, Q>::empty()
                &&& final(self).accepted_alpns() == Seq::<Seq<u8>>::empty()
                &&& final(self).sessions() == Seq::<S>::empty()
            }),
    {
        if self.closed {
            return None;
        }
        self.closed = true;
        let accept_abort = self.accept_abort.take();
        let webrtc_accept_abort = self.webrtc_accept_abort.take();
        self.accept_queues.clear();
        let mut sessions: Vec<S> = Vec::new();
        std::mem::swap(&mut sessions, &mut self.sessions);
        proof { assert(self.accepted_alpns() =~= Seq::<Seq<u8>>::empty()); }
        Some(NativeCloseWork { accept_abort, webrtc_accept_abort, sessions })
    }

    /// Before the WebRTC application endpoint is rebound: fails once the node
    /// is closed; otherwise hands back the ALPNs to bind it with and the old
    /// accept loop, which the caller stops.
    pub fn begin_webrtc_endpoint_restart(&mut self) -> (r: Result<(Vec<Vec<u8>>, Option<H>), String>)
        requires
            old(self).wf(),
        ensures
            final(self).wf(),
            final(self).is_closed_spec() == old(self).is_closed_spec(),
            final(self).accept_queues() == old(self).accept_queues(),
            final(self).accepted_alpns() == old(self).accepted_alpns(),
            final(self).sessions() == old(self).sessions(),
            old(self).is_closed_spec() ==> (r matches Err(m) && m@ == node_closed_message())
                && *final(self) == *old(self),
            !old(self).is_closed_spec() ==> (r matches Ok((alpns, abort)) && {
                &&& abort == old(self).accept_aborts().1
                &&& final(self).accept_aborts() == (old(self).accept_aborts().0, None::<H>)
                &&& alpns@.len() == old(self).accepted_alpns().len()
                &&& forall|i: int| 0 <= i < alpns@.len() ==> #[trigger] alpns@[i]@
                    == old(self).accepted_alpns()[i]
            }),
    {
        if self.closed {
            return Err(owned("native WebRTC node is closed"));
        }
        let alpns = self.accept_queues.keys();
        let abort = self.webrtc_accept_abort.take();
        Ok((alpns, abort))
    }

    /// After the WebRTC application endpoint was rebound: records its accept
    /// loop, or hands the loop back when the node was closed meanwhile (the
    /// caller then stops it, closes the endpoint and fails).
    pub fn finish_webrtc_endpoint_restart(&mut self, webrtc_accept: H) -> (r: Result<(), H>)
        requires
            old(self).wf(),
        ensures
            final(self).wf(),
            final(self).is_closed_spec() == old(self).is_closed_spec(),
            final(self).accept_queues() == old(self).accept_queues(),
            final(self).accepted_alpns() == old(self).accepted_alpns(),
            final(self).sessions() == old(self).sessions(),
            old(self).is_closed_spec() ==> r == Err::<(), H>(webrtc_accept) && *final(self) == *old(self),
            !old(self).is_closed_spec() ==> r is Ok && final(self).accept_aborts() == (
                old(self).accept_aborts().0,
                Some(webrtc_accept),
            ),
    {
        if self.closed {
            return Err(webrtc_accept);
        }
        self.webrtc_accept_abort = Some(webrtc_accept);
        Ok(())
    }

    /// Where an incoming connection for `alpn` goes: on the bootstrap
    /// endpoint the bootstrap ALPN is served as a bootstrap, on the WebRTC
    /// application endpoint it is refused; any other ALPN is queued when it is
    /// accepted and refused otherwise.
    pub fn route_incoming<'a>(&'a self, alpn: &Vec<u8>, bootstrap_alpn: &Vec<u8>, on_webrtc_endpoint: bool) -> (r:
        IncomingRoute<'a, Q>)
        requires
            self.wf(),
        ensures
            alpn@ == bootstrap_alpn@ && !on_webrtc_endpoint ==> r is Bootstrap,
            alpn@ == bootstrap_alpn@ && on_webrtc_endpoint ==> (r matches IncomingRoute::Refuse(m) && m@
                == "bootstrap is not accepted on WebRTC app endpoint"@),
            alpn@ != bootstrap_alpn@ && self.accept_queues().contains_key(alpn@) ==> (r matches IncomingRoute::Queue(q)
                && *q == self.accept_queues()[alpn@]),
            alpn@ != bootstrap_alpn@ && !self.accept_queues().contains_key(alpn@) ==> (r matches IncomingRoute::Refuse(m)
                && m@ == "native facade ALPN is not accepting"@),
    {
        if alpn.same_key(bootstrap_alpn) {
            if on_webrtc_endpoint {
                IncomingRoute::Refuse("bootstrap is not accepted on WebRTC app endpoint")
            } else {
                IncomingRoute::Bootstrap
            }
        } else {
            match self.accept_queues.get(alpn) {
                Some(q) => IncomingRoute::Queue(q),
                None => IncomingRoute::Refuse("native facade ALPN is not accepting"),
            }
        }
    }

    /// What the answering node does with the first signal of a bootstrap
    /// connection: only a dial request addressed to `local` is served; one
    /// that does not use WebRTC is ignored, one for an ALPN the node does
    /// not accept is refused, and any other gets an answering coordinator.
    pub fn check_bootstrap_request(&self, local: &str, first: &WebRtcSignal) -> (r: Result<
        Option<DialCoordinator>,
        String,
    >)
        requires
            self.wf(),
        ensures
            match *first {
                WebRtcSignal::DialRequest { route, alpn, transport_intent } => {
                    if route.to@ != local@ {
                        r matches Err(m) && m@
                            == "native WebRTC bootstrap request was not addressed to this endpoint"@
                    } else if transport_intent is IrohRelay {
                        r matches Ok(None)
                    } else if !self.accept_queues().contains_key(encode_utf8(alpn@)) {
                        r matches Err(m) && m@ == "no active native WebRTC accept registration for ALPN"@
                    } else {
                        r matches Ok(Some(c)) && {
                            &&& c.local@ == local@
                            &&& c.remote@ == route.from@
                            &&& c.dial_id@ == route.dial_id@
                            &&& c.generation == route.generation
                            &&& c.transport_intent == transport_intent
                        }
                    }
                },
                _ => r matches Err(m) && m@
                    == "first native WebRTC bootstrap signal was not a dial request"@,
            },
    {
        match first {
            WebRtcSignal::DialRequest { route, alpn, transport_intent } => {
                if !str_eq(route.to.as_str(), local) {
                    return Err(
                        owned("native WebRTC bootstrap request was not addressed to this endpoint"),
                    );
                }
                if !transport_intent.uses_webrtc() {
                    return Ok(None);
                }
                let alpn_bytes = alpn.as_str().as_bytes_vec();
                self.ensure_accepting_alpn(&alpn_bytes)?;
                Ok(
                    Some(
                        DialCoordinator::respond_with_transport_intent(
                            local,
                            route,
                            *transport_intent,
                        ),
                    ),
                )
            },
            _ => Err(owned("first native WebRTC bootstrap signal was not a dial request")),
        }
    }
}


/// What the dialing side does with one signal from the answering side.
#[derive(Debug)]
pub enum DialerStep {
    ApplyAnswer { sdp: String },
    AddIceCandidate { ice: WebRtcIceCandidate },
    /// Add the end of the remote candidates; the exchange is over when
    /// `finished` holds.
    AddEndOfCandidates { finished: bool },
    Fail { message: String },
}

/// The dialing side's progress through the signals it receives.
pub struct DialerSignals {
    pub answered: bool,
}

pub open spec fn unexpected_answerer_signal() -> Seq<char> {
    "unexpected native WebRTC answerer signal"@
}

pub open spec fn unexpected_offerer_signal() -> Seq<char> {
    "unexpected native WebRTC offerer signal"@
}

pub open spec fn route_mismatch_message() -> Seq<char> {
    "native WebRTC bootstrap signal route did not match the session"@
}

impl DialerSignals {
    pub fn new() -> (d: Self)
        ensures
            !d.answered,
    {
        DialerSignals { answered: false }
    }

    /// Reacts to one signal: a signal of another dial fails the exchange;
    /// an answer is applied; candidates are added; the end of candidates
    /// finishes the exchange once the answer was applied; a terminal signal
    /// fails with its reason; anything else fails.
    pub fn on_signal(&mut self, coordinator: &DialCoordinator, signal: WebRtcSignal) -> (step: DialerStep)
        ensures
            !coordinator_accepts(*coordinator, signal) ==> (step matches DialerStep::Fail { message }
                && message@ == route_mismatch_message()) && final(self).answered == old(self).answered,
            coordinator_accepts(*coordinator, signal) ==> match signal {
                WebRtcSignal::Answer { sdp, .. } => step == (DialerStep::ApplyAnswer { sdp })
                    && final(self).answered,
                WebRtcSignal::IceCandidate { ice, .. } => step == (DialerStep::AddIceCandidate { ice })
                    && final(self).answered == old(self).answered,
                WebRtcSignal::EndOfCandidates { .. } => step == (DialerStep::AddEndOfCandidates {
                    finished: old(self).answered,
                }) && final(self).answered == old(self).answered,
                WebRtcSignal::Terminal { reason, message, .. } => (step matches DialerStep::Fail {
                    message: m,
                } && m@ == terminal_error_message(reason, opt_string_view(message)))
                    && final(self).answered == old(self).answered,
                _ => (step matches DialerStep::Fail { message } && message@
                    == unexpected_answerer_signal()) && final(self).answered == old(self).answered,
            },
    {
        if let Err(message) = ensure_signal_route(coordinator, &signal) {
            return DialerStep::Fail { message };
        }
        match signal {
            WebRtcSignal::Answer { sdp, .. } => {
                self.answered = true;
                DialerStep::ApplyAnswer { sdp }
            },
            WebRtcSignal::IceCandidate { ice, .. } => DialerStep::AddIceCandidate { ice },
            WebRtcSignal::EndOfCandidates { .. } => DialerStep::AddEndOfCandidates {
                finished: self.answered,
            },
            WebRtcSignal::Terminal { reason, message, .. } => DialerStep::Fail {
                message: terminal_error(reason, message),
            },
            _ => DialerStep::Fail { message: owned("unexpected native WebRTC answerer signal") },
        }
    }
}

/// What the answering side does with one signal from the dialing side.
#[derive(Debug)]
pub enum AnswererStep {
    /// Apply the offer, create an answer, send it, and start sending local
    /// candidates.
    AnswerOffer { sdp: String },
    /// Apply the offer and create an answer, then fail: the answer was
    /// already sent.
    ApplyOfferThenFail { sdp: String, message: String },
    AddIceCandidate { ice: WebRtcIceCandidate },
    /// Add the end of the remote candidates; the exchange is over (after the
    /// local candidates went out) when `finished` holds.
    AddEndOfCandidates { finished: bool },
    Fail { message: String },
}

/// The answering side's progress through the signals it receives.
pub struct AnswererSignals {
    pub offered: bool,
}

impl AnswererSignals {
    pub fn new() -> (a: Self)
        ensures
            !a.offered,
    {
        AnswererSignals { offered: false }
    }

    /// Reacts to one signal: a signal of another dial fails the exchange;
    /// the first offer is answered and a later one fails after being
    /// applied; candidates are added; the end of candidates finishes the
    /// exchange once an offer was answered; a terminal signal fails with its
    /// reason; anything else fails.
    pub fn on_signal(&mut self, coordinator: &DialCoordinator, signal: WebRtcSignal) -> (step: AnswererStep)
        ensures
            !coordinator_accepts(*coordinator, signal) ==> (step matches AnswererStep::Fail { message }
                && message@ == route_mismatch_message()) && final(self).offered == old(self).offered,
            coordinator_accepts(*coordinator, signal) ==> match signal {
                WebRtcSignal::Offer { sdp, .. } => final(self).offered && if old(self).offered {
                    step matches AnswererStep::ApplyOfferThenFail { sdp: d, message } && d == sdp
                        && message@ == "native WebRTC answer was already sent for this session"@
                } else {
                    step == (AnswererStep::AnswerOffer { sdp })
                },
                WebRtcSignal::IceCandidate { ice, .. } => step == (AnswererStep::AddIceCandidate { ice })
                    && final(self).offered == old(self).offered,
                WebRtcSignal::EndOfCandidates { .. } => step == (AnswererStep::AddEndOfCandidates {
                    finished: old(self).offered,
                }) && final(self).offered == old(self).offered,
                WebRtcSignal::Terminal { reason, message, .. } => (step matches AnswererStep::Fail {
                    message: m,
                } && m@ == terminal_error_message(reason, opt_string_view(message)))
                    && final(self).offered == old(self).offered,
                _ => (step matches AnswererStep::Fail { message } && message@
                    == unexpected_offerer_signal()) && final(self).offered == old(self).offered,
            },
    {
        if let Err(message) = ensure_signal_route(coordinator, &signal) {
            return AnswererStep::Fail { message };
        }
        match signal {
            WebRtcSignal::Offer { sdp, .. } => {
                if self.offered {
                    AnswererStep::ApplyOfferThenFail {
                        sdp,
                        message: owned("native WebRTC answer was already sent for this session"),
                    }
                } else {
                    self.offered = true;
                    AnswererStep::AnswerOffer { sdp }
                }
            },
            WebRtcSignal::IceCandidate { ice, .. } => AnswererStep::AddIceCandidate { ice },
            WebRtcSignal::EndOfCandidates { .. } => AnswererStep::AddEndOfCandidates {
                finished: self.offered,
            },
            WebRtcSignal::Terminal { reason, message, .. } => AnswererStep::Fail {
                message: terminal_error(reason, message),
            },
            _ => AnswererStep::Fail { message: owned("unexpected native WebRTC offerer signal") },
        }
    }
}

/// A WebRTC session address: the endpoint and the dial it belongs to.
#[derive(Debug)]
pub struct WebRtcSessionAddr {
    pub endpoint_id: String,
    pub dial_id: String,
}

/// The remote side of a connection path.
#[derive(Debug)]
pub enum PathRemote {
    /// A custom transport address; `None` when it is not a WebRTC session
    /// address.
    Custom(Option<WebRtcSessionAddr>),
    /// Any other transport address.
    Other,
}

#[derive(Debug)]
pub struct PathView {
    pub selected: bool,
    pub remote: PathRemote,
}

/// Why the selected path of a connection is not the expected WebRTC path.
#[derive(Debug)]
pub enum SelectedPathError {
    /// The selected path (at this position) is not a custom transport path.
    NonCustom { index: usize },
    /// The selected custom path is not a WebRTC session address.
    NotWebRtcSession,
    /// The selected WebRTC path belongs to another session.
    Mismatch { actual: WebRtcSessionAddr },
    /// No path is selected.
    NoSelectedPath,
}

pub open spec fn same_session_addr(a: WebRtcSessionAddr, b: WebRtcSessionAddr) -> bool {
    a.endpoint_id@ == b.endpoint_id@ && a.dial_id@ == b.dial_id@
}

/// Checks that the first selected path of a connection is the WebRTC session
/// path `expected`.
pub fn require_webrtc_selected_path(paths: Vec<PathView>, expected: &WebRtcSessionAddr) -> (r: Result<
    (),
    SelectedPathError,
>)
    ensures
        (forall|i: int| 0 <= i < paths@.len() ==> !#[trigger] paths@[i].selected) ==> r matches Err(
            SelectedPathError::NoSelectedPath,
        ),
        forall|i: int|
            0 <= i < paths@.len() && #[trigger] paths@[i].selected && (forall|j: int|
                0 <= j < i ==> !#[trigger] paths@[j].selected) ==> match paths@[i].remote {
                PathRemote::Other => r matches Err(SelectedPathError::NonCustom { index }) && index == i,
                PathRemote::Custom(None) => r matches Err(SelectedPathError::NotWebRtcSession),
                PathRemote::Custom(Some(a)) => if same_session_addr(a, *expected) {
                    r is Ok
                } else {
                    r matches Err(SelectedPathError::Mismatch { actual }) && actual == a
                },
            },
{
    let ghost all = paths@;
    let mut rest = paths;
    let mut index: usize = 0;
    proof { assert(rest@ =~= all.skip(0)); }
    let n = rest.len();
    while index < n
        invariant
            n == all.len(),
            index <= n,
            rest@ == all.skip(index as int),
            all == paths@,
            forall|j: int| 0 <= j < index ==> !#[trigger] all[j].selected,
        decreases n - index,
    {
        let path = rest.remove(0);
        proof {
            assert(path == all[index as int]);
            assert(rest@ =~= all.skip(index + 1));
        }
        if path.selected {
            proof {
                assert(all == paths@);
                assert(paths@[index as int].selected);
            }
            return match path.remote {
                PathRemote::Other => Err(SelectedPathError::NonCustom { index }),
                PathRemote::Custom(None) => Err(SelectedPathError::NotWebRtcSession),
                PathRemote::Custom(Some(actual)) => {
                    if str_eq(actual.endpoint_id.as_str(), expected.endpoint_id.as_str()) && str_eq(
                        actual.dial_id.as_str(),
                        expected.dial_id.as_str(),
                    ) {
                        Ok(())
                    } else {
                        Err(SelectedPathError::Mismatch { actual })
                    }
                },
            };
        }
        index = index + 1;
    }
    Err(SelectedPathError::NoSelectedPath)
}

} // verus!
