//! WebRTC bootstrap signaling: transport intents, the signals two endpoints
//! exchange for one dial, and the per-dial coordinator that stamps outgoing
//! signals and recognises incoming ones.

use vstd::prelude::*;
use crate::browser_facade::{BrowserDialTransportPreference, preference_wire_value};
use crate::js_wire::opt_string_view;
use crate::text::{concat2, owned, str_eq};

verus! {

/// How a dial may reach the remote endpoint.
#[derive(Debug, Clone, Copy, PartialEq, Eq, Structural)]
pub enum BootstrapTransportIntent {
    IrohRelay,
    WebRtcPreferred,
    WebRtcOnly,
}

pub open spec fn intent_wire_value(i: BootstrapTransportIntent) -> Seq<char> {
    match i {
        BootstrapTransportIntent::IrohRelay => "irohRelay"@,
        BootstrapTransportIntent::WebRtcPreferred => "webrtcPreferred"@,
        BootstrapTransportIntent::WebRtcOnly => "webrtcOnly"@,
    }
}

impl BootstrapTransportIntent {
    /// Whether the dial tries a WebRTC path at all.
    pub fn uses_webrtc(self) -> (b: bool)
        ensures
            b == !(self is IrohRelay),
    {
        match self {
            BootstrapTransportIntent::IrohRelay => false,
            _ => true,
        }
    }

    /// Whether the dial may end up on the relay path.
    pub fn allows_iroh_relay_fallback(self) -> (b: bool)
        ensures
            b == !(self is WebRtcOnly),
    {
        match self {
            BootstrapTransportIntent::WebRtcOnly => false,
            _ => true,
        }
    }

    pub fn as_wire_value(self) -> (r: &'static str)
        ensures
            r@ == intent_wire_value(self),
    {
        match self {
            BootstrapTransportIntent::IrohRelay => "irohRelay",
            BootstrapTransportIntent::WebRtcPreferred => "webrtcPreferred",
            BootstrapTransportIntent::WebRtcOnly => "webrtcOnly",
        }
    }

    /// The intent with this wire name, if any.
    pub fn from_wire_value(name: &str) -> (r: Option<Self>)
        ensures
            match r {
                Some(i) => intent_wire_value(i) == name@,
                None => forall|i: BootstrapTransportIntent| intent_wire_value(i) != name@,
            },
    {
        if str_eq(name, "irohRelay") {
            Some(BootstrapTransportIntent::IrohRelay)
        } else if str_eq(name, "webrtcPreferred") {
            Some(BootstrapTransportIntent::WebRtcPreferred)
        } else if str_eq(name, "webrtcOnly") {
            Some(BootstrapTransportIntent::WebRtcOnly)
        } else {
            None
        }
    }

    /// The intent a browser dial preference asks for.
    pub fn from_preference(p: BrowserDialTransportPreference) -> (r: Self)
        ensures
            intent_wire_value(r) == preference_wire_value(p),
    {
        match p {
            BrowserDialTransportPreference::IrohRelay => BootstrapTransportIntent::IrohRelay,
            BrowserDialTransportPreference::WebRtcPreferred => BootstrapTransportIntent::WebRtcPreferred,
            BrowserDialTransportPreference::WebRtcOnly => BootstrapTransportIntent::WebRtcOnly,
        }
    }
}

/// Different intents have different wire names, so reading an intent back
/// from its own wire name gives it back.
pub proof fn law_intent_wire_names_distinct(a: BootstrapTransportIntent, b: BootstrapTransportIntent)
    ensures
        a != b ==> intent_wire_value(a) != intent_wire_value(b),
{
    reveal_strlit("irohRelay");
    reveal_strlit("webrtcPreferred");
    reveal_strlit("webrtcOnly");
    if a != b {
        assert(intent_wire_value(a).len() != intent_wire_value(b).len() || intent_wire_value(a)[0]
            != intent_wire_value(b)[0]);
    }
}

/// Why a WebRTC bootstrap ended early.
#[derive(Debug, Clone, Copy, PartialEq, Eq, Structural)]
pub enum WebRtcTerminalReason {
    WebRtcFailed,
    FallbackSelected,
    Cancelled,
    Closed,
}

/// Where a signal belongs: the dial it is part of, who sent it to whom, and
/// the generation of the dial.
#[derive(Debug)]
pub struct SignalRoute {
    pub dial_id: String,
    pub from: String,
    pub to: String,
    pub generation: u64,
}

#[derive(Debug)]
pub struct WebRtcIceCandidate {
    pub candidate: String,
    pub sdp_mid: Option<String>,
    pub sdp_mline_index: Option<u16>,
}

#[derive(Debug)]
pub enum WebRtcSignal {
    DialRequest { route: SignalRoute, alpn: String, transport_intent: BootstrapTransportIntent },
    Offer { route: SignalRoute, sdp: String },
    Answer { route: SignalRoute, sdp: String },
    IceCandidate { route: SignalRoute, ice: WebRtcIceCandidate },
    EndOfCandidates { route: SignalRoute },
    Terminal { route: SignalRoute, reason: WebRtcTerminalReason, message: Option<String> },
}

pub open spec fn signal_route(s: WebRtcSignal) -> SignalRoute {
    match s {
        WebRtcSignal::DialRequest { route, .. } => route,
        WebRtcSignal::Offer { route, .. } => route,
        WebRtcSignal::Answer { route, .. } => route,
        WebRtcSignal::IceCandidate { route, .. } => route,
        WebRtcSignal::EndOfCandidates { route } => route,
        WebRtcSignal::Terminal { route, .. } => route,
    }
}

impl WebRtcSignal {
    pub fn route(&self) -> (r: &SignalRoute)
        ensures
            *r == signal_route(*self),
    {
        match self {
            WebRtcSignal::DialRequest { route, .. } => route,
            WebRtcSignal::Offer { route, .. } => route,
            WebRtcSignal::Answer { route, .. } => route,
            WebRtcSignal::IceCandidate { route, .. } => route,
            WebRtcSignal::EndOfCandidates { route } => route,
            WebRtcSignal::Terminal { route, .. } => route,
        }
    }

    /// The request that opens a dial.
    pub fn dial_request_with_alpn(
        dial_id: &str,
        from: &str,
        to: &str,
        generation: u64,
        alpn: &str,
        transport_intent: BootstrapTransportIntent,
    ) -> (s: Self)
        ensures
            s matches WebRtcSignal::DialRequest { route, alpn: a, transport_intent: t } && {
                &&& route.dial_id@ == dial_id@
                &&& route.from@ == from@
                &&& route.to@ == to@
                &&& route.generation == generation
                &&& a@ == alpn@
                &&& t == transport_intent
            },
    {
        WebRtcSignal::DialRequest {
            route: SignalRoute {
                dial_id: owned(dial_id),
                from: owned(from),
                to: owned(to),
                generation,
            },
            alpn: owned(alpn),
            transport_intent,
        }
    }
}

/// One side of one dial: its own endpoint, the remote endpoint, the dial id
/// and generation, and the intent of the dial.
#[derive(Debug)]
pub struct DialCoordinator {
    pub local: String,
    pub remote: String,
    pub dial_id: String,
    pub generation: u64,
    pub transport_intent: BootstrapTransportIntent,
}

/// A signal belongs to a dial when it carries the dial's id and generation
/// and travels from the remote endpoint to the local one.
pub open spec fn coordinator_accepts(c: DialCoordinator, s: WebRtcSignal) -> bool {
    let r = signal_route(s);
    &&& r.dial_id@ == c.dial_id@
    &&& r.generation == c.generation
    &&& r.from@ == c.remote@
    &&& r.to@ == c.local@
}

/// The route of the signals a side sends.
pub open spec fn outgoing_route(c: DialCoordinator, r: SignalRoute) -> bool {
    &&& r.dial_id@ == c.dial_id@
    &&& r.generation == c.generation
    &&& r.from@ == c.local@
    &&& r.to@ == c.remote@
}

impl DialCoordinator {
    /// The dialing side of a dial.
    pub fn initiate_with_transport_intent(
        local: &str,
        remote: &str,
        dial_id: &str,
        generation: u64,
        transport_intent: BootstrapTransportIntent,
    ) -> (c: Self)
        ensures
            c.local@ == local@,
            c.remote@ == remote@,
            c.dial_id@ == dial_id@,
            c.generation == generation,
            c.transport_intent == transport_intent,
    {
        DialCoordinator {
            local: owned(local),
            remote: owned(remote),
            dial_id: owned(dial_id),
            generation,
            transport_intent,
        }
    }

    /// The answering side of the dial that `request` opened.
    pub fn respond_with_transport_intent(local: &str, request: &SignalRoute,
        transport_intent: BootstrapTransportIntent) -> (c: Self)
        ensures
            c.local@ == local@,
            c.remote@ == request.from@,
            c.dial_id@ == request.dial_id@,
            c.generation == request.generation,
            c.transport_intent == transport_intent,
    {
        DialCoordinator {
            local: owned(local),
            remote: owned(request.from.as_str()),
            dial_id: owned(request.dial_id.as_str()),
            generation: request.generation,
            transport_intent,
        }
    }

    pub fn accepts(&self, signal: &WebRtcSignal) -> (b: bool)
        ensures
            b == coordinator_accepts(*self, *signal),
    {
        let r = signal.route();
        str_eq(r.dial_id.as_str(), self.dial_id.as_str()) && r.generation == self.generation
            && str_eq(r.from.as_str(), self.remote.as_str()) && str_eq(
            r.to.as_str(),
            self.local.as_str(),
        )
    }

    fn route(&self) -> (r: SignalRoute)
        ensures
            outgoing_route(*self, r),
    {
        SignalRoute {
            dial_id: owned(self.dial_id.as_str()),
            from: owned(self.local.as_str()),
            to: owned(self.remote.as_str()),
            generation: self.generation,
        }
    }

    pub fn offer(&self, sdp: String) -> (s: WebRtcSignal)
        ensures
            s matches WebRtcSignal::Offer { route, sdp: d } && outgoing_route(*self, route) && d == sdp,
    {
        WebRtcSignal::Offer { route: self.route(), sdp }
    }

    pub fn answer(&self, sdp: String) -> (s: WebRtcSignal)
        ensures
            s matches WebRtcSignal::Answer { route, sdp: d } && outgoing_route(*self, route) && d == sdp,
    {
        WebRtcSignal::Answer { route: self.route(), sdp }
    }

    pub fn ice_candidate(&self, ice: WebRtcIceCandidate) -> (s: WebRtcSignal)
        ensures
            s matches WebRtcSignal::IceCandidate { route, ice: i } && outgoing_route(*self, route) && i == ice,
    {
        WebRtcSignal::IceCandidate { route: self.route(), ice }
    }

    pub fn end_of_candidates(&self) -> (s: WebRtcSignal)
        ensures
            s matches WebRtcSignal::EndOfCandidates { route } && outgoing_route(*self, route),
    {
        WebRtcSignal::EndOfCandidates { route: self.route() }
    }
}

/// An event of local ICE gathering: a candidate, or the end of them.
#[derive(Debug)]
pub enum LocalIceEvent {
    Candidate(WebRtcIceCandidate),
    EndOfCandidates,
}

impl DialCoordinator {
    /// The signal that carries a local ICE event to the remote side, and
    /// whether it is the last one (the end of candidates).
    pub fn local_ice_signal(&self, event: LocalIceEvent) -> (r: (WebRtcSignal, bool))
        ensures
            outgoing_route(*self, signal_route(r.0)),
            match event {
                LocalIceEvent::Candidate(ice) => (r.0 matches WebRtcSignal::IceCandidate { ice: i, .. }
                    && i == ice) && !r.1,
                LocalIceEvent::EndOfCandidates => r.0 is EndOfCandidates && r.1,
            },
    {
        match event {
            LocalIceEvent::Candidate(ice) => (self.ice_candidate(ice), false),
            LocalIceEvent::EndOfCandidates => (self.end_of_candidates(), true),
        }
    }
}

/// The answering side that a dial request creates recognises what the
/// dialing side sends, and the dialing side recognises what the answering
/// side sends.
pub proof fn law_dial_routes_match(dialer: DialCoordinator, answerer: DialCoordinator,
    to_answerer: WebRtcSignal, to_dialer: WebRtcSignal)
    requires
        answerer.local@ == dialer.remote@,
        answerer.remote@ == dialer.local@,
        answerer.dial_id@ == dialer.dial_id@,
        answerer.generation == dialer.generation,
        outgoing_route(dialer, signal_route(to_answerer)),
        outgoing_route(answerer, signal_route(to_dialer)),
    ensures
        coordinator_accepts(answerer, to_answerer),
        coordinator_accepts(dialer, to_dialer),
{
}

/// A coordinator refuses every signal of another dial: it accepts a signal
/// only when the signal carries its own dial id and generation and travels
/// from its remote endpoint to its own one. In particular a signal whose
/// dial id differs from the coordinator's is never accepted, even from the
/// same peer.
pub proof fn law_foreign_signals_rejected(c: DialCoordinator, s: WebRtcSignal)
    ensures
        coordinator_accepts(c, s) ==> signal_route(s).dial_id@ == c.dial_id@,
        coordinator_accepts(c, s) ==> signal_route(s).generation == c.generation,
        coordinator_accepts(c, s) ==> signal_route(s).from@ == c.remote@,
        coordinator_accepts(c, s) ==> signal_route(s).to@ == c.local@,
        signal_route(s).dial_id@ != c.dial_id@ ==> !coordinator_accepts(c, s),
        signal_route(s).generation != c.generation ==> !coordinator_accepts(c, s),
{
}

/// Checks that `signal` belongs to the dial of `coordinator`.
pub fn ensure_signal_route(coordinator: &DialCoordinator, signal: &WebRtcSignal) -> (r: Result<(), String>)
    ensures
        coordinator_accepts(*coordinator, *signal) ==> r is Ok,
        !coordinator_accepts(*coordinator, *signal) ==> (r matches Err(m) && m@
            == "native WebRTC bootstrap signal route did not match the session"@),
{
    if coordinator.accepts(signal) {
        Ok(())
    } else {
        Err(owned("native WebRTC bootstrap signal route did not match the session"))
    }
}

/// The text of the error a terminal signal from the remote side ends a dial
/// with.
pub open spec fn terminal_error_message(reason: WebRtcTerminalReason, message: Option<Seq<char>>)
    -> Seq<char> {
    let m = match message {
        Some(m) => m,
        None => "remote terminal WebRTC signal"@,
    };
    match reason {
        WebRtcTerminalReason::WebRtcFailed => "remote WebRTC failure: "@ + m,
        WebRtcTerminalReason::FallbackSelected => "remote selected WebRTC fallback: "@ + m,
        WebRtcTerminalReason::Cancelled => "remote cancelled WebRTC bootstrap: "@ + m,
        WebRtcTerminalReason::Closed => "remote closed WebRTC bootstrap: "@ + m,
    }
}

pub fn terminal_error(reason: WebRtcTerminalReason, message: Option<String>) -> (r: String)
    ensures
        r@ == terminal_error_message(reason, opt_string_view(message)),
{
    let message = match message {
        Some(m) => m,
        None => owned("remote terminal WebRTC signal"),
    };
    match reason {
        WebRtcTerminalReason::WebRtcFailed => concat2("remote WebRTC failure: ", message.as_str()),
        WebRtcTerminalReason::FallbackSelected => concat2(
            "remote selected WebRTC fallback: ",
            message.as_str(),
        ),
        WebRtcTerminalReason::Cancelled => concat2(
            "remote cancelled WebRTC bootstrap: ",
            message.as_str(),
        ),
        WebRtcTerminalReason::Closed => concat2("remote closed WebRTC bootstrap: ", message.as_str()),
    }
}

} // verus!
