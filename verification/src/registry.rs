//! The main-thread RTC registry: the sessions it serves by session key, the
//! RTC control port it listens on, the incoming data channels of a session,
//! and the envelopes of the RTC control protocol.

use vstd::prelude::*;
use crate::browser_protocol::{MainRtcCommandName, main_rtc_command_name};
use crate::capabilities::{session_key_problem, validate_session_key};
use crate::error::Error;
use crate::js_wire::{opt_string_view, opt_view};
use crate::keyed_table::KeyedTable;
use crate::main_rtc::WorkerProtocolIceCandidate;
use crate::text::{concat2, owned};

verus! {

/// The sessions of the registry, by session key, and the RTC control port
/// it currently listens on.
pub struct WebRtcMainThreadRegistry<S, P> {
    sessions: KeyedTable<String, S>,
    rtc_control_port: Option<P>,
}

impl<S, P> WebRtcMainThreadRegistry<S, P> {
    pub closed spec fn wf(&self) -> bool {
        self.sessions.wf()
    }

    /// The sessions by key.
    pub closed spec fn sessions(&self) -> Map<Seq<char>, S> {
        self.sessions.view()
    }

    /// The port the registry listens on.
    pub closed spec fn port(&self) -> Option<P> {
        self.rtc_control_port
    }

    pub fn new() -> (r: Self)
        ensures
            r.wf(),
            r.sessions() == Map::<Seq<char>, S>::empty(),
            r.port() is None,
    {
        WebRtcMainThreadRegistry { sessions: KeyedTable::new(), rtc_control_port: None }
    }

    /// Listens on `port` from now on; hands back the port listened on before,
    /// which the caller closes.
    pub fn attach_rtc_control_port(&mut self, port: P) -> (previous: Option<P>)
        requires
            old(self).wf(),
        ensures
            final(self).wf(),
            previous == old(self).port(),
            final(self).port() == Some(port),
            final(self).sessions() == old(self).sessions(),
    {
        let previous = self.detach_rtc_control_port();
        self.rtc_control_port = Some(port);
        previous
    }

    /// Stops listening; hands back the port, which the caller closes.
    pub fn detach_rtc_control_port(&mut self) -> (previous: Option<P>)
        requires
            old(self).wf(),
        ensures
            final(self).wf(),
            previous == old(self).port(),
            final(self).port() is None,
            final(self).sessions() == old(self).sessions(),
    {
        self.rtc_control_port.take()
    }

    /// The checks made before a peer connection is created for `session_key`:
    /// the browser has RTC support, the key is valid, and no session has it.
    pub fn check_new_session(&self, session_key: &str, rtc_available: bool) -> (r: Result<(), Error>)
        requires
            self.wf(),
        ensures
            !rtc_available ==> r matches Err(Error::BrowserWebRtcUnavailable),
            rtc_available && session_key_problem(session_key@) is Some ==> (r matches Err(
                Error::InvalidConfig(m),
            ) && m@ == session_key_problem(session_key@)->0),
            rtc_available && session_key_problem(session_key@) is None ==> {
                if self.sessions().contains_key(session_key@) {
                    r matches Err(Error::InvalidConfig(m)) && m@ == "duplicate WebRTC session key"@
                } else {
                    r is Ok
                }
            },
    {
        if !rtc_available {
            return Err(Error::BrowserWebRtcUnavailable);
        }
        validate_session_key(session_key)?;
        if self.sessions.contains_key(&owned(session_key)) {
            return Err(Error::InvalidConfig("duplicate WebRTC session key"));
        }
        Ok(())
    }

    /// Records the session created for `session_key`; refuses a key that
    /// some session has already.
    pub fn add_session(&mut self, session_key: String, session: S) -> (r: Result<(), Error>)
        requires
            old(self).wf(),
        ensures
            final(self).wf(),
            final(self).port() == old(self).port(),
            old(self).sessions().contains_key(session_key@) ==> {
                &&& r matches Err(Error::InvalidConfig(m)) && m@ == "duplicate WebRTC session key"@
                &&& final(self).sessions() == old(self).sessions()
            },
            !old(self).sessions().contains_key(session_key@) ==> {
                &&& r is Ok
                &&& final(self).sessions() == old(self).sessions().insert(session_key@, session)
            },
    {
        match self.sessions.insert_new(session_key, session) {
            Ok(()) => Ok(()),
            Err(_) => Err(Error::InvalidConfig("duplicate WebRTC session key")),
        }
    }

    /// The session of `session_key`: the key must be valid and some session
    /// must have it.
    pub fn session_for(&self, session_key: &str) -> (r: Result<&S, Error>)
        requires
            self.wf(),
        ensures
            session_key_problem(session_key@) is Some ==> (r matches Err(Error::InvalidConfig(m))
                && m@ == session_key_problem(session_key@)->0),
            session_key_problem(session_key@) is None ==> {
                if self.sessions().contains_key(session_key@) {
                    r matches Ok(s) && *s == self.sessions()[session_key@]
                } else {
                    r matches Err(Error::UnknownSession)
                }
            },
    {
        validate_session_key(session_key)?;
        match self.sessions.get(&owned(session_key)) {
            Some(s) => Ok(s),
            None => Err(Error::UnknownSession),
        }
    }

    /// Closes the session of `session_key`: takes it out of the registry and
    /// hands it to the caller, which closes its peer connection and ICE
    /// queue. Closing a key that no session has is no error.
    pub fn close_session(&mut self, session_key: &str) -> (r: Result<Option<S>, Error>)
        requires
            old(self).wf(),
        ensures
            final(self).wf(),
            final(self).port() == old(self).port(),
            session_key_problem(session_key@) is Some ==> {
                &&& r matches Err(Error::InvalidConfig(m)) && m@ == session_key_problem(session_key@)->0
                &&& final(self).sessions() == old(self).sessions()
            },
            session_key_problem(session_key@) is None ==> {
                &&& final(self).sessions() == old(self).sessions().remove(session_key@)
                &&& if old(self).sessions().contains_key(session_key@) {
                    r matches Ok(Some(s)) && s == old(self).sessions()[session_key@]
                } else {
                    r matches Ok(None)
                }
            },
    {
        validate_session_key(session_key)?;
        Ok(self.sessions.remove(&owned(session_key)))
    }

    /// Checks the options of a data channel to create on the peer connection
    /// of `session_key` and settles its label and protocol: the channel must
    /// be unordered without retransmits, an empty protocol is left out and an
    /// empty or missing label is replaced by `default_label`.
    pub fn try_create_data_channel_with_options(
        &self,
        session_key: &str,
        label: Option<&str>,
        protocol: Option<&str>,
        ordered: bool,
        max_retransmits: u16,
        default_label: &str,
    ) -> (r: Result<(&S, DataChannelInit), Error>)
        requires
            self.wf(),
        ensures
            ordered ==> (r matches Err(Error::InvalidConfig(m)) && m@
                == "browser WebRTC data channels must be unordered"@),
            !ordered && max_retransmits != 0 ==> (r matches Err(Error::InvalidConfig(m)) && m@
                == "browser WebRTC data channels must use maxRetransmits 0"@),
            !ordered && max_retransmits == 0 && session_key_problem(session_key@) is Some ==> (r matches Err(
                Error::InvalidConfig(m),
            ) && m@ == session_key_problem(session_key@)->0),
            !ordered && max_retransmits == 0 && session_key_problem(session_key@) is None
                && !self.sessions().contains_key(session_key@) ==> r matches Err(Error::UnknownSession),
            !ordered && max_retransmits == 0 && session_key_problem(session_key@) is None
                && self.sessions().contains_key(session_key@) ==> (r matches Ok((s, init)) && {
                &&& *s == self.sessions()[session_key@]
                &&& !init.ordered
                &&& init.max_retransmits == 0
                &&& init.label@ == settled_label(opt_view(label), default_label@)
                &&& opt_string_view(init.protocol) == settled_protocol(opt_view(protocol))
            }),
    {
        if ordered {
            return Err(Error::InvalidConfig("browser WebRTC data channels must be unordered"));
        }
        if max_retransmits != 0 {
            return Err(
                Error::InvalidConfig("browser WebRTC data channels must use maxRetransmits 0"),
            );
        }
        let session = self.session_for(session_key)?;
        let protocol = match protocol {
            Some(p) => if p.is_empty() {
                None
            } else {
                Some(owned(p))
            },
            None => None,
        };
        let label = match label {
            Some(l) => if l.is_empty() {
                owned(default_label)
            } else {
                owned(l)
            },
            None => owned(default_label),
        };
        Ok((session, DataChannelInit { label, protocol, ordered, max_retransmits }))
    }
}

/// Why looking a session up by key fails.
pub ghost enum SessionLookupFailure {
    /// The key is not a valid session key, for this reason.
    InvalidKey(Seq<char>),
    /// No session has the key.
    Unknown,
}

/// The session a key names, or why there is none.
pub open spec fn session_lookup<S>(sessions: Map<Seq<char>, S>, key: Seq<char>) -> Result<
    S,
    SessionLookupFailure,
> {
    match session_key_problem(key) {
        Some(m) => Err(SessionLookupFailure::InvalidKey(m)),
        None => if sessions.contains_key(key) {
            Ok(sessions[key])
        } else {
            Err(SessionLookupFailure::Unknown)
        },
    }
}

/// The error a failed lookup is reported with.
pub open spec fn is_lookup_failure(e: Error, f: SessionLookupFailure) -> bool {
    match f {
        SessionLookupFailure::InvalidKey(m) => e matches Error::InvalidConfig(s) && s@ == m,
        SessionLookupFailure::Unknown => e matches Error::UnknownSession,
    }
}

/// A session recorded under a valid key is the one every later lookup of
/// that key finds, and recording it changes no other key's lookup; once
/// removed, the key is unknown again.
pub proof fn law_recorded_session_is_found<S>(sessions: Map<Seq<char>, S>, key: Seq<char>, session: S, other: Seq<char>)
    requires
        session_key_problem(key) is None,
    ensures
        session_lookup(sessions.insert(key, session), key) == Ok::<S, SessionLookupFailure>(session),
        other != key ==> session_lookup(sessions.insert(key, session), other) == session_lookup(
            sessions,
            other,
        ),
        session_lookup(sessions.insert(key, session).remove(key), key)
            == Err::<S, SessionLookupFailure>(SessionLookupFailure::Unknown),
{
}

/// A request to the registry with its payload decoded.
#[derive(Debug)]
pub enum MainRtcRegistryRequest {
    CreatePeerConnection { session_key: String, stun_urls: Option<Vec<String>> },
    CreateDataChannel {
        session_key: String,
        label: Option<String>,
        protocol: Option<String>,
        ordered: Option<bool>,
        max_retransmits: Option<u16>,
    },
    TakeDataChannel { session_key: String },
    CreateOffer { session_key: String },
    AcceptOffer { session_key: String, sdp: String },
    CreateAnswer { session_key: String },
    AcceptAnswer { session_key: String, sdp: String },
    NextLocalIce { session_key: String },
    AddRemoteIce { session_key: String, ice: WorkerProtocolIceCandidate },
    ClosePeerConnection { session_key: String },
}

/// What the browser does to serve a request once the registry's checks
/// passed, on the session the request names.
pub enum MainRtcRegistryWork<'a, S> {
    /// Create the peer connection of the new session with these STUN
    /// servers and record it with `add_session`; the session key is also the
    /// peer-connection key of the answer.
    CreatePeerConnection { session_key: String, stun_urls: Option<Vec<String>> },
    /// Create a data channel with these options on the session's peer
    /// connection.
    CreateDataChannel { session_key: String, session: &'a S, init: DataChannelInit },
    /// Hand over the session's next incoming data channel, waiting for one.
    TakeDataChannel { session_key: String, session: &'a S },
    CreateOffer { session: &'a S },
    AcceptOffer { session: &'a S, sdp: String },
    CreateAnswer { session: &'a S },
    AcceptAnswer { session: &'a S, sdp: String },
    /// Wait for the session's next local ICE event.
    NextLocalIce { session: &'a S },
    AddRemoteIce { session: &'a S, ice: WorkerProtocolIceCandidate },
    /// Close the session with `close_session`; the answer says `closed`.
    ClosePeerConnection { session_key: String },
}

/// The lookup a session-bound request makes: the work it yields holds the
/// session found, or the lookup's error comes back.
pub open spec fn looked_up<'a, S>(
    sessions: Map<Seq<char>, S>,
    key: Seq<char>,
    r: Result<MainRtcRegistryWork<'a, S>, Error>,
    found: spec_fn(S, MainRtcRegistryWork<'a, S>) -> bool,
) -> bool {
    match session_lookup(sessions, key) {
        Ok(s) => r matches Ok(w) && found(s, w),
        Err(f) => r matches Err(e) && is_lookup_failure(e, f),
    }
}

/// How the registry serves a decoded request: which checks it makes and
/// what it hands the browser to do.
pub open spec fn plans_request<'a, S>(
    sessions: Map<Seq<char>, S>,
    request: MainRtcRegistryRequest,
    rtc_available: bool,
    default_label: Seq<char>,
    r: Result<MainRtcRegistryWork<'a, S>, Error>,
) -> bool {
    match request {
        MainRtcRegistryRequest::CreatePeerConnection { session_key, stun_urls } => {
            if !rtc_available {
                r matches Err(Error::BrowserWebRtcUnavailable)
            } else if session_key_problem(session_key@) is Some {
                r matches Err(Error::InvalidConfig(m)) && m@ == session_key_problem(session_key@)->0
            } else if sessions.contains_key(session_key@) {
                r matches Err(Error::InvalidConfig(m)) && m@ == "duplicate WebRTC session key"@
            } else {
                r matches Ok(MainRtcRegistryWork::CreatePeerConnection { session_key: k, stun_urls: u })
                    && k == session_key && u == stun_urls
            }
        },
        MainRtcRegistryRequest::CreateDataChannel {
            session_key,
            label,
            protocol,
            ordered,
            max_retransmits,
        } => {
            if ordered == Some(true) {
                r matches Err(Error::InvalidConfig(m)) && m@
                    == "browser WebRTC data channels must be unordered"@
            } else if max_retransmits matches Some(n) && n != 0 {
                r matches Err(Error::InvalidConfig(m)) && m@
                    == "browser WebRTC data channels must use maxRetransmits 0"@
            } else {
                looked_up(
                    sessions,
                    session_key@,
                    r,
                    |s: S, w: MainRtcRegistryWork<'a, S>|
                        w matches MainRtcRegistryWork::CreateDataChannel { session_key: k, session, init }
                            && k == session_key && *session == s && !init.ordered
                            && init.max_retransmits == 0
                            && init.label@ == settled_label(opt_string_view(label), default_label)
                            && opt_string_view(init.protocol) == settled_protocol(
                            opt_string_view(protocol),
                        ),
                )
            }
        },
        MainRtcRegistryRequest::TakeDataChannel { session_key } => looked_up(
            sessions,
            session_key@,
            r,
            |s: S, w: MainRtcRegistryWork<'a, S>|
                w matches MainRtcRegistryWork::TakeDataChannel { session_key: k, session } && k
                    == session_key && *session == s,
        ),
        MainRtcRegistryRequest::CreateOffer { session_key } => looked_up(
            sessions,
            session_key@,
            r,
            |s: S, w: MainRtcRegistryWork<'a, S>|
                w matches MainRtcRegistryWork::CreateOffer { session } && *session == s,
        ),
        MainRtcRegistryRequest::AcceptOffer { session_key, sdp } => looked_up(
            sessions,
            session_key@,
            r,
            |s: S, w: MainRtcRegistryWork<'a, S>|
                w matches MainRtcRegistryWork::AcceptOffer { session, sdp: d } && *session == s && d
                    == sdp,
        ),
        MainRtcRegistryRequest::CreateAnswer { session_key } => looked_up(
            sessions,
            session_key@,
            r,
            |s: S, w: MainRtcRegistryWork<'a, S>|
                w matches MainRtcRegistryWork::CreateAnswer { session } && *session == s,
        ),
        MainRtcRegistryRequest::AcceptAnswer { session_key, sdp } => looked_up(
            sessions,
            session_key@,
            r,
            |s: S, w: MainRtcRegistryWork<'a, S>|
                w matches MainRtcRegistryWork::AcceptAnswer { session, sdp: d } && *session == s && d
                    == sdp,
        ),
        MainRtcRegistryRequest::NextLocalIce { session_key } => looked_up(
            sessions,
            session_key@,
            r,
            |s: S, w: MainRtcRegistryWork<'a, S>|
                w matches MainRtcRegistryWork::NextLocalIce { session } && *session == s,
        ),
        MainRtcRegistryRequest::AddRemoteIce { session_key, ice } => looked_up(
            sessions,
            session_key@,
            r,
            |s: S, w: MainRtcRegistryWork<'a, S>|
                w matches MainRtcRegistryWork::AddRemoteIce { session, ice: i } && *session == s && i
                    == ice,
        ),
        MainRtcRegistryRequest::ClosePeerConnection { session_key } => {
            r matches Ok(MainRtcRegistryWork::ClosePeerConnection { session_key: k }) && k
                == session_key
        },
    }
}

/// On a valid key that names session `session`, each request is planned as
/// the work of the same name on that session, carrying the request's own
/// SDP or ICE event: answering applies an answer (never an offer), offering
/// applies an offer, and so on.
pub proof fn law_requests_plan_work_of_the_same_name<'a, S>(
    sessions: Map<Seq<char>, S>,
    key: String,
    session: S,
    sdp: String,
    ice: WorkerProtocolIceCandidate,
    rtc_available: bool,
    default_label: Seq<char>,
    r: Result<MainRtcRegistryWork<'a, S>, Error>,
)
    requires
        session_lookup(sessions, key@) == Ok::<S, SessionLookupFailure>(session),
    ensures
        plans_request(sessions, MainRtcRegistryRequest::AcceptAnswer { session_key: key, sdp }, rtc_available, default_label, r)
            ==> (r matches Ok(MainRtcRegistryWork::AcceptAnswer { session: s, sdp: d }) && *s == session && d == sdp),
        plans_request(sessions, MainRtcRegistryRequest::AcceptOffer { session_key: key, sdp }, rtc_available, default_label, r)
            ==> (r matches Ok(MainRtcRegistryWork::AcceptOffer { session: s, sdp: d }) && *s == session && d == sdp),
        plans_request(sessions, MainRtcRegistryRequest::CreateOffer { session_key: key }, rtc_available, default_label, r)
            ==> (r matches Ok(MainRtcRegistryWork::CreateOffer { session: s }) && *s == session),
        plans_request(sessions, MainRtcRegistryRequest::CreateAnswer { session_key: key }, rtc_available, default_label, r)
            ==> (r matches Ok(MainRtcRegistryWork::CreateAnswer { session: s }) && *s == session),
        plans_request(sessions, MainRtcRegistryRequest::NextLocalIce { session_key: key }, rtc_available, default_label, r)
            ==> (r matches Ok(MainRtcRegistryWork::NextLocalIce { session: s }) && *s == session),
        plans_request(sessions, MainRtcRegistryRequest::AddRemoteIce { session_key: key, ice }, rtc_available, default_label, r)
            ==> (r matches Ok(MainRtcRegistryWork::AddRemoteIce { session: s, ice: i }) && *s == session && i == ice),
        plans_request(sessions, MainRtcRegistryRequest::TakeDataChannel { session_key: key }, rtc_available, default_label, r)
            ==> (r matches Ok(MainRtcRegistryWork::TakeDataChannel { session_key: k, session: s }) && *s == session
                && k == key),
        plans_request(sessions, MainRtcRegistryRequest::CreateDataChannel {
            session_key: key,
            label: None,
            protocol: None,
            ordered: None,
            max_retransmits: None,
        }, rtc_available, default_label, r)
            ==> (r matches Ok(MainRtcRegistryWork::CreateDataChannel { session_key: k, session: s, init }) && *s == session
                && k == key && !init.ordered && init.max_retransmits == 0 && init.label@ == default_label
                && init.protocol is None),
        plans_request(sessions, MainRtcRegistryRequest::ClosePeerConnection { session_key: key }, rtc_available, default_label, r)
            ==> (r matches Ok(MainRtcRegistryWork::ClosePeerConnection { session_key: k }) && k == key),
        plans_request(sessions, MainRtcRegistryRequest::CreatePeerConnection { session_key: key, stun_urls: None }, rtc_available, default_label, r)
            ==> r is Err,
{
}

/// A peer connection is planned for a new session exactly when the browser
/// has RTC support, the key is valid and no session has it yet; the work
/// carries the request's key and STUN servers.
pub proof fn law_new_sessions_plan_peer_connections<'a, S>(
    sessions: Map<Seq<char>, S>,
    key: String,
    stun_urls: Option<Vec<String>>,
    rtc_available: bool,
    default_label: Seq<char>,
    r: Result<MainRtcRegistryWork<'a, S>, Error>,
)
    requires
        plans_request(sessions, MainRtcRegistryRequest::CreatePeerConnection { session_key: key, stun_urls }, rtc_available, default_label, r),
    ensures
        (r is Ok) <==> (rtc_available && session_key_problem(key@) is None && !sessions.contains_key(key@)),
        r is Ok ==> (r matches Ok(MainRtcRegistryWork::CreatePeerConnection { session_key: k, stun_urls: u })
            && k == key && u == stun_urls),
{
}

impl<S, P> WebRtcMainThreadRegistry<S, P> {
    /// Serves a decoded request as far as the registry's own state goes: the
    /// checks each command makes (browser support, session key, duplicate or
    /// unknown session, data-channel options with their defaults) and what is
    /// left for the browser to do, on which session.
    pub fn plan_request<'a>(
        &'a self,
        request: MainRtcRegistryRequest,
        rtc_available: bool,
        default_label: &str,
    ) -> (r: Result<MainRtcRegistryWork<'a, S>, Error>)
        requires
            self.wf(),
        ensures
            plans_request(self.sessions(), request, rtc_available, default_label@, r),
    {
        match request {
            MainRtcRegistryRequest::CreatePeerConnection { session_key, stun_urls } => {
                self.check_new_session(session_key.as_str(), rtc_available)?;
                Ok(MainRtcRegistryWork::CreatePeerConnection { session_key, stun_urls })
            },
            MainRtcRegistryRequest::CreateDataChannel {
                session_key,
                label,
                protocol,
                ordered,
                max_retransmits,
            } => {
                let ordered = match ordered {
                    Some(b) => b,
                    None => false,
                };
                let max_retransmits = match max_retransmits {
                    Some(n) => n,
                    None => 0,
                };
                let label_ref: Option<&str> = match &label {
                    Some(l) => Some(l.as_str()),
                    None => None,
                };
                let protocol_ref: Option<&str> = match &protocol {
                    Some(p) => Some(p.as_str()),
                    None => None,
                };
                let (session, init) = self.try_create_data_channel_with_options(
                    session_key.as_str(),
                    label_ref,
                    protocol_ref,
                    ordered,
                    max_retransmits,
                    default_label,
                )?;
                Ok(MainRtcRegistryWork::CreateDataChannel { session_key, session, init })
            },
            MainRtcRegistryRequest::TakeDataChannel { session_key } => {
                let session = self.session_for(session_key.as_str())?;
                Ok(MainRtcRegistryWork::TakeDataChannel { session_key, session })
            },
            MainRtcRegistryRequest::CreateOffer { session_key } => {
                let session = self.session_for(session_key.as_str())?;
                Ok(MainRtcRegistryWork::CreateOffer { session })
            },
            MainRtcRegistryRequest::AcceptOffer { session_key, sdp } => {
                let session = self.session_for(session_key.as_str())?;
                Ok(MainRtcRegistryWork::AcceptOffer { session, sdp })
            },
            MainRtcRegistryRequest::CreateAnswer { session_key } => {
                let session = self.session_for(session_key.as_str())?;
                Ok(MainRtcRegistryWork::CreateAnswer { session })
            },
            MainRtcRegistryRequest::AcceptAnswer { session_key, sdp } => {
                let session = self.session_for(session_key.as_str())?;
                Ok(MainRtcRegistryWork::AcceptAnswer { session, sdp })
            },
            MainRtcRegistryRequest::NextLocalIce { session_key } => {
                let session = self.session_for(session_key.as_str())?;
                Ok(MainRtcRegistryWork::NextLocalIce { session })
            },
            MainRtcRegistryRequest::AddRemoteIce { session_key, ice } => {
                let session = self.session_for(session_key.as_str())?;
                Ok(MainRtcRegistryWork::AddRemoteIce { session, ice })
            },
            MainRtcRegistryRequest::ClosePeerConnection { session_key } => {
                Ok(MainRtcRegistryWork::ClosePeerConnection { session_key })
            },
        }
    }
}

/// The data channels a session received and the requests waiting for one.
/// At most one of the two queues is non-empty at any time: a channel that
/// arrives goes to the longest-waiting request, and a request that finds a
/// queued channel takes the oldest.
pub struct IncomingDataChannels<C, W> {
    channels: Vec<C>,
    waiters: Vec<W>,
}

impl<C, W> IncomingDataChannels<C, W> {
    pub closed spec fn wf(&self) -> bool {
        self.channels@.len() == 0 || self.waiters@.len() == 0
    }

    /// The received channels nobody asked for yet, oldest first.
    pub closed spec fn channels(&self) -> Seq<C> {
        self.channels@
    }

    /// The waiting requests, oldest first.
    pub closed spec fn waiters(&self) -> Seq<W> {
        self.waiters@
    }

    pub fn new() -> (r: Self)
        ensures
            r.wf(),
            r.channels() == Seq::<C>::empty(),
            r.waiters() == Seq::<W>::empty(),
    {
        IncomingDataChannels { channels: Vec::new(), waiters: Vec::new() }
    }

    /// A channel arrived: it goes to the oldest waiting request, which the
    /// caller answers with it, or it is queued.
    pub fn deliver(&mut self, channel: C) -> (r: Option<(W, C)>)
        requires
            old(self).wf(),
        ensures
            final(self).wf(),
            old(self).waiters().len() > 0 ==> {
                &&& r == Some((old(self).waiters()[0], channel))
                &&& final(self).waiters() == old(self).waiters().drop_first()
                &&& final(self).channels() == old(self).channels()
            },
            old(self).waiters().len() == 0 ==> {
                &&& r is None
                &&& final(self).channels() == old(self).channels().push(channel)
                &&& final(self).waiters() == old(self).waiters()
            },
    {
        if self.waiters.len() > 0 {
            let w = self.waiters.remove(0);
            proof { assert(self.waiters@ =~= old(self).waiters@.drop_first()); }
            Some((w, channel))
        } else {
            self.channels.push(channel);
            None
        }
    }

    /// Takes the oldest queued channel, if any.
    pub fn try_take_next(&mut self) -> (r: Option<C>)
        requires
            old(self).wf(),
        ensures
            final(self).wf(),
            final(self).waiters() == old(self).waiters(),
            old(self).channels().len() > 0 ==> {
                &&& r == Some(old(self).channels()[0])
                &&& final(self).channels() == old(self).channels().drop_first()
            },
            old(self).channels().len() == 0 ==> r is None && final(self).channels() == old(self).channels(),
    {
        if self.channels.len() > 0 {
            let c = self.channels.remove(0);
            proof { assert(self.channels@ =~= old(self).channels@.drop_first()); }
            Some(c)
        } else {
            None
        }
    }

    /// A request for the next channel: it takes the oldest queued channel if
    /// there is one (and `waiter` is dropped), or `waiter` joins the queue.
    pub fn take_or_wait(&mut self, waiter: W) -> (r: Option<C>)
        requires
            old(self).wf(),
        ensures
            final(self).wf(),
            old(self).channels().len() > 0 ==> {
                &&& r == Some(old(self).channels()[0])
                &&& final(self).channels() == old(self).channels().drop_first()
                &&& final(self).waiters() == old(self).waiters()
            },
            old(self).channels().len() == 0 ==> {
                &&& r is None
                &&& final(self).channels() == old(self).channels()
                &&& final(self).waiters() == old(self).waiters().push(waiter)
            },
    {
        match self.try_take_next() {
            Some(c) => Some(c),
            None => {
                self.waiters.push(waiter);
                None
            },
        }
    }
}

/// The label a data channel gets.
pub open spec fn settled_label(label: Option<Seq<char>>, default_label: Seq<char>) -> Seq<char> {
    match label {
        Some(l) => if l.len() == 0 { default_label } else { l },
        None => default_label,
    }
}

/// The protocol a data channel gets.
pub open spec fn settled_protocol(protocol: Option<Seq<char>>) -> Option<Seq<char>> {
    match protocol {
        Some(p) => if p.len() == 0 { None } else { Some(p) },
        None => None,
    }
}

/// The options a data channel is created with.
#[derive(Debug)]
pub struct DataChannelInit {
    pub label: String,
    pub protocol: Option<String>,
    pub ordered: bool,
    pub max_retransmits: u16,
}

/// The command named `command`, or the error for a name the registry does
/// not serve.
pub fn main_rtc_command_for(command: &str) -> (r: Result<MainRtcCommandName, Error>)
    ensures
        match r {
            Ok(c) => main_rtc_command_name(c) == command@,
            Err(e) => {
                &&& forall|c: MainRtcCommandName| main_rtc_command_name(c) != command@
                &&& e matches Error::WebRtc(m) && m@ == "unknown main-thread RTC command: "@ + command@
            },
        },
{
    match MainRtcCommandName::from_name(command) {
        Some(c) => Ok(c),
        None => {
            let m = concat2("unknown main-thread RTC command: ", command);
            Err(Error::WebRtc(m))
        },
    }
}

} // verus!
