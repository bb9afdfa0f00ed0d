//! Browser facade configuration, dial options and the decisions the facade
//! makes on the results that its runtime hands back.

use vstd::prelude::*;
use vstd::utf8::{decode_utf8, valid_utf8};
use crate::text::owned;

verus! {

/// Preferred transport behavior for browser dials.
#[derive(Debug, Clone, Copy, PartialEq, Eq, Structural)]
pub enum BrowserDialTransportPreference {
    IrohRelay,
    WebRtcPreferred,
    WebRtcOnly,
}

/// The wire spelling of a transport preference.
pub open spec fn preference_wire_value(p: BrowserDialTransportPreference) -> Seq<char> {
    match p {
        BrowserDialTransportPreference::IrohRelay => "irohRelay"@,
        BrowserDialTransportPreference::WebRtcPreferred => "webrtcPreferred"@,
        BrowserDialTransportPreference::WebRtcOnly => "webrtcOnly"@,
    }
}

impl BrowserDialTransportPreference {
    /// Returns the name under which the runtime protocol carries this preference.
    pub fn as_wire_value(self) -> (r: &'static str)
        ensures
            r@ == preference_wire_value(self),
    {
        match self {
            BrowserDialTransportPreference::IrohRelay => "irohRelay",
            BrowserDialTransportPreference::WebRtcPreferred => "webrtcPreferred",
            BrowserDialTransportPreference::WebRtcOnly => "webrtcOnly",
        }
    }
}

/// Browser app facade dial options.
#[derive(Debug, Clone, Copy, PartialEq, Eq, Structural)]
pub struct BrowserDialOptions {
    pub transport_preference: BrowserDialTransportPreference,
}

impl BrowserDialOptions {
    pub fn iroh_relay() -> (r: Self)
        ensures
            r.transport_preference == BrowserDialTransportPreference::IrohRelay,
    {
        BrowserDialOptions { transport_preference: BrowserDialTransportPreference::IrohRelay }
    }

    pub fn webrtc_preferred() -> (r: Self)
        ensures
            r.transport_preference == BrowserDialTransportPreference::WebRtcPreferred,
    {
        BrowserDialOptions {
            transport_preference: BrowserDialTransportPreference::WebRtcPreferred,
        }
    }

    pub fn webrtc_only() -> (r: Self)
        ensures
            r.transport_preference == BrowserDialTransportPreference::WebRtcOnly,
    {
        BrowserDialOptions { transport_preference: BrowserDialTransportPreference::WebRtcOnly }
    }
}

impl Default for BrowserDialOptions {
    fn default() -> (r: Self)
        ensures
            r.transport_preference == BrowserDialTransportPreference::WebRtcPreferred,
    {
        Self::webrtc_preferred()
    }
}


/// Browser app facade configuration. `F` is the handle of a browser worker
/// factory (a JavaScript function returning a `Worker`).
pub struct BrowserWebRtcNodeConfig<F> {
    /// URL of the JavaScript module worker that hosts the runtime.
    pub worker_url: String,
    /// Optional browser-provided worker factory, called with no arguments.
    pub worker_factory: Option<F>,
    /// STUN server URLs used for direct WebRTC negotiation.
    pub stun_urls: Vec<String>,
    /// Request low-latency QUIC ACK behavior.
    pub low_latency_quic_acks: bool,
}

pub open spec fn strings_view(v: Seq<String>) -> Seq<Seq<char>> {
    v.map_values(|s: String| s@)
}

/// A copy of a list of strings.
pub fn copy_strings(v: &Vec<String>) -> (r: Vec<String>)
    ensures
        strings_view(r@) == strings_view(v@),
{
    let mut r: Vec<String> = Vec::new();
    let mut i: usize = 0;
    while i < v.len()
        invariant
            i <= v@.len(),
            r@.len() == i,
            forall|j: int| 0 <= j < i ==> #[trigger] r@[j]@ == v@[j]@,
        decreases v@.len() - i,
    {
        r.push(v[i].clone());
        i = i + 1;
    }
    proof {
        assert(strings_view(r@) =~= strings_view(v@));
    }
    r
}

/// Whether two lists of strings hold the same strings in the same order.
pub fn strings_eq(a: &Vec<String>, b: &Vec<String>) -> (r: bool)
    ensures
        r == (strings_view(a@) == strings_view(b@)),
{
    if a.len() != b.len() {
        proof {
            assert(strings_view(a@).len() != strings_view(b@).len());
        }
        return false;
    }
    let mut i: usize = 0;
    while i < a.len()
        invariant
            a@.len() == b@.len(),
            i <= a@.len(),
            forall|j: int| 0 <= j < i ==> a@[j]@ == b@[j]@,
        decreases a@.len() - i,
    {
        if a[i] != b[i] {
            proof {
                assert(strings_view(a@)[i as int] != strings_view(b@)[i as int]);
            }
            return false;
        }
        i = i + 1;
    }
    proof {
        assert(strings_view(a@) =~= strings_view(b@));
    }
    true
}

impl<F> BrowserWebRtcNodeConfig<F> {
    /// The default worker URL, no factory, the given STUN servers and the
    /// default ACK behavior.
    pub fn with_stun_urls(stun_urls: Vec<String>) -> (c: Self)
        ensures
            c.worker_url@ == "./iroh-webrtc-worker.js"@,
            c.worker_factory is None,
            c.stun_urls == stun_urls,
            !c.low_latency_quic_acks,
    {
        BrowserWebRtcNodeConfig {
            worker_url: owned("./iroh-webrtc-worker.js"),
            worker_factory: None,
            stun_urls,
            low_latency_quic_acks: false,
        }
    }

    /// Uses the worker at `worker_url`; forgets any worker factory.
    pub fn with_worker_url(self, worker_url: String) -> (c: Self)
        ensures
            c.worker_url == worker_url,
            c.worker_factory is None,
            c.stun_urls == self.stun_urls,
            c.low_latency_quic_acks == self.low_latency_quic_acks,
    {
        BrowserWebRtcNodeConfig {
            worker_url,
            worker_factory: None,
            stun_urls: self.stun_urls,
            low_latency_quic_acks: self.low_latency_quic_acks,
        }
    }

    pub fn with_worker_factory(self, worker_factory: F) -> (c: Self)
        ensures
            c.worker_url == self.worker_url,
            c.worker_factory == Some(worker_factory),
            c.stun_urls == self.stun_urls,
            c.low_latency_quic_acks == self.low_latency_quic_acks,
    {
        BrowserWebRtcNodeConfig {
            worker_url: self.worker_url,
            worker_factory: Some(worker_factory),
            stun_urls: self.stun_urls,
            low_latency_quic_acks: self.low_latency_quic_acks,
        }
    }

    pub fn with_low_latency_quic_acks(self, enabled: bool) -> (c: Self)
        ensures
            c.worker_url == self.worker_url,
            c.worker_factory == self.worker_factory,
            c.stun_urls == self.stun_urls,
            c.low_latency_quic_acks == enabled,
    {
        BrowserWebRtcNodeConfig {
            worker_url: self.worker_url,
            worker_factory: self.worker_factory,
            stun_urls: self.stun_urls,
            low_latency_quic_acks: enabled,
        }
    }

    /// Whether two configurations are equal. Two factories count as equal
    /// when `same_factory` says so (the caller compares the two factory
    /// objects by identity); no factory equals only no factory.
    pub fn config_eq(&self, other: &Self, same_factory: bool) -> (r: bool)
        ensures
            r == (self.worker_url@ == other.worker_url@ && worker_factory_matches(
                self.worker_factory,
                other.worker_factory,
                same_factory,
            ) && strings_view(self.stun_urls@) == strings_view(other.stun_urls@)
                && self.low_latency_quic_acks == other.low_latency_quic_acks),
    {
        self.worker_url == other.worker_url && worker_factory_eq(
            &self.worker_factory,
            &other.worker_factory,
            same_factory,
        ) && strings_eq(&self.stun_urls, &other.stun_urls) && self.low_latency_quic_acks
            == other.low_latency_quic_acks
    }
}

pub open spec fn worker_factory_matches<F>(left: Option<F>, right: Option<F>, same: bool) -> bool {
    match (left, right) {
        (Some(_), Some(_)) => same,
        (None, None) => true,
        _ => false,
    }
}

/// Two optional factories are equal when both are absent, or both present
/// and the same object (`same_object`).
pub fn worker_factory_eq<F>(left: &Option<F>, right: &Option<F>, same_object: bool) -> (r: bool)
    ensures
        r == worker_factory_matches(*left, *right, same_object),
{
    match (left, right) {
        (Some(_), Some(_)) => same_object,
        (None, None) => true,
        _ => false,
    }
}

/// Where the facade gets its worker from.
#[derive(Debug)]
pub enum WorkerSource<F> {
    Factory(F),
    Url(String),
}

/// The configured factory first, then a factory installed on the global
/// object, then the configured URL.
pub fn worker_source<F>(config_factory: Option<F>, global_factory: Option<F>, worker_url: String) -> (s:
    WorkerSource<F>)
    ensures
        match (config_factory, global_factory) {
            (Some(f), _) => s == WorkerSource::Factory(f),
            (None, Some(g)) => s == WorkerSource::Factory(g),
            (None, None) => s == WorkerSource::<F>::Url(worker_url),
        },
{
    match config_factory {
        Some(f) => WorkerSource::Factory(f),
        None => match global_factory {
            Some(g) => WorkerSource::Factory(g),
            None => WorkerSource::Url(worker_url),
        },
    }
}

/// What `String::from_utf8_lossy` makes of these bytes.
pub uninterp spec fn utf8_lossy(bytes: Seq<u8>) -> Seq<char>;

/// `String::from_utf8_lossy(bytes).into_owned()`: valid UTF-8 is decoded as
/// it is; invalid sequences become U+FFFD.
#[verifier::external_body]
pub(crate) fn from_utf8_lossy(bytes: &[u8]) -> (s: String)
    ensures
        s@ == utf8_lossy(bytes@),
        valid_utf8(bytes@) ==> s@ == decode_utf8(bytes@),
{
    String::from_utf8_lossy(bytes).into_owned()
}

/// The spawn request: the STUN servers, and the low-latency ACK flag only
/// when it is on.
#[derive(Debug)]
pub struct WorkerSpawnPayload {
    pub stun_urls: Vec<String>,
    pub low_latency_quic_acks: Option<bool>,
}

pub fn spawn_payload<F>(config: &BrowserWebRtcNodeConfig<F>) -> (p: WorkerSpawnPayload)
    ensures
        strings_view(p.stun_urls@) == strings_view(config.stun_urls@),
        p.low_latency_quic_acks == (if config.low_latency_quic_acks { Some(true) } else { None }),
{
    WorkerSpawnPayload {
        stun_urls: copy_strings(&config.stun_urls),
        low_latency_quic_acks: if config.low_latency_quic_acks {
            Some(true)
        } else {
            None
        },
    }
}

/// A dial request.
#[derive(Debug)]
pub struct WorkerDialPayload {
    pub remote_endpoint: String,
    pub alpn: String,
    pub transport_intent: String,
}

pub fn dial_payload(remote_endpoint: &str, alpn: &[u8], options: BrowserDialOptions) -> (p:
    WorkerDialPayload)
    ensures
        p.remote_endpoint@ == remote_endpoint@,
        p.alpn@ == utf8_lossy(alpn@),
        p.transport_intent@ == preference_wire_value(options.transport_preference),
{
    WorkerDialPayload {
        remote_endpoint: owned(remote_endpoint),
        alpn: from_utf8_lossy(alpn),
        transport_intent: owned(options.transport_preference.as_wire_value()),
    }
}

/// A latency benchmark request; benchmarks always run over WebRTC only.
#[derive(Debug)]
pub struct WorkerBenchmarkLatencyPayload {
    pub remote_endpoint: String,
    pub alpn: String,
    pub transport_intent: String,
    pub samples: usize,
    pub warmups: usize,
}

pub fn benchmark_latency_payload(remote_endpoint: &str, alpn: &[u8], samples: usize, warmups: usize) -> (p:
    WorkerBenchmarkLatencyPayload)
    ensures
        p.remote_endpoint@ == remote_endpoint@,
        p.alpn@ == utf8_lossy(alpn@),
        p.transport_intent@ == "webrtcOnly"@,
        p.samples == samples,
        p.warmups == warmups,
{
    WorkerBenchmarkLatencyPayload {
        remote_endpoint: owned(remote_endpoint),
        alpn: from_utf8_lossy(alpn),
        transport_intent: owned(BrowserDialTransportPreference::WebRtcOnly.as_wire_value()),
        samples,
        warmups,
    }
}

/// A throughput benchmark request; benchmarks always run over WebRTC only.
#[derive(Debug)]
pub struct WorkerBenchmarkThroughputPayload {
    pub remote_endpoint: String,
    pub alpn: String,
    pub transport_intent: String,
    pub bytes: usize,
    pub warmup_bytes: usize,
}

pub fn benchmark_throughput_payload(
    remote_endpoint: &str,
    alpn: &[u8],
    bytes: usize,
    warmup_bytes: usize,
) -> (p: WorkerBenchmarkThroughputPayload)
    ensures
        p.remote_endpoint@ == remote_endpoint@,
        p.alpn@ == utf8_lossy(alpn@),
        p.transport_intent@ == "webrtcOnly"@,
        p.bytes == bytes,
        p.warmup_bytes == warmup_bytes,
{
    WorkerBenchmarkThroughputPayload {
        remote_endpoint: owned(remote_endpoint),
        alpn: from_utf8_lossy(alpn),
        transport_intent: owned(BrowserDialTransportPreference::WebRtcOnly.as_wire_value()),
        bytes,
        warmup_bytes,
    }
}

/// Requests that name an ALPN, an accept registration, a connection or a
/// stream, with an optional reason.
#[derive(Debug)]
pub struct WorkerKeyPayload {
    pub field: &'static str,
    pub key: String,
    pub reason: Option<String>,
}

pub fn alpn_payload(alpn: &[u8]) -> (p: WorkerKeyPayload)
    ensures
        p.field@ == "alpn"@,
        p.key@ == utf8_lossy(alpn@),
        p.reason is None,
{
    WorkerKeyPayload { field: "alpn", key: from_utf8_lossy(alpn), reason: None }
}

pub fn accept_payload(accept_key: &str) -> (p: WorkerKeyPayload)
    ensures
        p.field@ == "acceptKey"@,
        p.key@ == accept_key@,
        p.reason is None,
{
    WorkerKeyPayload { field: "acceptKey", key: owned(accept_key), reason: None }
}

pub fn accept_reason_payload(accept_key: &str, reason: &str) -> (p: WorkerKeyPayload)
    ensures
        p.field@ == "acceptKey"@,
        p.key@ == accept_key@,
        p.reason matches Some(r) && r@ == reason@,
{
    WorkerKeyPayload { field: "acceptKey", key: owned(accept_key), reason: Some(owned(reason)) }
}

pub fn connection_payload(connection_key: &str) -> (p: WorkerKeyPayload)
    ensures
        p.field@ == "connectionKey"@,
        p.key@ == connection_key@,
        p.reason is None,
{
    WorkerKeyPayload { field: "connectionKey", key: owned(connection_key), reason: None }
}

pub fn connection_reason_payload(connection_key: &str, reason: &str) -> (p: WorkerKeyPayload)
    ensures
        p.field@ == "connectionKey"@,
        p.key@ == connection_key@,
        p.reason matches Some(r) && r@ == reason@,
{
    WorkerKeyPayload {
        field: "connectionKey",
        key: owned(connection_key),
        reason: Some(owned(reason)),
    }
}

pub fn stream_payload(stream_key: &str) -> (p: WorkerKeyPayload)
    ensures
        p.field@ == "streamKey"@,
        p.key@ == stream_key@,
        p.reason is None,
{
    WorkerKeyPayload { field: "streamKey", key: owned(stream_key), reason: None }
}

/// A request that carries only a reason.
#[derive(Debug)]
pub struct WorkerReasonPayload {
    pub reason: String,
}

pub fn reason_payload(reason: &str) -> (p: WorkerReasonPayload)
    ensures
        p.reason@ == reason@,
{
    WorkerReasonPayload { reason: owned(reason) }
}

/// The state of an acceptor: closed once its registration is done.
pub struct BrowserAcceptorState {
    pub closed: bool,
}

impl BrowserAcceptorState {
    pub fn new() -> (s: Self)
        ensures
            !s.closed,
    {
        BrowserAcceptorState { closed: false }
    }

    /// Reads the answer to an accept-next request: a finished registration
    /// closes the acceptor and yields nothing; otherwise the answer must carry
    /// a connection.
    pub fn on_accept_next<C>(&mut self, done: bool, connection: Option<C>) -> (r: Result<Option<C>, String>)
        ensures
            done ==> r == Ok::<Option<C>, String>(None) && final(self).closed,
            !done ==> final(self).closed == old(self).closed && match connection {
                Some(c) => r == Ok::<Option<C>, String>(Some(c)),
                None => r matches Err(m) && m@ == "browser worker accept result missing connection"@,
            },
    {
        if done {
            self.closed = true;
            return Ok(None);
        }
        match connection {
            Some(c) => Ok(Some(c)),
            None => Err(owned("browser worker accept result missing connection")),
        }
    }

    /// Closing: only the first close of an open acceptor sends a close
    /// request (the result says whether to send it); the acceptor is closed
    /// afterwards either way.
    pub fn begin_close(&mut self) -> (send: bool)
        ensures
            send == !old(self).closed,
            final(self).closed,
    {
        let was_closed = self.closed;
        self.closed = true;
        !was_closed
    }
}

/// Reads the answer to an accept-bi request.
pub fn accept_bi_outcome(done: bool, stream_key: Option<String>) -> (r: Result<String, String>)
    ensures
        done ==> (r matches Err(m) && m@ == "connection stream accept completed"@),
        !done ==> match stream_key {
            Some(k) => r == Ok::<String, String>(k),
            None => r matches Err(m) && m@ == "browser worker stream accept result missing streamKey"@,
        },
{
    if done {
        return Err(owned("connection stream accept completed"));
    }
    match stream_key {
        Some(k) => Ok(k),
        None => Err(owned("browser worker stream accept result missing streamKey")),
    }
}

/// Reads the answer to a receive request: nothing once the stream is done,
/// an empty chunk when the answer carries none, the chunk otherwise.
pub fn receive_chunk_outcome(done: bool, chunk: Option<Vec<u8>>) -> (r: Option<Vec<u8>>)
    ensures
        done ==> r is None,
        !done ==> match chunk {
            Some(c) => r == Some(c),
            None => r matches Some(c) && c@ == Seq::<u8>::empty(),
        },
{
    if done {
        return None;
    }
    match chunk {
        Some(c) => Some(c),
        None => Some(Vec::new()),
    }
}

/// The bytes of a list of chunks, one after the other.
pub open spec fn concat_chunks(chunks: Seq<Seq<u8>>) -> Seq<u8>
    decreases chunks.len(),
{
    if chunks.len() == 0 {
        Seq::empty()
    } else {
        concat_chunks(chunks.drop_last()) + chunks.last()
    }
}

/// Reading a stream to its end: collects chunks until the stream is done.
pub struct ReadToEnd {
    out: Vec<u8>,
    chunks: Ghost<Seq<Seq<u8>>>,
}

impl ReadToEnd {
    /// The bytes collected are the chunks received, one after the other.
    pub closed spec fn wf(&self) -> bool {
        self.out@ == concat_chunks(self.chunks@)
    }

    /// The chunks received so far, in order.
    pub closed spec fn chunks(&self) -> Seq<Seq<u8>> {
        self.chunks@
    }

    pub fn new() -> (r: Self)
        ensures
            r.wf(),
            r.chunks() == Seq::<Seq<u8>>::empty(),
    {
        ReadToEnd { out: Vec::new(), chunks: Ghost(Seq::empty()) }
    }

    /// Takes one receive answer; says whether the stream is done.
    pub fn push(&mut self, chunk: Option<Vec<u8>>) -> (done: bool)
        requires
            old(self).wf(),
        ensures
            final(self).wf(),
            done == chunk is None,
            chunk is None ==> final(self).chunks() == old(self).chunks(),
            chunk matches Some(c) ==> final(self).chunks() == old(self).chunks().push(c@),
    {
        match chunk {
            None => true,
            Some(c) => {
                let ghost before = self.chunks@;
                let mut i: usize = 0;
                let ghost start = self.out@;
                while i < c.len()
                    invariant
                        i <= c@.len(),
                        self.out@ == start + c@.take(i as int),
                    decreases c@.len() - i,
                {
                    self.out.push(c[i]);
                    proof { assert(c@.take(i + 1) =~= c@.take(i as int).push(c@[i as int])); }
                    i = i + 1;
                }
                proof {
                    assert(c@.take(c@.len() as int) =~= c@);
                    assert(before.push(c@).drop_last() =~= before);
                    self.chunks = Ghost(before.push(c@));
                }
                false
            },
        }
    }

    /// The bytes read: every chunk received, in order.
    pub fn into_bytes(self) -> (b: Vec<u8>)
        requires
            self.wf(),
        ensures
            b@ == concat_chunks(self.chunks()),
    {
        self.out
    }
}

} // verus!
