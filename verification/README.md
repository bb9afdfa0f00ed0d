# iroh-webrtc-transport (verified core)

The decision and bookkeeping logic of a WebRTC custom transport for Iroh,
written in Verus: every function in `src/` carries a contract that Verus
proves, and the laws that span several functions are stated as proof
functions next to them.

Layout:

- `src/` — the verified library.
  - `signaling.rs`: transport intents, bootstrap signals and the per-dial
    coordinator that stamps outgoing signals and recognises incoming ones.
  - `native_node.rs`: the native node's state (open/closed, accept queues by
    ALPN, tracked sessions), dial plans and fallback, how each side of a
    bootstrap reacts to signals, and the selected-path check.
  - `registry.rs`: the browser main-thread RTC registry (sessions by key,
    control port, data-channel options, incoming data channels) and how it
    serves each decoded request.
  - `main_rtc.rs`: the runtime's side of the main-thread RTC protocol
    (request envelopes, reading results and errors back).
  - `rtc_control_wire.rs`, `js_wire.rs`: envelopes and wire errors.
  - `request_tracker.rs`, `worker_bridge.rs`: request ids, requests in
    flight between the facade and its worker, and worker messages.
  - `protocol_transport.rs`: transport preparations for worker-owned
    protocol connections.
  - `browser_facade.rs`: facade configuration, dial options, worker payloads
    and the readings of worker results.
  - `capabilities.rs`, `error.rs`, `browser_protocol.rs`, `keyed_table.rs`,
    `text.rs`: session keys, the error type, command names, a map with
    unique keys, and the few `std` string operations the logic relies on.
- `tests/` — tests run against the compiled library.
- `app/` — glue that Verus does not see: serde forms of the wire messages,
  the error type with `Display`, and JavaScript value conversions.
