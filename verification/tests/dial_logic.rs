use iroh_webrtc_transport::browser_facade::{
    accept_bi_outcome, accept_payload, accept_reason_payload, alpn_payload,
    benchmark_latency_payload, benchmark_throughput_payload, connection_payload,
    connection_reason_payload, dial_payload, reason_payload, receive_chunk_outcome, spawn_payload,
    stream_payload, worker_factory_eq, worker_source, BrowserAcceptorState, BrowserDialOptions,
    BrowserDialTransportPreference, BrowserWebRtcNodeConfig, ReadToEnd, WorkerSource,
};
use iroh_webrtc_transport::keyed_table::KeyedTable;
use iroh_webrtc_transport::main_rtc::BrowserWorkerErrorCode;
use iroh_webrtc_transport::native_node::{
    bootstrap_alpn_text, IncomingRoute,
    dial_plan, falls_back_to_iroh, require_webrtc_selected_path, AnswererSignals, AnswererStep,
    DialerSignals, DialerStep, NativeDialPlan, NativeNodeState, PathRemote, PathView,
    SelectedPathError, WebRtcSessionAddr,
};
use iroh_webrtc_transport::protocol_transport::{
    begin_protocol_transport_prepare, complete_pending_protocol_transport_prepare_from_result, pending_prepare_action_from_session,
    PendingPrepareAction, PendingPrepareResultSession, PendingProtocolTransportPrepare,
    PendingProtocolTransportPrepareCleanup, PrepareResolution,
};
use iroh_webrtc_transport::signaling::{
    ensure_signal_route, terminal_error, BootstrapTransportIntent, DialCoordinator, SignalRoute,
    WebRtcIceCandidate, WebRtcSignal, WebRtcTerminalReason, LocalIceEvent,
};

fn session(
    dial_id: Option<u8>,
    transport: Option<&str>,
    channel: Option<&str>,
    lifecycle: Option<&str>,
) -> PendingPrepareResultSession<u8> {
    PendingPrepareResultSession {
        dial_id,
        resolved_transport: transport.map(|s| s.to_string()),
        channel_attachment: channel.map(|s| s.to_string()),
        lifecycle: lifecycle.map(|s| s.to_string()),
    }
}

fn prepares_with(key: &str, intent: BootstrapTransportIntent) -> KeyedTable<String, PendingProtocolTransportPrepare<&'static str, u32>> {
    let mut t = KeyedTable::new();
    t.insert_new(
        key.to_string(),
        PendingProtocolTransportPrepare { sender: "tx", remote: 77, transport_intent: intent },
    )
    .ok()
    .unwrap();
    t
}

#[test]
fn dial_options_and_preferences() {
    assert_eq!(
        BrowserDialOptions::default().transport_preference,
        BrowserDialTransportPreference::WebRtcPreferred
    );
    assert_eq!(
        BrowserDialOptions::iroh_relay().transport_preference,
        BrowserDialTransportPreference::IrohRelay
    );
    assert_eq!(
        BrowserDialOptions::webrtc_only().transport_preference,
        BrowserDialTransportPreference::WebRtcOnly
    );
    assert_eq!(BrowserDialTransportPreference::IrohRelay.as_wire_value(), "irohRelay");
    assert_eq!(BrowserDialTransportPreference::WebRtcPreferred.as_wire_value(), "webrtcPreferred");
    assert_eq!(BrowserDialTransportPreference::WebRtcOnly.as_wire_value(), "webrtcOnly");
}

#[test]
fn intents_read_back_from_their_wire_names() {
    for i in [
        BootstrapTransportIntent::IrohRelay,
        BootstrapTransportIntent::WebRtcPreferred,
        BootstrapTransportIntent::WebRtcOnly,
    ] {
        assert_eq!(BootstrapTransportIntent::from_wire_value(i.as_wire_value()), Some(i));
    }
    assert_eq!(BootstrapTransportIntent::from_wire_value("webrtc"), None);
    for p in [
        BrowserDialTransportPreference::IrohRelay,
        BrowserDialTransportPreference::WebRtcPreferred,
        BrowserDialTransportPreference::WebRtcOnly,
    ] {
        assert_eq!(BootstrapTransportIntent::from_preference(p).as_wire_value(), p.as_wire_value());
    }
    assert!(!BootstrapTransportIntent::IrohRelay.uses_webrtc());
    assert!(BootstrapTransportIntent::WebRtcOnly.uses_webrtc());
    assert!(!BootstrapTransportIntent::WebRtcOnly.allows_iroh_relay_fallback());
    assert!(BootstrapTransportIntent::WebRtcPreferred.allows_iroh_relay_fallback());
}

#[test]
fn native_dial_plans_and_fallback() {
    assert_eq!(dial_plan(BootstrapTransportIntent::IrohRelay), NativeDialPlan::Iroh);
    assert_eq!(dial_plan(BootstrapTransportIntent::WebRtcPreferred), NativeDialPlan::WebRtc);
    assert_eq!(dial_plan(BootstrapTransportIntent::WebRtcOnly), NativeDialPlan::WebRtc);
    assert!(falls_back_to_iroh(BootstrapTransportIntent::WebRtcPreferred, false));
    assert!(!falls_back_to_iroh(BootstrapTransportIntent::WebRtcPreferred, true));
    assert!(!falls_back_to_iroh(BootstrapTransportIntent::WebRtcOnly, false));
}

#[test]
fn dial_routes_match_between_the_two_sides() {
    let dialer = DialCoordinator::initiate_with_transport_intent(
        "alice", "bob", "dial-1", 2, BootstrapTransportIntent::WebRtcOnly,
    );
    let request = WebRtcSignal::dial_request_with_alpn(
        "dial-1", "alice", "bob", 2, "app/alpn", BootstrapTransportIntent::WebRtcOnly,
    );
    let answerer = DialCoordinator::respond_with_transport_intent(
        "bob", request.route(), BootstrapTransportIntent::WebRtcOnly,
    );
    let offer = dialer.offer("offer-sdp".into());
    assert!(answerer.accepts(&offer));
    assert!(!dialer.accepts(&offer));
    let answer = answerer.answer("answer-sdp".into());
    assert!(dialer.accepts(&answer));
    assert!(ensure_signal_route(&dialer, &answer).is_ok());
    assert_eq!(
        ensure_signal_route(&answerer, &answer).unwrap_err(),
        "native WebRTC bootstrap signal route did not match the session"
    );
    let other_generation = DialCoordinator::initiate_with_transport_intent(
        "alice", "bob", "dial-1", 3, BootstrapTransportIntent::WebRtcOnly,
    );
    assert!(!other_generation.accepts(&answer));
}

#[test]
fn terminal_errors_name_their_reason() {
    assert_eq!(
        terminal_error(WebRtcTerminalReason::WebRtcFailed, Some("ice failed".into())),
        "remote WebRTC failure: ice failed"
    );
    assert_eq!(
        terminal_error(WebRtcTerminalReason::FallbackSelected, None),
        "remote selected WebRTC fallback: remote terminal WebRTC signal"
    );
    assert_eq!(
        terminal_error(WebRtcTerminalReason::Cancelled, Some("user cancelled".into())),
        "remote cancelled WebRTC bootstrap: user cancelled"
    );
    assert_eq!(
        terminal_error(WebRtcTerminalReason::Closed, None),
        "remote closed WebRTC bootstrap: remote terminal WebRTC signal"
    );
}

#[test]
fn dialer_reacts_to_answerer_signals() {
    let dialer = DialCoordinator::initiate_with_transport_intent(
        "alice", "bob", "d", 1, BootstrapTransportIntent::WebRtcPreferred,
    );
    let answerer = DialCoordinator::initiate_with_transport_intent(
        "bob", "alice", "d", 1, BootstrapTransportIntent::WebRtcPreferred,
    );
    let mut state = DialerSignals::new();
    assert!(matches!(
        state.on_signal(&dialer, answerer.end_of_candidates()),
        DialerStep::AddEndOfCandidates { finished: false }
    ));
    assert!(matches!(
        state.on_signal(&dialer, answerer.answer("sdp".into())),
        DialerStep::ApplyAnswer { ref sdp } if sdp == "sdp"
    ));
    assert!(state.answered);
    let ice = WebRtcIceCandidate { candidate: "candidate:1".into(), sdp_mid: None, sdp_mline_index: Some(0) };
    assert!(matches!(
        state.on_signal(&dialer, answerer.ice_candidate(ice)),
        DialerStep::AddIceCandidate { ref ice } if ice.candidate == "candidate:1"
    ));
    assert!(matches!(
        state.on_signal(&dialer, answerer.end_of_candidates()),
        DialerStep::AddEndOfCandidates { finished: true }
    ));
    assert!(matches!(
        state.on_signal(&dialer, answerer.offer("again".into())),
        DialerStep::Fail { ref message } if message == "unexpected native WebRTC answerer signal"
    ));
    assert!(matches!(
        state.on_signal(&dialer, dialer.answer("mine".into())),
        DialerStep::Fail { ref message } if message == "native WebRTC bootstrap signal route did not match the session"
    ));
}

#[test]
fn answerer_reacts_to_dialer_signals() {
    let answerer = DialCoordinator::initiate_with_transport_intent(
        "bob", "alice", "d", 1, BootstrapTransportIntent::WebRtcOnly,
    );
    let dialer = DialCoordinator::initiate_with_transport_intent(
        "alice", "bob", "d", 1, BootstrapTransportIntent::WebRtcOnly,
    );
    let mut state = AnswererSignals::new();
    assert!(matches!(
        state.on_signal(&answerer, dialer.offer("o1".into())),
        AnswererStep::AnswerOffer { ref sdp } if sdp == "o1"
    ));
    assert!(matches!(
        state.on_signal(&answerer, dialer.offer("o2".into())),
        AnswererStep::ApplyOfferThenFail { ref sdp, ref message }
            if sdp == "o2" && message == "native WebRTC answer was already sent for this session"
    ));
    assert!(matches!(
        state.on_signal(&answerer, dialer.end_of_candidates()),
        AnswererStep::AddEndOfCandidates { finished: true }
    ));
    let terminal = WebRtcSignal::Terminal {
        route: SignalRoute {
            dial_id: "d".into(),
            from: "alice".into(),
            to: "bob".into(),
            generation: 1,
        },
        reason: WebRtcTerminalReason::Cancelled,
        message: Some("bye".into()),
    };
    assert!(matches!(
        state.on_signal(&answerer, terminal),
        AnswererStep::Fail { ref message } if message == "remote cancelled WebRTC bootstrap: bye"
    ));
}

#[test]
fn native_node_state_accept_queues_and_close() {
    let mut node: NativeNodeState<&str, u8, &str> = NativeNodeState::new();
    assert!(node.ensure_open().is_ok());
    assert_eq!(*node.accept_receiver(b"app/alpn".to_vec(), "q1").unwrap(), "q1");
    assert_eq!(*node.accept_receiver(b"app/alpn".to_vec(), "q2").unwrap(), "q1");
    assert_eq!(*node.accept_receiver(b"bench/alpn".to_vec(), "q3").unwrap(), "q3");
    assert_eq!(node.accept_queue_for(&b"app/alpn".to_vec()), Some(&"q1"));
    assert_eq!(node.accept_queue_for(&b"inactive/alpn".to_vec()), None);
    assert!(node.ensure_accepting_alpn(&b"bench/alpn".to_vec()).is_ok());
    assert_eq!(
        node.ensure_accepting_alpn(&b"inactive/alpn".to_vec()).unwrap_err(),
        "no active native WebRTC accept registration for ALPN"
    );
    assert_eq!(node.webrtc_alpns(), vec![b"app/alpn".to_vec(), b"bench/alpn".to_vec()]);
    assert_eq!(
        node.bootstrap_alpns(&b"boot".to_vec()),
        vec![b"boot".to_vec(), b"app/alpn".to_vec(), b"bench/alpn".to_vec()]
    );
    node.set_accept_aborts("accept", "webrtc-accept");
    assert!(node.track_session(1).is_ok());
    assert!(node.track_session(2).is_ok());

    let (alpns, old) = node.begin_webrtc_endpoint_restart().unwrap();
    assert_eq!(alpns.len(), 2);
    assert_eq!(old, Some("webrtc-accept"));
    assert!(node.finish_webrtc_endpoint_restart("webrtc-accept-2").is_ok());

    let work = node.begin_close().unwrap();
    assert_eq!(work.accept_abort, Some("accept"));
    assert_eq!(work.webrtc_accept_abort, Some("webrtc-accept-2"));
    assert_eq!(work.sessions, vec![1, 2]);
    assert!(node.is_closed());
    assert!(node.begin_close().is_none());
    assert_eq!(node.ensure_open().unwrap_err(), "native WebRTC node is closed");
    assert_eq!(node.track_session(3).unwrap_err(), "native WebRTC node is closed");
    assert!(node.accept_receiver(b"app/alpn".to_vec(), "q4").is_err());
    assert_eq!(node.accept_queue_for(&b"app/alpn".to_vec()), None);
    assert!(node.begin_webrtc_endpoint_restart().is_err());
    assert_eq!(node.finish_webrtc_endpoint_restart("late"), Err("late"));
}

#[test]
fn bootstrap_requests_are_checked() {
    let mut node: NativeNodeState<u8, u8, u8> = NativeNodeState::new();
    node.accept_receiver(b"app/alpn".to_vec(), 0).unwrap();
    let request = WebRtcSignal::dial_request_with_alpn(
        "d", "alice", "bob", 4, "app/alpn", BootstrapTransportIntent::WebRtcOnly,
    );
    let c = node.check_bootstrap_request("bob", &request).unwrap().unwrap();
    assert_eq!(c.local, "bob");
    assert_eq!(c.remote, "alice");
    assert_eq!(c.dial_id, "d");
    assert_eq!(c.generation, 4);
    assert_eq!(c.transport_intent, BootstrapTransportIntent::WebRtcOnly);
    assert_eq!(
        node.check_bootstrap_request("carol", &request).unwrap_err(),
        "native WebRTC bootstrap request was not addressed to this endpoint"
    );
    let relay = WebRtcSignal::dial_request_with_alpn(
        "d", "alice", "bob", 4, "app/alpn", BootstrapTransportIntent::IrohRelay,
    );
    assert!(node.check_bootstrap_request("bob", &relay).unwrap().is_none());
    let inactive = WebRtcSignal::dial_request_with_alpn(
        "d", "alice", "bob", 4, "inactive/alpn", BootstrapTransportIntent::WebRtcPreferred,
    );
    assert_eq!(
        node.check_bootstrap_request("bob", &inactive).unwrap_err(),
        "no active native WebRTC accept registration for ALPN"
    );
    let offer = c.offer("x".into());
    assert_eq!(
        node.check_bootstrap_request("bob", &offer).unwrap_err(),
        "first native WebRTC bootstrap signal was not a dial request"
    );
}

#[test]
fn selected_path_must_be_the_expected_webrtc_session() {
    let expected = WebRtcSessionAddr { endpoint_id: "e".into(), dial_id: "d".into() };
    let addr = |e: &str, d: &str| WebRtcSessionAddr { endpoint_id: e.into(), dial_id: d.into() };
    assert!(matches!(
        require_webrtc_selected_path(vec![], &expected),
        Err(SelectedPathError::NoSelectedPath)
    ));
    let paths = vec![
        PathView { selected: false, remote: PathRemote::Custom(Some(addr("e", "d"))) },
        PathView { selected: true, remote: PathRemote::Other },
    ];
    assert!(matches!(
        require_webrtc_selected_path(paths, &expected),
        Err(SelectedPathError::NonCustom { index: 1 })
    ));
    let paths = vec![PathView { selected: true, remote: PathRemote::Custom(None) }];
    assert!(matches!(
        require_webrtc_selected_path(paths, &expected),
        Err(SelectedPathError::NotWebRtcSession)
    ));
    let paths = vec![
        PathView { selected: true, remote: PathRemote::Custom(Some(addr("e", "other"))) },
        PathView { selected: true, remote: PathRemote::Custom(Some(addr("e", "d"))) },
    ];
    assert!(matches!(
        require_webrtc_selected_path(paths, &expected),
        Err(SelectedPathError::Mismatch { ref actual }) if actual.dial_id == "other"
    ));
    let paths = vec![
        PathView { selected: false, remote: PathRemote::Other },
        PathView { selected: true, remote: PathRemote::Custom(Some(addr("e", "d"))) },
    ];
    assert!(require_webrtc_selected_path(paths, &expected).is_ok());
}

#[test]
fn settled_sessions_map_to_prepare_actions() {
    assert_eq!(
        pending_prepare_action_from_session(&session(None, Some("irohRelay"), Some("open"), None)),
        Some(PendingPrepareAction::WebRtc)
    );
    assert_eq!(
        pending_prepare_action_from_session(&session(None, Some("irohRelay"), None, Some("failed"))),
        Some(PendingPrepareAction::Relay)
    );
    assert_eq!(
        pending_prepare_action_from_session(&session(None, None, None, Some("relaySelected"))),
        Some(PendingPrepareAction::Relay)
    );
    assert_eq!(
        pending_prepare_action_from_session(&session(None, None, Some("failed"), Some("closed"))),
        Some(PendingPrepareAction::Fail)
    );
    assert_eq!(
        pending_prepare_action_from_session(&session(None, None, Some("closed"), None)),
        Some(PendingPrepareAction::Closed)
    );
    assert_eq!(
        pending_prepare_action_from_session(&session(None, Some("webrtc"), Some("pending"), Some("active"))),
        None
    );
}

#[test]
fn prepares_complete_from_results() {
    let mut t = prepares_with("s", BootstrapTransportIntent::WebRtcOnly);
    let r = complete_pending_protocol_transport_prepare_from_result(
        &mut t, Some("s".into()), Some(session(Some(3), None, Some("open"), None)),
    )
    .ok()
    .unwrap();
    match r {
        Some((sender, PrepareResolution::AddSessionAddr { remote, dial_id })) => {
            assert_eq!((sender, remote, dial_id), ("tx", 77, 3));
        }
        _ => panic!("expected a session address"),
    }
    assert_eq!(t.len(), 0);

    let mut t = prepares_with("s", BootstrapTransportIntent::WebRtcOnly);
    let r = complete_pending_protocol_transport_prepare_from_result(
        &mut t, Some("s".into()), Some(session(None, Some("irohRelay"), None, None)),
    )
    .ok()
    .unwrap();
    match r {
        Some((_, PrepareResolution::Failed(e))) => {
            assert_eq!(e.code, BrowserWorkerErrorCode::WebRtcFailed);
            assert_eq!(e.message, "WebRTC-only protocol transport preparation resolved to relay");
        }
        _ => panic!("expected a failure"),
    }

    let mut t = prepares_with("s", BootstrapTransportIntent::WebRtcPreferred);
    let r = complete_pending_protocol_transport_prepare_from_result(
        &mut t, Some("s".into()), Some(session(None, Some("irohRelay"), None, None)),
    )
    .ok()
    .unwrap();
    assert!(matches!(r, Some((_, PrepareResolution::Ready))));

    let mut t = prepares_with("s", BootstrapTransportIntent::WebRtcPreferred);
    let r = complete_pending_protocol_transport_prepare_from_result(
        &mut t, Some("s".into()), Some(session(None, None, Some("open"), None)),
    )
    .ok()
    .unwrap();
    match r {
        Some((_, PrepareResolution::Failed(e))) => {
            assert_eq!(e.message, "prepared WebRTC session is missing dial id")
        }
        _ => panic!("expected a failure"),
    }

    let mut t = prepares_with("s", BootstrapTransportIntent::WebRtcPreferred);
    let r = complete_pending_protocol_transport_prepare_from_result(
        &mut t, Some("s".into()), Some(session(None, None, None, Some("closed"))),
    )
    .ok()
    .unwrap();
    match r {
        Some((_, PrepareResolution::Failed(e))) => {
            assert_eq!(e.code, BrowserWorkerErrorCode::Closed);
            assert_eq!(e.message, "browser worker node is closed");
        }
        _ => panic!("expected closed"),
    }

    let mut t = prepares_with("s", BootstrapTransportIntent::WebRtcPreferred);
    let r = complete_pending_protocol_transport_prepare_from_result(
        &mut t, Some("s".into()), Some(session(None, None, None, None)),
    )
    .ok()
    .unwrap();
    assert!(r.is_none());
    assert_eq!(t.len(), 1);
    let r = complete_pending_protocol_transport_prepare_from_result(
        &mut t, Some("other".into()), Some(session(None, None, None, Some("failed"))),
    )
    .ok()
    .unwrap();
    assert!(r.is_none());
    assert_eq!(t.len(), 1);

    let mut t = prepares_with("", BootstrapTransportIntent::WebRtcPreferred);
    let e = complete_pending_protocol_transport_prepare_from_result(
        &mut t, Some(String::new()), Some(session(None, None, None, Some("failed"))),
    )
    .err()
    .unwrap();
    assert_eq!(e.code, BrowserWorkerErrorCode::WebRtcFailed);
    assert_eq!(e.message, "session key must not be empty");
    assert_eq!(t.len(), 0);
}

#[test]
fn prepare_cleanup_releases_both_tables() {
    let mut prepares: KeyedTable<String, u8> = KeyedTable::new();
    let mut senders: KeyedTable<String, u8> = KeyedTable::new();
    prepares.insert_new("s".into(), 1).unwrap();
    prepares.insert_new("t".into(), 2).unwrap();
    senders.insert_new("s".into(), 3).unwrap();
    let cleanup = PendingProtocolTransportPrepareCleanup::new("s".into());
    cleanup.release(&mut prepares, &mut senders);
    assert_eq!(prepares.keys(), vec!["t".to_string()]);
    assert_eq!(senders.len(), 0);
}

#[test]
fn worker_payloads_carry_their_fields() {
    let config: BrowserWebRtcNodeConfig<u8> =
        BrowserWebRtcNodeConfig::with_stun_urls(vec!["stun:stun.example.test:3478".into()]);
    assert_eq!(config.worker_url, "./iroh-webrtc-worker.js");
    let spawn = spawn_payload(&config);
    assert_eq!(spawn.stun_urls, vec!["stun:stun.example.test:3478".to_string()]);
    assert_eq!(spawn.low_latency_quic_acks, None);
    let config = config.with_low_latency_quic_acks(true);
    assert_eq!(spawn_payload(&config).low_latency_quic_acks, Some(true));

    let dial = dial_payload("node", b"app/alpn", BrowserDialOptions::iroh_relay());
    assert_eq!(dial.remote_endpoint, "node");
    assert_eq!(dial.alpn, "app/alpn");
    assert_eq!(dial.transport_intent, "irohRelay");
    let lossy = dial_payload("node", &[0x61, 0xff, 0x62], BrowserDialOptions::default());
    assert_eq!(lossy.alpn, "a\u{fffd}b");
    assert_eq!(lossy.transport_intent, "webrtcPreferred");

    let lat = benchmark_latency_payload("node", b"bench", 10, 2);
    assert_eq!((lat.transport_intent.as_str(), lat.samples, lat.warmups), ("webrtcOnly", 10, 2));
    let thr = benchmark_throughput_payload("node", b"bench", 1024, 64);
    assert_eq!((thr.transport_intent.as_str(), thr.bytes, thr.warmup_bytes), ("webrtcOnly", 1024, 64));

    let p = alpn_payload(b"app/alpn");
    assert_eq!((p.field, p.key.as_str(), p.reason), ("alpn", "app/alpn", None));
    let p = accept_payload("accept-1");
    assert_eq!((p.field, p.key.as_str()), ("acceptKey", "accept-1"));
    let p = accept_reason_payload("accept-1", "done");
    assert_eq!(p.reason.as_deref(), Some("done"));
    let p = connection_payload("conn-1");
    assert_eq!((p.field, p.key.as_str()), ("connectionKey", "conn-1"));
    let p = connection_reason_payload("conn-1", "bye");
    assert_eq!(p.reason.as_deref(), Some("bye"));
    let p = stream_payload("stream-9");
    assert_eq!((p.field, p.key.as_str()), ("streamKey", "stream-9"));
    assert_eq!(reason_payload("test shutdown").reason, "test shutdown");
}

#[test]
fn config_builders_and_equality() {
    let base: BrowserWebRtcNodeConfig<u8> = BrowserWebRtcNodeConfig::with_stun_urls(vec!["a".into()]);
    let other: BrowserWebRtcNodeConfig<u8> = BrowserWebRtcNodeConfig::with_stun_urls(vec!["a".into()]);
    assert!(base.config_eq(&other, false));
    let with_factory = other.with_worker_factory(1);
    assert_eq!(with_factory.worker_factory, Some(1));
    assert!(!base.config_eq(&with_factory, true));
    let again: BrowserWebRtcNodeConfig<u8> =
        BrowserWebRtcNodeConfig::with_stun_urls(vec!["a".into()]).with_worker_factory(1);
    assert!(with_factory.config_eq(&again, true));
    assert!(!with_factory.config_eq(&again, false));
    let url = again.with_worker_url("./other.js".into());
    assert_eq!(url.worker_url, "./other.js");
    assert_eq!(url.worker_factory, None);
    assert!(!base.config_eq(&url, false));
    let more: BrowserWebRtcNodeConfig<u8> = BrowserWebRtcNodeConfig::with_stun_urls(vec!["a".into(), "b".into()]);
    assert!(!base.config_eq(&more, false));
    assert!(worker_factory_eq::<u8>(&None, &None, false));
    assert!(!worker_factory_eq(&Some(1u8), &None, true));
}

#[test]
fn worker_source_prefers_configured_then_global_factory() {
    assert!(matches!(worker_source(Some(1u8), Some(2), "u".into()), WorkerSource::Factory(1)));
    assert!(matches!(worker_source(None, Some(2u8), "u".into()), WorkerSource::Factory(2)));
    assert!(matches!(worker_source::<u8>(None, None, "u".into()), WorkerSource::Url(ref u) if u == "u"));
}

#[test]
fn acceptor_and_stream_outcomes() {
    let mut acceptor = BrowserAcceptorState::new();
    assert_eq!(acceptor.on_accept_next(false, Some(5u8)), Ok(Some(5)));
    assert_eq!(
        acceptor.on_accept_next::<u8>(false, None),
        Err("browser worker accept result missing connection".to_string())
    );
    assert!(!acceptor.closed);
    assert_eq!(acceptor.on_accept_next::<u8>(true, None), Ok(None));
    assert!(acceptor.closed);
    assert!(!acceptor.begin_close());

    let mut acceptor = BrowserAcceptorState::new();
    assert!(acceptor.begin_close());
    assert!(!acceptor.begin_close());

    assert_eq!(accept_bi_outcome(false, Some("s".into())), Ok("s".to_string()));
    assert_eq!(
        accept_bi_outcome(true, Some("s".into())),
        Err("connection stream accept completed".to_string())
    );
    assert_eq!(
        accept_bi_outcome(false, None),
        Err("browser worker stream accept result missing streamKey".to_string())
    );
    assert_eq!(receive_chunk_outcome(true, Some(vec![1])), None);
    assert_eq!(receive_chunk_outcome(false, None), Some(vec![]));
    assert_eq!(receive_chunk_outcome(false, Some(vec![1, 2])), Some(vec![1, 2]));

    let mut read = ReadToEnd::new();
    assert!(!read.push(Some(vec![1, 2])));
    assert!(!read.push(Some(vec![])));
    assert!(!read.push(Some(vec![3])));
    assert!(read.push(None));
    assert_eq!(read.into_bytes(), vec![1, 2, 3]);
}

#[test]
fn bootstrap_alpn_must_be_utf8() {
    assert_eq!(bootstrap_alpn_text(b"app/alpn").unwrap(), "app/alpn");
    assert_eq!(bootstrap_alpn_text("é/1".as_bytes()).unwrap(), "é/1");
    assert_eq!(
        bootstrap_alpn_text(&[0x61, 0xff]).unwrap_err(),
        "native WebRTC bootstrap ALPN must be valid UTF-8"
    );
    assert!(bootstrap_alpn_text(&[0xed, 0xa0, 0x80]).is_err());
}

#[test]
fn incoming_connections_are_routed_by_alpn() {
    let mut node: NativeNodeState<&str, u8, u8> = NativeNodeState::new();
    node.accept_receiver(b"app/alpn".to_vec(), "queue").unwrap();
    let boot = b"iroh-webrtc/bootstrap".to_vec();
    assert!(matches!(node.route_incoming(&boot, &boot, false), IncomingRoute::Bootstrap));
    assert!(matches!(
        node.route_incoming(&boot, &boot, true),
        IncomingRoute::Refuse("bootstrap is not accepted on WebRTC app endpoint")
    ));
    assert!(matches!(
        node.route_incoming(&b"app/alpn".to_vec(), &boot, true),
        IncomingRoute::Queue(&"queue")
    ));
    assert!(matches!(
        node.route_incoming(&b"other".to_vec(), &boot, false),
        IncomingRoute::Refuse("native facade ALPN is not accepting")
    ));
}

#[test]
fn local_ice_events_become_signals() {
    let c = DialCoordinator::initiate_with_transport_intent(
        "alice", "bob", "d", 1, BootstrapTransportIntent::WebRtcOnly,
    );
    let remote = DialCoordinator::initiate_with_transport_intent(
        "bob", "alice", "d", 1, BootstrapTransportIntent::WebRtcOnly,
    );
    let ice = WebRtcIceCandidate { candidate: "candidate:1".into(), sdp_mid: Some("0".into()), sdp_mline_index: None };
    let (signal, last) = c.local_ice_signal(LocalIceEvent::Candidate(ice));
    assert!(!last);
    assert!(remote.accepts(&signal));
    assert!(matches!(signal, WebRtcSignal::IceCandidate { ref ice, .. } if ice.candidate == "candidate:1"));
    let (signal, last) = c.local_ice_signal(LocalIceEvent::EndOfCandidates);
    assert!(last);
    assert!(matches!(signal, WebRtcSignal::EndOfCandidates { .. }));
}

#[test]
fn preparations_begin_under_their_session_key() {
    let mut prepares: KeyedTable<String, PendingProtocolTransportPrepare<&str, u32>> = KeyedTable::new();
    let mut senders: KeyedTable<String, u8> = KeyedTable::new();
    let prepare = |sender| PendingProtocolTransportPrepare {
        sender,
        remote: 1,
        transport_intent: BootstrapTransportIntent::WebRtcPreferred,
    };
    let e = begin_protocol_transport_prepare(&mut prepares, &mut senders, String::new(), 1, prepare("a"))
        .err()
        .unwrap();
    assert_eq!(e.code, BrowserWorkerErrorCode::WebRtcFailed);
    assert_eq!(e.message, "session key must not be empty");
    assert_eq!((prepares.len(), senders.len()), (0, 0));

    let cleanup = begin_protocol_transport_prepare(&mut prepares, &mut senders, "s".into(), 1, prepare("a"))
        .ok()
        .unwrap();
    let _again = begin_protocol_transport_prepare(&mut prepares, &mut senders, "s".into(), 2, prepare("b"))
        .ok()
        .unwrap();
    assert_eq!(prepares.len(), 1);
    assert_eq!(prepares.get(&"s".to_string()).map(|p| p.sender), Some("b"));
    assert_eq!(senders.get(&"s".to_string()), Some(&2));
    cleanup.release(&mut prepares, &mut senders);
    assert_eq!((prepares.len(), senders.len()), (0, 0));
}

#[test]
fn keyed_table_insert_replaces() {
    let mut t: KeyedTable<u64, &str> = KeyedTable::new();
    assert_eq!(t.insert(5, "a"), None);
    assert_eq!(t.insert(5, "b"), Some("a"));
    assert_eq!(t.get(&5), Some(&"b"));
    assert_eq!(t.len(), 1);
}
