use iroh_webrtc_transport::browser_protocol::{
    MainRtcCommandName, MAIN_RTC_ADD_REMOTE_ICE_COMMAND, MAIN_RTC_CREATE_ANSWER_COMMAND,
    MAIN_RTC_CREATE_DATA_CHANNEL_COMMAND, MAIN_RTC_CREATE_OFFER_COMMAND,
    MAIN_RTC_CREATE_PEER_CONNECTION_COMMAND, MAIN_RTC_NEXT_LOCAL_ICE_COMMAND,
    MAIN_RTC_TAKE_DATA_CHANNEL_COMMAND,
};
use iroh_webrtc_transport::capabilities::{validate_session_key, MAX_SESSION_KEY_LEN};
use iroh_webrtc_transport::error::{Error, IoErrorKind};
use iroh_webrtc_transport::js_wire::{
    js_error_text, JsErrorParts, error_to_wire_value_for_command, worker_bridge_error_from_error, worker_bridge_wire_error,
    wire_error_reason,
};
use iroh_webrtc_transport::keyed_table::KeyedTable;
use iroh_webrtc_transport::main_rtc::{
    main_rtc_command_request_envelope, main_rtc_event_from_command,
    main_rtc_event_from_event_name, main_rtc_result_input_from_payload, BrowserWorkerError,
    BrowserWorkerErrorCode, MainRtcResultBody, MainRtcResultPayload,
    WorkerMainClosePeerConnectionPayload, WorkerMainCreatePeerConnectionPayload,
    WorkerMainRtcCommand, WorkerMainRtcResultEvent, WorkerProtocolIceCandidate, WorkerSessionKey,
    WorkerSessionRole,
};
use iroh_webrtc_transport::registry::{
    main_rtc_command_for, IncomingDataChannels, MainRtcRegistryRequest, MainRtcRegistryWork,
    WebRtcMainThreadRegistry,
};
use iroh_webrtc_transport::request_tracker::WorkerRequestBook;
use iroh_webrtc_transport::worker_bridge::{
    node_shut_down_error, worker_crashed_error, worker_error_message, worker_invalid_message_error,
    worker_request_payload, WorkerMessageAction,
};
use iroh_webrtc_transport::rtc_control_wire::{
    posts_with_transfer, rtc_control_error_response, rtc_control_failure,
    rtc_control_request_from_js, rtc_control_success_response, rtc_control_undecodable,
    RtcControlPayload, RtcControlRequestEnvelope, RtcControlResponse,
};

fn payload_with(session_key: &str) -> MainRtcResultPayload {
    MainRtcResultPayload {
        session_key: session_key.into(),
        command: None,
        event: None,
        result: None,
        error: None,
        message: None,
        reason: None,
    }
}

fn sdp_body(sdp: &str) -> MainRtcResultBody {
    MainRtcResultBody { sdp: Ok(sdp.into()), ice: Err("missing field `type`".into()) }
}

fn ice_body(ice: WorkerProtocolIceCandidate) -> MainRtcResultBody {
    MainRtcResultBody { sdp: Err("unknown field `type`".into()), ice: Ok(ice) }
}

fn empty_body() -> MainRtcResultBody {
    MainRtcResultBody { sdp: Err("missing field `sdp`".into()), ice: Err("missing field `type`".into()) }
}

fn envelope(kind: &str, command: &str, payload: Option<RtcControlPayload<u8>>) -> RtcControlRequestEnvelope<u8> {
    RtcControlRequestEnvelope {
        kind: kind.into(),
        id: 9,
        command: command.into(),
        payload,
    }
}

#[test]
fn error_messages_and_io_kinds_cover_every_variant() {
    let cases: Vec<(Error, &str, IoErrorKind)> = vec![
        (Error::InvalidAddr("bad"), "invalid WebRTC custom address: bad", IoErrorKind::InvalidInput),
        (Error::InvalidFrame("short"), "invalid WebRTC frame: short", IoErrorKind::InvalidInput),
        (
            Error::PayloadTooLarge { actual: 70000, max: 65536 },
            "payload length 70000 exceeds maximum 65536",
            IoErrorKind::InvalidInput,
        ),
        (Error::UnknownSession, "unknown WebRTC session", IoErrorKind::NotConnected),
        (Error::SessionClosed, "WebRTC session is closed", IoErrorKind::NotConnected),
        (Error::SendQueueFull, "WebRTC send queue is full", IoErrorKind::WouldBlock),
        (
            Error::BrowserWebRtcUnavailable,
            "browser WebRTC APIs are only available on wasm32-unknown-unknown",
            IoErrorKind::Unsupported,
        ),
        (Error::WebRtc("boom".into()), "browser WebRTC operation failed: boom", IoErrorKind::Other),
        (Error::InvalidIceConfig("stun"), "invalid WebRTC ICE configuration: stun", IoErrorKind::Other),
        (Error::InvalidConfig("cfg"), "invalid WebRTC configuration: cfg", IoErrorKind::Other),
    ];
    for (error, message, kind) in cases {
        assert_eq!(error.message(), message);
        assert_eq!(error.io_error_kind(), kind);
    }
}

#[test]
fn payload_too_large_renders_zero_and_large_numbers() {
    let e = Error::PayloadTooLarge { actual: 0, max: 18446744073709551615 };
    assert_eq!(e.message(), "payload length 0 exceeds maximum 18446744073709551615");
}

#[test]
fn session_key_validation_edges() {
    assert!(validate_session_key(&"x".repeat(MAX_SESSION_KEY_LEN)).is_ok());
    assert!(matches!(
        validate_session_key(""),
        Err(Error::InvalidConfig("session key must not be empty"))
    ));
    assert!(matches!(
        validate_session_key(&"x".repeat(MAX_SESSION_KEY_LEN + 1)),
        Err(Error::InvalidConfig("session key is too long"))
    ));
    assert!(matches!(
        validate_session_key("a\u{7f}b"),
        Err(Error::InvalidConfig("session key must not contain control characters"))
    ));
    assert!(matches!(
        validate_session_key("a\u{85}b"),
        Err(Error::InvalidConfig("session key must not contain control characters"))
    ));
    // A multi-byte key is measured in bytes: 129 two-byte characters are too long.
    assert!(matches!(
        validate_session_key(&"é".repeat(129)),
        Err(Error::InvalidConfig("session key is too long"))
    ));
    assert!(validate_session_key(&"é".repeat(128)).is_ok());
    assert!(validate_session_key("sessión-ü").is_ok());
}

#[test]
fn every_command_name_reads_back_as_itself() {
    let all = [
        MainRtcCommandName::CreatePeerConnection,
        MainRtcCommandName::CreateDataChannel,
        MainRtcCommandName::TakeDataChannel,
        MainRtcCommandName::CreateOffer,
        MainRtcCommandName::AcceptOffer,
        MainRtcCommandName::CreateAnswer,
        MainRtcCommandName::AcceptAnswer,
        MainRtcCommandName::NextLocalIce,
        MainRtcCommandName::AddRemoteIce,
        MainRtcCommandName::ClosePeerConnection,
    ];
    for c in all {
        assert_eq!(MainRtcCommandName::from_name(c.as_str()), Some(c));
        assert_eq!(main_rtc_command_for(c.as_str()).unwrap(), c);
    }
    assert_eq!(MainRtcCommandName::CreateOffer.as_str(), MAIN_RTC_CREATE_OFFER_COMMAND);
    assert_eq!(MainRtcCommandName::TakeDataChannel.as_str(), MAIN_RTC_TAKE_DATA_CHANNEL_COMMAND);
    assert_eq!(MainRtcCommandName::from_name("main.create"), None);
    assert_eq!(MainRtcCommandName::from_name(""), None);
}

#[test]
fn unknown_registry_command_is_a_webrtc_error() {
    match main_rtc_command_for("main.bogus") {
        Err(Error::WebRtc(m)) => assert_eq!(m, "unknown main-thread RTC command: main.bogus"),
        other => panic!("unexpected {other:?}"),
    }
}

#[test]
fn wire_errors_carry_code_message_detail_and_reason() {
    let w = error_to_wire_value_for_command(
        Some(MAIN_RTC_CREATE_DATA_CHANNEL_COMMAND),
        Error::InvalidConfig("bad label"),
    );
    assert_eq!(w.code, "dataChannelFailed");
    assert_eq!(w.message, "invalid WebRTC configuration: bad label");
    assert_eq!(w.detail.command.as_deref(), Some(MAIN_RTC_CREATE_DATA_CHANNEL_COMMAND));
    assert_eq!(w.detail.reason, Some("invalidConfig"));

    let w = error_to_wire_value_for_command(None, Error::WebRtc("x".into()));
    assert_eq!(w.code, "webrtcFailed");
    assert_eq!(w.detail.command, None);
    assert_eq!(w.detail.reason, Some("webRtcOperationFailed"));

    assert_eq!(wire_error_reason(&Error::UnknownSession), "unknownSessionKey");
    assert_eq!(wire_error_reason(&Error::PayloadTooLarge { actual: 2, max: 1 }), "payloadTooLarge");

    let b = worker_bridge_wire_error("closed", "worker gone", Some("worker.dial"));
    assert_eq!(b.code, "closed");
    assert_eq!(b.message, "worker gone");
    assert_eq!(b.detail.command.as_deref(), Some("worker.dial"));
    assert_eq!(b.detail.reason, None);

    let b = worker_bridge_error_from_error(Some(MAIN_RTC_CREATE_PEER_CONNECTION_COMMAND), Error::SessionClosed);
    assert_eq!(b.code, "closed");
    assert_eq!(b.message, "WebRTC session is closed");
    assert_eq!(b.detail.reason, None);
}

#[test]
fn browser_worker_error_codes_have_wire_names() {
    assert_eq!(BrowserWorkerErrorCode::SpawnFailed.as_str(), "spawnFailed");
    assert_eq!(BrowserWorkerErrorCode::InvalidRemote.as_str(), "invalidRemote");
    assert_eq!(BrowserWorkerErrorCode::UnsupportedAlpn.as_str(), "unsupportedAlpn");
    assert_eq!(BrowserWorkerErrorCode::BootstrapFailed.as_str(), "bootstrapFailed");
    let closed = BrowserWorkerError::closed();
    assert_eq!(closed.code, BrowserWorkerErrorCode::Closed);
    assert_eq!(closed.message, "browser worker node is closed");
    let wire = closed.wire_error();
    assert_eq!(wire.code, BrowserWorkerErrorCode::Closed);
    assert_eq!(wire.message, "browser worker node is closed");
}

#[test]
fn empty_worker_session_key_is_refused() {
    let e = WorkerSessionKey::new(String::new()).unwrap_err();
    assert_eq!(e.code, BrowserWorkerErrorCode::WebRtcFailed);
    assert_eq!(e.message, "session key must not be empty");
    assert_eq!(WorkerSessionKey::new("k".into()).unwrap().as_str(), "k");
}

#[test]
fn request_envelope_remembers_generation_and_reason() {
    let create = WorkerMainRtcCommand::CreatePeerConnection(WorkerMainCreatePeerConnectionPayload {
        session_key: "s".into(),
        role: WorkerSessionRole::Dialer,
        generation: 5,
        stun_urls: vec!["stun:example.test:3478".into()],
        remote_endpoint: "remote".into(),
    });
    let (env, pending) = main_rtc_command_request_envelope(3, create);
    assert_eq!(env.command, MAIN_RTC_CREATE_PEER_CONNECTION_COMMAND);
    assert_eq!(pending.generation, Some(5));
    assert_eq!(pending.reason, None);

    let close = WorkerMainRtcCommand::ClosePeerConnection(WorkerMainClosePeerConnectionPayload {
        session_key: "s".into(),
        reason: Some("done".into()),
    });
    let (env, pending) = main_rtc_command_request_envelope(4, close);
    assert_eq!(env.command, "main.close-peer-connection");
    assert_eq!(pending.generation, None);
    assert_eq!(pending.reason.as_deref(), Some("done"));
}

#[test]
fn command_results_map_to_events() {
    assert_eq!(
        main_rtc_event_from_command(MAIN_RTC_CREATE_PEER_CONNECTION_COMMAND, None).unwrap(),
        WorkerMainRtcResultEvent::PeerConnectionCreated
    );
    assert_eq!(
        main_rtc_event_from_command(MAIN_RTC_TAKE_DATA_CHANNEL_COMMAND, None).unwrap(),
        WorkerMainRtcResultEvent::DataChannelCreated
    );
    assert_eq!(
        main_rtc_event_from_command(
            MAIN_RTC_CREATE_OFFER_COMMAND,
            Some(sdp_body("o"))
        )
        .unwrap(),
        WorkerMainRtcResultEvent::OfferCreated { sdp: "o".into() }
    );
    assert_eq!(
        main_rtc_event_from_command(
            MAIN_RTC_CREATE_ANSWER_COMMAND,
            Some(sdp_body("a"))
        )
        .unwrap(),
        WorkerMainRtcResultEvent::AnswerCreated { sdp: "a".into() }
    );
    assert_eq!(
        main_rtc_event_from_command(
            MAIN_RTC_NEXT_LOCAL_ICE_COMMAND,
            Some(ice_body(WorkerProtocolIceCandidate::EndOfCandidates))
        )
        .unwrap(),
        WorkerMainRtcResultEvent::LocalIce { ice: WorkerProtocolIceCandidate::EndOfCandidates }
    );
    assert_eq!(
        main_rtc_event_from_command(MAIN_RTC_ADD_REMOTE_ICE_COMMAND, None).unwrap(),
        WorkerMainRtcResultEvent::RemoteIceAccepted
    );
}

#[test]
fn malformed_command_results_fail_with_their_message() {
    let e = main_rtc_event_from_command(MAIN_RTC_CREATE_OFFER_COMMAND, None).unwrap_err();
    assert_eq!(e.code, BrowserWorkerErrorCode::WebRtcFailed);
    assert_eq!(e.message, "main RTC \"main.create-offer\" result is missing result");
    let e = main_rtc_event_from_command(MAIN_RTC_CREATE_ANSWER_COMMAND, Some(empty_body())).unwrap_err();
    assert_eq!(e.message, "main RTC SDP result has invalid shape: missing field `sdp`");
    let e = main_rtc_event_from_command(MAIN_RTC_NEXT_LOCAL_ICE_COMMAND, None).unwrap_err();
    assert_eq!(e.message, "main RTC local ICE result is missing result");
    let e = main_rtc_event_from_command(
        MAIN_RTC_NEXT_LOCAL_ICE_COMMAND,
        Some(sdp_body("x")),
    )
    .unwrap_err();
    assert_eq!(e.message, "main RTC ICE result has invalid shape: missing field `type`");
    let e = main_rtc_event_from_command("main.bo\"gus", None).unwrap_err();
    assert_eq!(e.message, "unsupported main RTC result command \"main.bo\\\"gus\"");
}

#[test]
fn event_names_map_to_events() {
    assert_eq!(
        main_rtc_event_from_event_name("dataChannelOpen", None, None).unwrap(),
        WorkerMainRtcResultEvent::DataChannelOpen
    );
    assert_eq!(
        main_rtc_event_from_event_name("failed", None, Some("ice".into())).unwrap(),
        WorkerMainRtcResultEvent::WebRtcFailed { message: "ice".into() }
    );
    assert_eq!(
        main_rtc_event_from_event_name("webrtcFailed", Some("m".into()), Some("r".into())).unwrap(),
        WorkerMainRtcResultEvent::WebRtcFailed { message: "m".into() }
    );
    assert_eq!(
        main_rtc_event_from_event_name("webrtcFailed", None, None).unwrap(),
        WorkerMainRtcResultEvent::WebRtcFailed { message: "main-thread WebRTC failed".into() }
    );
    assert_eq!(
        main_rtc_event_from_event_name("closed", None, None).unwrap(),
        WorkerMainRtcResultEvent::WebRtcClosed { message: "main-thread WebRTC closed".into() }
    );
    let e = main_rtc_event_from_event_name("weird", None, None).unwrap_err();
    assert_eq!(e.message, "unsupported main RTC result event \"weird\"");
}

#[test]
fn result_payload_reading_order() {
    let e = main_rtc_result_input_from_payload(payload_with("")).unwrap_err();
    assert_eq!(e.message, "session key must not be empty");

    let e = main_rtc_result_input_from_payload(payload_with("s")).unwrap_err();
    assert_eq!(e.message, "main RTC result payload must include command or event");

    let mut p = payload_with("s");
    p.event = Some("dataChannelOpen".into());
    p.command = Some("main.bogus".into());
    let input = main_rtc_result_input_from_payload(p).unwrap();
    assert_eq!(input.event, WorkerMainRtcResultEvent::DataChannelOpen);
    assert_eq!(input.session_key.as_str(), "s");
    assert_eq!(input.error_message, None);

    let mut p = payload_with("s");
    p.command = Some(MAIN_RTC_CREATE_ANSWER_COMMAND.into());
    p.result = Some(sdp_body("ans"));
    let input = main_rtc_result_input_from_payload(p).unwrap();
    assert_eq!(input.event, WorkerMainRtcResultEvent::AnswerCreated { sdp: "ans".into() });
}

#[test]
fn rtc_control_requests_are_checked() {
    let req = rtc_control_request_from_js(envelope("request", "main.create-offer", Some(RtcControlPayload::Object(5)))).unwrap();
    assert_eq!(req.id, 9);
    assert_eq!(req.command, "main.create-offer");
    assert_eq!(req.payload, Some(5));
    let req = rtc_control_request_from_js(envelope("request", "main.x", None)).unwrap();
    assert_eq!(req.payload, None);

    match rtc_control_request_from_js(envelope("response", "main.x", None)) {
        Err(Error::WebRtc(m)) => assert_eq!(m, "malformed RTC control message: kind must be request"),
        _ => panic!("kind must be checked"),
    }
    match rtc_control_request_from_js(envelope("request", "worker.spawn", None)) {
        Err(Error::WebRtc(m)) => assert_eq!(m, "unsupported RTC control command \"worker.spawn\""),
        _ => panic!("command prefix must be checked"),
    }
    match rtc_control_request_from_js(envelope("request", "main", None)) {
        Err(Error::WebRtc(m)) => assert_eq!(m, "unsupported RTC control command \"main\""),
        _ => panic!("command prefix must be checked"),
    }
    match rtc_control_request_from_js(envelope("request", "main.x", Some(RtcControlPayload::NotObject))) {
        Err(Error::WebRtc(m)) => assert_eq!(m, "malformed payload for main.x: payload must be an object"),
        _ => panic!("payload must be checked"),
    }
}

#[test]
fn rtc_control_responses() {
    let ok: RtcControlResponse<u8, u8> = rtc_control_success_response(4, 1);
    assert_eq!(ok.kind(), "response");
    assert_eq!(ok.id(), 4);
    assert!(ok.ok());
    let err: RtcControlResponse<u8, u8> = rtc_control_error_response(5, 2);
    assert_eq!(err.id(), 5);
    assert!(!err.ok());

    let failure: RtcControlResponse<u8, _> =
        rtc_control_failure(6, Some(MAIN_RTC_CREATE_OFFER_COMMAND), Error::UnknownSession);
    match failure {
        RtcControlResponse::Failure { id, error } => {
            assert_eq!(id, 6);
            assert_eq!(error.code, "webrtcFailed");
            assert_eq!(error.message, "unknown WebRTC session");
        }
        _ => panic!("expected failure"),
    }
    let none: Option<RtcControlResponse<u8, _>> = rtc_control_undecodable(None, Error::SessionClosed);
    assert!(none.is_none());
    match rtc_control_undecodable::<u8>(Some(8), Error::SessionClosed) {
        Some(RtcControlResponse::Failure { id, error }) => {
            assert_eq!(id, 8);
            assert_eq!(error.code, "closed");
            assert_eq!(error.detail.command, None);
        }
        _ => panic!("expected failure"),
    }
    assert!(!posts_with_transfer(None));
    assert!(!posts_with_transfer(Some(0)));
    assert!(posts_with_transfer(Some(2)));
}

#[test]
fn registry_sessions_and_ports() {
    let mut reg: WebRtcMainThreadRegistry<u32, &str> = WebRtcMainThreadRegistry::new();
    assert!(matches!(reg.check_new_session("s1", false), Err(Error::BrowserWebRtcUnavailable)));
    assert!(matches!(reg.check_new_session("", true), Err(Error::InvalidConfig("session key must not be empty"))));
    assert!(reg.check_new_session("s1", true).is_ok());
    assert!(reg.add_session("s1".into(), 10).is_ok());
    assert!(matches!(reg.check_new_session("s1", true), Err(Error::InvalidConfig("duplicate WebRTC session key"))));
    assert!(matches!(reg.add_session("s1".into(), 11), Err(Error::InvalidConfig("duplicate WebRTC session key"))));
    assert_eq!(*reg.session_for("s1").unwrap(), 10);
    assert!(matches!(reg.session_for("s2"), Err(Error::UnknownSession)));
    assert!(matches!(reg.session_for("s\t2"), Err(Error::InvalidConfig(_))));

    assert_eq!(reg.attach_rtc_control_port("p1"), None);
    assert_eq!(reg.attach_rtc_control_port("p2"), Some("p1"));
    assert_eq!(reg.detach_rtc_control_port(), Some("p2"));
    assert_eq!(reg.detach_rtc_control_port(), None);

    assert_eq!(reg.close_session("s1").unwrap(), Some(10));
    assert_eq!(reg.close_session("s1").unwrap(), None);
    assert!(matches!(reg.session_for("s1"), Err(Error::UnknownSession)));
}

#[test]
fn data_channel_options_are_settled() {
    let mut reg: WebRtcMainThreadRegistry<u32, ()> = WebRtcMainThreadRegistry::new();
    reg.add_session("s".into(), 1).unwrap();
    assert!(matches!(
        reg.try_create_data_channel_with_options("s", None, None, true, 0, "iroh"),
        Err(Error::InvalidConfig("browser WebRTC data channels must be unordered"))
    ));
    assert!(matches!(
        reg.try_create_data_channel_with_options("s", None, None, false, 3, "iroh"),
        Err(Error::InvalidConfig("browser WebRTC data channels must use maxRetransmits 0"))
    ));
    assert!(matches!(
        reg.try_create_data_channel_with_options("t", None, None, false, 0, "iroh"),
        Err(Error::UnknownSession)
    ));
    let (s, init) = reg
        .try_create_data_channel_with_options("s", Some(""), Some(""), false, 0, "iroh")
        .unwrap();
    assert_eq!(*s, 1);
    assert_eq!(init.label, "iroh");
    assert_eq!(init.protocol, None);
    assert!(!init.ordered);
    assert_eq!(init.max_retransmits, 0);
    let (_, init) = reg
        .try_create_data_channel_with_options("s", Some("chan"), Some("proto"), false, 0, "iroh")
        .unwrap();
    assert_eq!(init.label, "chan");
    assert_eq!(init.protocol.as_deref(), Some("proto"));
}

#[test]
fn incoming_data_channels_are_first_in_first_out() {
    let mut q: IncomingDataChannels<u8, &str> = IncomingDataChannels::new();
    assert_eq!(q.try_take_next(), None);
    assert_eq!(q.deliver(1), None);
    assert_eq!(q.deliver(2), None);
    assert_eq!(q.take_or_wait("w0"), Some(1));
    assert_eq!(q.try_take_next(), Some(2));
    assert_eq!(q.take_or_wait("w1"), None);
    assert_eq!(q.take_or_wait("w2"), None);
    assert_eq!(q.deliver(3), Some(("w1", 3)));
    assert_eq!(q.deliver(4), Some(("w2", 4)));
    assert_eq!(q.deliver(5), None);
    assert_eq!(q.try_take_next(), Some(5));
}

#[test]
fn request_book_answers_in_id_order() {
    let mut book: WorkerRequestBook<&str> = WorkerRequestBook::new();
    let a = book.allocate_id().unwrap();
    book.register(a, "first");
    let b = book.allocate_id().unwrap();
    book.register(b, "second");
    assert_eq!((a, b), (1, 2));
    assert_eq!(book.settle(a), Some("first"));
    assert_eq!(book.settle(a), None);
    let c = book.allocate_id().unwrap();
    assert_eq!(c, 3);
    book.register(c, "third");
    let d = book.allocate_id().unwrap();
    assert_eq!(book.abort(d), None);
    assert_eq!(book.reject_all(), vec!["second", "third"]);
    assert_eq!(book.reject_all(), Vec::<&str>::new());
    assert_eq!(book.allocate_id().unwrap(), 5);
}

#[test]
fn keyed_table_keeps_keys_unique_and_ordered() {
    let mut t: KeyedTable<String, u8> = KeyedTable::new();
    assert!(t.insert_new("a".into(), 1).is_ok());
    assert!(t.insert_new("b".into(), 2).is_ok());
    assert_eq!(t.insert_new("a".into(), 3), Err(("a".to_string(), 3)));
    assert_eq!(t.len(), 2);
    assert!(t.contains_key(&"a".to_string()));
    assert_eq!(t.get(&"b".to_string()), Some(&2));
    assert_eq!(t.keys(), vec!["a".to_string(), "b".to_string()]);
    assert_eq!(t.remove(&"a".to_string()), Some(1));
    assert_eq!(t.remove(&"a".to_string()), None);
    assert_eq!(t.len(), 1);
    t.clear();
    assert_eq!(t.len(), 0);
    assert_eq!(t.get(&"b".to_string()), None);
}

#[test]
fn registry_plans_each_request() {
    let mut reg: WebRtcMainThreadRegistry<u32, ()> = WebRtcMainThreadRegistry::new();
    let create = |key: &str| MainRtcRegistryRequest::CreatePeerConnection {
        session_key: key.into(),
        stun_urls: Some(vec!["stun:a".into()]),
    };
    assert!(matches!(reg.plan_request(create("s"), false, "iroh"), Err(Error::BrowserWebRtcUnavailable)));
    assert!(matches!(reg.plan_request(create(""), true, "iroh"), Err(Error::InvalidConfig(_))));
    match reg.plan_request(create("s"), true, "iroh") {
        Ok(MainRtcRegistryWork::CreatePeerConnection { session_key, stun_urls }) => {
            assert_eq!(session_key, "s");
            assert_eq!(stun_urls, Some(vec!["stun:a".to_string()]));
        }
        _ => panic!("expected peer connection work"),
    }
    reg.add_session("s".into(), 7).unwrap();
    assert!(matches!(
        reg.plan_request(create("s"), true, "iroh"),
        Err(Error::InvalidConfig("duplicate WebRTC session key"))
    ));

    let channel = |ordered: Option<bool>, max: Option<u16>| MainRtcRegistryRequest::CreateDataChannel {
        session_key: "s".into(),
        label: None,
        protocol: Some("p".into()),
        ordered,
        max_retransmits: max,
    };
    match reg.plan_request(channel(None, None), true, "iroh") {
        Ok(MainRtcRegistryWork::CreateDataChannel { session_key, session, init }) => {
            assert_eq!(session_key, "s");
            assert_eq!(*session, 7);
            assert_eq!(init.label, "iroh");
            assert_eq!(init.protocol.as_deref(), Some("p"));
            assert!(!init.ordered);
            assert_eq!(init.max_retransmits, 0);
        }
        _ => panic!("expected data channel work"),
    }
    assert!(reg.plan_request(channel(Some(false), Some(0)), true, "iroh").is_ok());
    assert!(matches!(
        reg.plan_request(channel(Some(true), None), true, "iroh"),
        Err(Error::InvalidConfig("browser WebRTC data channels must be unordered"))
    ));
    assert!(matches!(
        reg.plan_request(channel(None, Some(2)), true, "iroh"),
        Err(Error::InvalidConfig("browser WebRTC data channels must use maxRetransmits 0"))
    ));

    match reg.plan_request(
        MainRtcRegistryRequest::AcceptOffer { session_key: "s".into(), sdp: "offer".into() },
        true,
        "iroh",
    ) {
        Ok(MainRtcRegistryWork::AcceptOffer { session, sdp }) => {
            assert_eq!(*session, 7);
            assert_eq!(sdp, "offer");
        }
        _ => panic!("expected accept-offer work"),
    }
    assert!(matches!(
        reg.plan_request(MainRtcRegistryRequest::CreateOffer { session_key: "t".into() }, true, "iroh"),
        Err(Error::UnknownSession)
    ));
    assert!(matches!(
        reg.plan_request(MainRtcRegistryRequest::NextLocalIce { session_key: "".into() }, true, "iroh"),
        Err(Error::InvalidConfig("session key must not be empty"))
    ));
    assert!(matches!(
        reg.plan_request(
            MainRtcRegistryRequest::AddRemoteIce {
                session_key: "s".into(),
                ice: WorkerProtocolIceCandidate::EndOfCandidates,
            },
            true,
            "iroh",
        ),
        Ok(MainRtcRegistryWork::AddRemoteIce { ice: WorkerProtocolIceCandidate::EndOfCandidates, .. })
    ));
    assert!(matches!(
        reg.plan_request(MainRtcRegistryRequest::TakeDataChannel { session_key: "s".into() }, true, "iroh"),
        Ok(MainRtcRegistryWork::TakeDataChannel { .. })
    ));
    match reg.plan_request(MainRtcRegistryRequest::ClosePeerConnection { session_key: "gone".into() }, true, "iroh") {
        Ok(MainRtcRegistryWork::ClosePeerConnection { session_key }) => assert_eq!(session_key, "gone"),
        _ => panic!("expected close work"),
    }
}

#[test]
fn worker_request_payloads_must_be_objects() {
    assert_eq!(worker_request_payload::<u8>(None, "worker.dial").unwrap(), None);
    assert_eq!(
        worker_request_payload(Some(RtcControlPayload::Object(3u8)), "worker.dial").unwrap(),
        Some(3)
    );
    let w = worker_request_payload::<u8>(Some(RtcControlPayload::NotObject), "worker.dial").unwrap_err();
    assert_eq!(w.code, "webrtcFailed");
    assert_eq!(w.message, "malformed payload for worker.dial: payload must be an object");
    assert_eq!(w.detail.command.as_deref(), Some("worker.dial"));
}

#[test]
fn bridge_failure_errors() {
    assert_eq!(worker_error_message(Some("boom".into()), "fallback"), "boom");
    assert_eq!(worker_error_message(Some(String::new()), "fallback"), "fallback");
    assert_eq!(worker_error_message(None, "fallback"), "fallback");
    let crashed = worker_crashed_error(None);
    assert_eq!((crashed.code.as_str(), crashed.message.as_str()), ("spawnFailed", "browser WebRTC worker crashed"));
    let crashed = worker_crashed_error(Some("out of memory".into()));
    assert_eq!(crashed.message, "out of memory");
    let invalid = worker_invalid_message_error();
    assert_eq!(
        (invalid.code.as_str(), invalid.message.as_str()),
        ("webrtcFailed", "browser WebRTC worker sent an invalid message")
    );
    let shut = node_shut_down_error();
    assert_eq!((shut.code.as_str(), shut.message.as_str()), ("closed", "WebRTC Iroh browser node shut down"));
    assert_eq!(shut.detail.command, None);
}

#[test]
fn worker_messages_settle_requests_once() {
    let mut book: WorkerRequestBook<&str> = WorkerRequestBook::new();
    let a = book.allocate_id().unwrap();
    book.register(a, "a");
    let b = book.allocate_id().unwrap();
    book.register(b, "b");

    assert!(matches!(
        book.on_worker_message(Some("response"), Some(a), true, None),
        WorkerMessageAction::Settle { answer: "a", ok: true }
    ));
    assert!(matches!(
        book.on_worker_message(Some("response"), Some(a), true, None),
        WorkerMessageAction::Ignore
    ));
    assert!(matches!(
        book.on_worker_message(None, Some(b), false, None),
        WorkerMessageAction::Settle { answer: "b", ok: false }
    ));
    match book.on_worker_message(Some("request"), Some(9), false, Some("main.create-offer")) {
        WorkerMessageAction::RefuseWorkerRequest { id, error } => {
            assert_eq!(id, 9);
            assert_eq!(error.code, "webrtcFailed");
            assert_eq!(error.message, "worker-to-main RTC requests must use the Wasm RTC control port");
            assert_eq!(error.detail.command.as_deref(), Some("main.create-offer"));
        }
        _ => panic!("worker requests must be refused"),
    }
    assert!(matches!(book.on_worker_message(Some("request"), None, false, None), WorkerMessageAction::Ignore));
    assert!(matches!(book.on_worker_message(Some("event"), Some(1), true, None), WorkerMessageAction::Ignore));
    assert!(matches!(book.on_worker_message(None, None, true, None), WorkerMessageAction::Ignore));
    assert!(matches!(book.on_worker_message(Some("response"), None, true, None), WorkerMessageAction::Ignore));
}

fn parts() -> JsErrorParts {
    JsErrorParts { as_string: None, error_object: None, name_property: None, message_property: None, json: None }
}

#[test]
fn javascript_errors_read_as_text() {
    let mut p = parts();
    p.as_string = Some("plain".into());
    p.json = Some("\"plain\"".into());
    assert_eq!(js_error_text(p), "plain");

    let mut p = parts();
    p.error_object = Some(("Error".into(), "boom".into()));
    assert_eq!(js_error_text(p), "boom");
    let mut p = parts();
    p.error_object = Some(("TypeError".into(), "bad".into()));
    assert_eq!(js_error_text(p), "TypeError: bad");
    let mut p = parts();
    p.error_object = Some(("RangeError".into(), String::new()));
    assert_eq!(js_error_text(p), "RangeError");
    let mut p = parts();
    p.error_object = Some((String::new(), String::new()));
    p.json = Some("{\"a\":1}".into());
    assert_eq!(js_error_text(p), "");

    let mut p = parts();
    p.name_property = Some("Oops".into());
    p.message_property = Some("it broke".into());
    assert_eq!(js_error_text(p), "Oops: it broke");
    let mut p = parts();
    p.name_property = Some(String::new());
    p.message_property = Some("only message".into());
    assert_eq!(js_error_text(p), "only message");
    let mut p = parts();
    p.name_property = Some("OnlyName".into());
    assert_eq!(js_error_text(p), "OnlyName");

    let mut p = parts();
    p.json = Some("{\"code\":5}".into());
    assert_eq!(js_error_text(p), "{\"code\":5}");
    for j in ["{}", "null", ""] {
        let mut p = parts();
        p.json = Some(j.into());
        assert_eq!(js_error_text(p), "unknown JavaScript error");
    }
    assert_eq!(js_error_text(parts()), "unknown JavaScript error");
}
