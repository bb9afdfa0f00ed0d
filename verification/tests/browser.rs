use iroh_webrtc_transport::browser_protocol::{
    MAIN_RTC_ACCEPT_ANSWER_COMMAND, MAIN_RTC_ACCEPT_OFFER_COMMAND, MAIN_RTC_ADD_REMOTE_ICE_COMMAND,
    MAIN_RTC_CLOSE_PEER_CONNECTION_COMMAND, MAIN_RTC_CREATE_ANSWER_COMMAND,
    MAIN_RTC_CREATE_DATA_CHANNEL_COMMAND, MAIN_RTC_CREATE_OFFER_COMMAND,
    MAIN_RTC_CREATE_PEER_CONNECTION_COMMAND, MAIN_RTC_NEXT_LOCAL_ICE_COMMAND,
};
use iroh_webrtc_transport::capabilities::{validate_session_key, MAX_SESSION_KEY_LEN};
use iroh_webrtc_transport::error::Error;
use iroh_webrtc_transport::js_wire::wire_error_code_for_command;
use iroh_webrtc_transport::request_tracker::BrowserWorkerRequestTracker;

#[test]
fn session_key_validation_rejects_empty_long_and_control_keys() {
    assert!(validate_session_key("session-1").is_ok());
    assert!(matches!(
        validate_session_key(""),
        Err(Error::InvalidConfig(_))
    ));
    assert!(matches!(
        validate_session_key("session\n1"),
        Err(Error::InvalidConfig(_))
    ));
    assert!(matches!(
        validate_session_key(&"x".repeat(MAX_SESSION_KEY_LEN + 1)),
        Err(Error::InvalidConfig(_))
    ));
}

#[test]
fn main_rtc_command_names_match_canonical_protocol() {
    assert_eq!(
        MAIN_RTC_CREATE_PEER_CONNECTION_COMMAND,
        "main.create-peer-connection"
    );
    assert_eq!(
        MAIN_RTC_CREATE_DATA_CHANNEL_COMMAND,
        "main.create-data-channel"
    );
    assert_eq!(MAIN_RTC_CREATE_OFFER_COMMAND, "main.create-offer");
    assert_eq!(MAIN_RTC_ACCEPT_OFFER_COMMAND, "main.accept-offer");
    assert_eq!(MAIN_RTC_CREATE_ANSWER_COMMAND, "main.create-answer");
    assert_eq!(MAIN_RTC_ACCEPT_ANSWER_COMMAND, "main.accept-answer");
    assert_eq!(MAIN_RTC_NEXT_LOCAL_ICE_COMMAND, "main.next-local-ice");
    assert_eq!(MAIN_RTC_ADD_REMOTE_ICE_COMMAND, "main.add-remote-ice");
    assert_eq!(
        MAIN_RTC_CLOSE_PEER_CONNECTION_COMMAND,
        "main.close-peer-connection"
    );
}

#[test]
fn wire_error_codes_are_canonical_protocol_codes() {
    assert_eq!(
        wire_error_code_for_command(
            Some(MAIN_RTC_CREATE_PEER_CONNECTION_COMMAND),
            &Error::BrowserWebRtcUnavailable,
        ),
        "unsupportedBrowser"
    );
    assert_eq!(
        wire_error_code_for_command(
            Some(MAIN_RTC_CREATE_PEER_CONNECTION_COMMAND),
            &Error::InvalidIceConfig("bad stun"),
        ),
        "invalidStunUrl"
    );
    assert_eq!(
        wire_error_code_for_command(
            Some(MAIN_RTC_CREATE_DATA_CHANNEL_COMMAND),
            &Error::WebRtc("failed".into()),
        ),
        "dataChannelFailed"
    );
    assert_eq!(
        wire_error_code_for_command(
            Some(MAIN_RTC_CREATE_OFFER_COMMAND),
            &Error::UnknownSession,
        ),
        "webrtcFailed"
    );
    assert_eq!(
        wire_error_code_for_command(
            Some(MAIN_RTC_NEXT_LOCAL_ICE_COMMAND),
            &Error::SessionClosed,
        ),
        "closed"
    );
}

#[test]
fn worker_request_tracker_allocates_monotonic_ids_and_tracks_pending() {
    let mut tracker = BrowserWorkerRequestTracker::default();

    assert_eq!(tracker.allocate().unwrap(), 1);
    assert_eq!(tracker.allocate().unwrap(), 2);
    assert_eq!(tracker.pending_len(), 2);
    assert!(tracker.complete(1));
    assert!(!tracker.complete(1));
    assert_eq!(tracker.pending_len(), 1);

    assert_eq!(tracker.allocate().unwrap(), 3);
    let failed = tracker.fail_all();
    assert_eq!(failed, vec![2, 3]);
    assert_eq!(tracker.pending_len(), 0);
}
