use tgcalls::enums::{
    CallType, ConnectionKind, ConnectionMode, ConnectionState, MediaSegmentQuality,
    MediaSegmentStatus, MediaSource, StreamDevice, StreamMode, StreamStatus, StreamType,
};
use tgcalls::errors::{has_transient_marker, is_transient, CallError, TgCallsError};

#[test]
fn error_codes_map_one_to_one() {
    let codes = [
        (-1, CallError::Unknown),
        (-2, CallError::NullPointer),
        (-3, CallError::TooSmall),
        (-4, CallError::AsyncNotReady),
        (-101, CallError::ConnectionNotFound),
        (-102, CallError::Crypto),
        (-104, CallError::Signaling),
        (-105, CallError::SignalingUnsupported),
        (-106, CallError::InvalidParams),
        (-200, CallError::File),
        (-202, CallError::FFmpeg),
        (-203, CallError::Shell),
        (-204, CallError::MediaDevice),
        (-300, CallError::RtmpStreamingUnsupported),
        (-301, CallError::ParseTransport),
        (-302, CallError::Connection),
        (-303, CallError::TelegramServer),
        (-304, CallError::WebRtc),
        (-305, CallError::ParseSdp),
        (-306, CallError::RtcConnectionNeeded),
    ];
    for (code, err) in codes {
        assert_eq!(CallError::from_code(code), err);
        assert_eq!(CallError::from(code).code(), Some(code));
    }
}

#[test]
fn unmapped_codes_are_kept() {
    assert_eq!(CallError::from_code(-103), CallError::Unrecognized(-103));
    assert_eq!(CallError::from_code(7), CallError::Unrecognized(7));
    assert_eq!(CallError::Unrecognized(-103).code(), Some(-103));
    assert_eq!(
        CallError::Unrecognized(-2147483648).message(),
        "unrecognized NTgCalls error code: -2147483648"
    );
}

#[test]
fn error_texts() {
    assert_eq!(CallError::ConnectionNotFound.message(), "no active call for this chat/user ID");
    assert_eq!(CallError::Connection.message(), "WebRTC connection failed");
    assert_eq!(TgCallsError::NotJoined.message(), "not joined, call join() first");
    assert_eq!(
        TgCallsError::NtgCalls(CallError::Crypto).message(),
        "ntgcalls error: cryptographic operation failed"
    );
    assert_eq!(
        TgCallsError::TooManyConcurrentCalls(25).message(),
        "too many concurrent calls active (limit: 25) - leave one before joining another"
    );
    assert_eq!(
        TgCallsError::Ferogram("RPC_CALL_FAIL".to_string()).message(),
        "ferogram error: RPC_CALL_FAIL"
    );
    assert_eq!(TgCallsError::from(CallError::Shell).message(), "ntgcalls error: shell command failed");
}

#[test]
fn transient_failures_are_recognised() {
    assert!(is_transient(&TgCallsError::Ferogram("FLOOD_WAIT_30".to_string())));
    assert!(is_transient(&TgCallsError::Ferogram("rpc error -500: internal".to_string())));
    assert!(is_transient(&TgCallsError::Ferogram("request timeout".to_string())));
    assert!(is_transient(&TgCallsError::NtgCalls(CallError::Connection)));
    assert!(!is_transient(&TgCallsError::Ferogram("CHANNEL_PRIVATE".to_string())));
    assert!(!is_transient(&TgCallsError::NtgCalls(CallError::File)));
    assert!(!is_transient(&TgCallsError::TransportParse("timeout".to_string())));
    assert!(!is_transient(&TgCallsError::NotJoined));
}

#[test]
fn transient_markers_need_upper_case() {
    assert!(has_transient_marker("FLOOD_WAIT_5"));
    assert!(!has_transient_marker("flood_wait_5"));
    assert!(has_transient_marker("X-500Y"));
    assert!(!has_transient_marker(""));
}

#[test]
fn enum_codes_roundtrip() {
    for s in [
        MediaSource::File,
        MediaSource::Shell,
        MediaSource::FFmpeg,
        MediaSource::Device,
        MediaSource::Desktop,
        MediaSource::External,
    ] {
        assert_eq!(MediaSource::from_code(s.code()), Some(s));
    }
    assert_eq!(MediaSource::Desktop.code(), 16);
    assert_eq!(MediaSource::from_code(3), None);
    assert_eq!(StreamDevice::from_code(2), Some(StreamDevice::Camera));
    assert_eq!(StreamMode::Playback.code(), 1);
    assert_eq!(StreamType::from_code(1), Some(StreamType::Video));
    assert_eq!(StreamStatus::from_code(2), Some(StreamStatus::Idling));
    assert_eq!(ConnectionState::from_code(4), Some(ConnectionState::Closed));
    assert_eq!(ConnectionState::from_code(5), None);
    assert_eq!(ConnectionKind::Presentation.code(), 1);
    assert_eq!(ConnectionMode::from_code(0), Some(ConnectionMode::NoTransport));
    assert_eq!(MediaSegmentStatus::from_code(1), Some(MediaSegmentStatus::ResyncNeeded));
    assert_eq!(MediaSegmentQuality::from_code(0), Some(MediaSegmentQuality::AudioOnly));
    assert_eq!(CallType::from_code(4), Some(CallType::Incoming));
}
