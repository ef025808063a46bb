use tgcalls::enums::{ConnectionKind, ConnectionState, MediaSegmentQuality, StreamDevice, StreamStatus};
use tgcalls::raw::{
    ntg_call_info_struct, ntg_media_state_struct, ntg_network_info_struct, ntg_remote_source_struct,
    ntg_segment_part_request_struct,
};
use tgcalls::structures::{
    c_string_or_empty, c_versions, CallInfo, DhConfig, FfiDhConfig, FfiRtcServer, FfiSsrcGroup,
    FrameData, MediaState, NetworkInfo, RemoteSource, RtcServer, SegmentPartRequest, SsrcGroup,
};

#[test]
fn dh_config_layout() {
    let c = DhConfig { g: 3, p: vec![1, 2, 3, 4], random: vec![9; 256] };
    let f = FfiDhConfig::new(&c);
    assert_eq!((f.g, f.size_p, f.size_random), (3, 4, 256));
    assert_eq!(f.p, c.p);
    assert_eq!(f.random, c.random);
}

#[test]
fn frame_data_layout() {
    let f = FrameData { absolute_capture_timestamp_ms: 123, width: 640, height: 480, rotation: 90 };
    let r = f.to_ffi();
    assert_eq!((r.absoluteCaptureTimestampMs, r.width, r.height, r.rotation), (123, 640, 480, 90));
}

#[test]
fn engine_records_are_decoded() {
    let info = CallInfo::from_raw(ntg_call_info_struct { chatId: 5, capture: 1, playback: 2 }).unwrap();
    assert_eq!((info.chat_id, info.capture, info.playback), (5, StreamStatus::Paused, StreamStatus::Idling));
    assert!(CallInfo::from_raw(ntg_call_info_struct { chatId: 5, capture: 3, playback: 0 }).is_none());
    let n = NetworkInfo::from_raw(ntg_network_info_struct { kind: 1, state: 1 }).unwrap();
    assert_eq!((n.kind, n.state), (ConnectionKind::Presentation, ConnectionState::Connected));
    assert!(NetworkInfo::from_raw(ntg_network_info_struct { kind: 2, state: 1 }).is_none());
    let m = MediaState::from_raw(ntg_media_state_struct {
        muted: true,
        videoPaused: false,
        videoStopped: true,
        presentationPaused: false,
    });
    assert!(m.muted && !m.video_paused && m.video_stopped && !m.presentation_paused);
    let s = RemoteSource::from_raw(ntg_remote_source_struct { ssrc: 77, state: 0, device: 3 }).unwrap();
    assert_eq!((s.ssrc, s.state, s.device), (77, StreamStatus::Active, StreamDevice::Screen));
    assert!(RemoteSource::from_raw(ntg_remote_source_struct { ssrc: 1, state: 0, device: 9 }).is_none());
    let raw = ntg_segment_part_request_struct {
        segmentId: 1,
        partId: 2,
        limit: 3,
        timestamp: 4,
        qualityUpdate: true,
        channelId: 5,
        quality: 2,
    };
    let q = SegmentPartRequest::from_raw(raw).unwrap();
    assert_eq!(q.quality, MediaSegmentQuality::Medium);
    assert_eq!((q.segment_id, q.part_id, q.limit, q.timestamp, q.quality_update, q.channel_id), (1, 2, 3, 4, true, 5));
    assert!(SegmentPartRequest::from_raw(ntg_segment_part_request_struct { quality: 4, ..raw }).is_none());
}

#[test]
fn texts_with_nul_are_emptied_for_the_engine() {
    assert_eq!(c_string_or_empty("1.2.3.4"), "1.2.3.4");
    assert_eq!(c_string_or_empty("bad\0ip"), "");
    let server = RtcServer {
        id: 1,
        ipv4: "1.1.1.1".to_string(),
        ipv6: "x\0".to_string(),
        username: "u".to_string(),
        password: String::new(),
        port: 443,
        turn: true,
        stun: true,
        tcp: false,
        peer_tag: vec![1, 2],
    };
    let f = FfiRtcServer::new(&server);
    assert_eq!((f.ipv4.as_str(), f.ipv6.as_str(), f.username.as_str()), ("1.1.1.1", "", "u"));
    assert_eq!((f.peer_tag_size, f.port), (2, 443));
    let g = FfiSsrcGroup::new(&SsrcGroup { semantics: "FID".to_string(), ssrcs: vec![1, 2, 3] });
    assert_eq!((g.semantics.as_str(), g.size_ssrcs), ("FID", 3));
    assert_eq!(c_versions(&vec!["9.0.0".to_string(), "a\0b".to_string()]), vec!["9.0.0".to_string(), String::new()]);
}
