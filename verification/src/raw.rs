//! The engine's plain C records (those that hold no pointers) and its
//! error codes, as the engine lays them out.

#![allow(non_camel_case_types, non_snake_case)]

use vstd::prelude::*;

verus! {

pub const NTG_ERROR_UNKNOWN: i32 = -1;
pub const NTG_ERROR_NULL_POINTER: i32 = -2;
pub const NTG_ERROR_TOO_SMALL: i32 = -3;
pub const NTG_ERROR_ASYNC_NOT_READY: i32 = -4;
pub const NTG_ERROR_CONNECTION_NOT_FOUND: i32 = -101;
pub const NTG_ERROR_CRYPTO: i32 = -102;
pub const NTG_ERROR_SIGNALING: i32 = -104;
pub const NTG_ERROR_SIGNALING_UNSUPPORTED: i32 = -105;
pub const NTG_ERROR_INVALID_PARAMS: i32 = -106;
pub const NTG_ERROR_FILE: i32 = -200;
pub const NTG_ERROR_FFMPEG: i32 = -202;
pub const NTG_ERROR_SHELL: i32 = -203;
pub const NTG_ERROR_MEDIA_DEVICE: i32 = -204;
pub const NTG_ERROR_RTMP_STREAMING_UNSUPPORTED: i32 = -300;
pub const NTG_ERROR_PARSE_TRANSPORT: i32 = -301;
pub const NTG_ERROR_CONNECTION: i32 = -302;
pub const NTG_ERROR_TELEGRAM_SERVER: i32 = -303;
pub const NTG_ERROR_WEBRTC: i32 = -304;
pub const NTG_ERROR_PARSE_SDP: i32 = -305;
pub const NTG_ERROR_RTC_CONNECTION_NEEDED: i32 = -306;

/// Media source codes (a bit each).
pub const NTG_FILE: i32 = 1;
pub const NTG_SHELL: i32 = 2;
pub const NTG_FFMPEG: i32 = 4;
pub const NTG_DEVICE: i32 = 8;
pub const NTG_DESKTOP: i32 = 16;
pub const NTG_EXTERNAL: i32 = 32;

/// Stream device codes.
pub const NTG_STREAM_MICROPHONE: i32 = 0;
pub const NTG_STREAM_SPEAKER: i32 = 1;
pub const NTG_STREAM_CAMERA: i32 = 2;
pub const NTG_STREAM_SCREEN: i32 = 3;

/// Stream mode codes.
pub const NTG_STREAM_CAPTURE: i32 = 0;
pub const NTG_STREAM_PLAYBACK: i32 = 1;

/// Stream type codes.
pub const NTG_STREAM_AUDIO: i32 = 0;
pub const NTG_STREAM_VIDEO: i32 = 1;

/// Stream status codes.
pub const NTG_ACTIVE: i32 = 0;
pub const NTG_PAUSED: i32 = 1;
pub const NTG_IDLING: i32 = 2;

/// Connection state codes.
pub const NTG_STATE_CONNECTING: i32 = 0;
pub const NTG_STATE_CONNECTED: i32 = 1;
pub const NTG_STATE_TIMEOUT: i32 = 2;
pub const NTG_STATE_FAILED: i32 = 3;
pub const NTG_STATE_CLOSED: i32 = 4;

/// Connection kind codes.
pub const NTG_KIND_NORMAL: i32 = 0;
pub const NTG_KIND_PRESENTATION: i32 = 1;

/// Connection mode codes.
pub const NTG_CONNECTION_MODE_NONE: i32 = 0;
pub const NTG_CONNECTION_MODE_RTC: i32 = 1;
pub const NTG_CONNECTION_MODE_STREAM: i32 = 2;
pub const NTG_CONNECTION_MODE_RTMP: i32 = 3;

/// Broadcast segment quality codes.
pub const NTG_MEDIA_SEGMENT_QUALITY_NONE: i32 = 0;
pub const NTG_MEDIA_SEGMENT_QUALITY_THUMBNAIL: i32 = 1;
pub const NTG_MEDIA_SEGMENT_QUALITY_MEDIUM: i32 = 2;
pub const NTG_MEDIA_SEGMENT_QUALITY_FULL: i32 = 3;

/// Broadcast segment status codes.
pub const NTG_MEDIA_SEGMENT_NOT_READY: i32 = 0;
pub const NTG_MEDIA_SEGMENT_RESYNC_NEEDED: i32 = 1;
pub const NTG_MEDIA_SEGMENT_SUCCESS: i32 = 2;

/// Mute and pause flags of a call, as the engine reports them.
#[derive(Clone, Copy, Debug)]
pub struct ntg_media_state_struct {
    pub muted: bool,
    pub videoPaused: bool,
    pub videoStopped: bool,
    pub presentationPaused: bool,
}

/// Metadata of an external video frame, as the engine takes it.
#[derive(Clone, Copy, Debug)]
pub struct ntg_frame_data_struct {
    pub absoluteCaptureTimestampMs: i64,
    pub width: u16,
    pub height: u16,
    pub rotation: u16,
}

/// One active call, as the engine lists it; statuses are raw codes.
#[derive(Clone, Copy, Debug)]
pub struct ntg_call_info_struct {
    pub chatId: i64,
    pub capture: i32,
    pub playback: i32,
}

/// A connection change, as the engine reports it; raw codes.
#[derive(Clone, Copy, Debug)]
pub struct ntg_network_info_struct {
    pub kind: i32,
    pub state: i32,
}

/// A remote source change, as the engine reports it; raw codes.
#[derive(Clone, Copy, Debug)]
pub struct ntg_remote_source_struct {
    pub ssrc: u32,
    pub state: i32,
    pub device: i32,
}

/// A broadcast segment request, as the engine issues it; raw quality code.
#[derive(Clone, Copy, Debug)]
pub struct ntg_segment_part_request_struct {
    pub segmentId: i64,
    pub partId: i32,
    pub limit: i32,
    pub timestamp: i64,
    pub qualityUpdate: bool,
    pub channelId: i32,
    pub quality: i32,
}

} // verus!
