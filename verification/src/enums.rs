//! The native engine's enumerations and their wire codes.
//!
//! Each enumeration carries the integer code the engine uses for it;
//! `code` and `from_code` convert, and every enumeration has a law that
//! decoding an encoded value gives it back.

use vstd::prelude::*;

use crate::raw::{
    NTG_FILE, NTG_SHELL, NTG_FFMPEG, NTG_DEVICE, NTG_DESKTOP, NTG_EXTERNAL, NTG_STREAM_MICROPHONE, NTG_STREAM_SPEAKER, NTG_STREAM_CAMERA, NTG_STREAM_SCREEN, NTG_STREAM_CAPTURE, NTG_STREAM_PLAYBACK, NTG_STREAM_AUDIO, NTG_STREAM_VIDEO, NTG_ACTIVE, NTG_PAUSED, NTG_IDLING, NTG_STATE_CONNECTING, NTG_STATE_CONNECTED, NTG_STATE_TIMEOUT, NTG_STATE_FAILED, NTG_STATE_CLOSED, NTG_KIND_NORMAL, NTG_KIND_PRESENTATION, NTG_CONNECTION_MODE_NONE, NTG_CONNECTION_MODE_RTC, NTG_CONNECTION_MODE_STREAM, NTG_CONNECTION_MODE_RTMP, NTG_MEDIA_SEGMENT_NOT_READY, NTG_MEDIA_SEGMENT_RESYNC_NEEDED, NTG_MEDIA_SEGMENT_SUCCESS, NTG_MEDIA_SEGMENT_QUALITY_NONE, NTG_MEDIA_SEGMENT_QUALITY_THUMBNAIL, NTG_MEDIA_SEGMENT_QUALITY_MEDIUM, NTG_MEDIA_SEGMENT_QUALITY_FULL,
};

verus! {

/// Where a media stream's input comes from.
#[non_exhaustive]
#[derive(Clone, Copy, Debug, PartialEq, Eq, Structural)]
pub enum MediaSource {
    /// Read raw PCM / YUV frames from a file path.
    File,
    /// Spawn a shell command and read its stdout as raw frames.
    Shell,
    /// Reserved for FFmpeg-based decoding; the engine answers `CallError::FFmpeg`.
    FFmpeg,
    /// Capture from a physical audio/video device.
    Device,
    /// Desktop/screen capture.
    Desktop,
    /// Frames pushed manually by the caller.
    External,
}

impl MediaSource {
    /// The engine's code for this source.
    pub open spec fn spec_code(self) -> i32 {
        match self {
            MediaSource::File => 1,
            MediaSource::Shell => 2,
            MediaSource::FFmpeg => 4,
            MediaSource::Device => 8,
            MediaSource::Desktop => 16,
            MediaSource::External => 32,
        }
    }

    /// The source an engine code stands for, if any.
    pub open spec fn spec_from_code(c: i32) -> Option<MediaSource> {
        if c == 1 {
            Some(MediaSource::File)
        } else if c == 2 {
            Some(MediaSource::Shell)
        } else if c == 4 {
            Some(MediaSource::FFmpeg)
        } else if c == 8 {
            Some(MediaSource::Device)
        } else if c == 16 {
            Some(MediaSource::Desktop)
        } else if c == 32 {
            Some(MediaSource::External)
        } else {
            None
        }
    }

    pub fn code(&self) -> (c: i32)
        ensures
            c == self.spec_code(),
    {
        match self {
            MediaSource::File => 1,
            MediaSource::Shell => 2,
            MediaSource::FFmpeg => 4,
            MediaSource::Device => 8,
            MediaSource::Desktop => 16,
            MediaSource::External => 32,
        }
    }

    pub fn from_code(c: i32) -> (r: Option<MediaSource>)
        ensures
            r == Self::spec_from_code(c),
    {
        if c == 1 {
            Some(MediaSource::File)
        } else if c == 2 {
            Some(MediaSource::Shell)
        } else if c == 4 {
            Some(MediaSource::FFmpeg)
        } else if c == 8 {
            Some(MediaSource::Device)
        } else if c == 16 {
            Some(MediaSource::Desktop)
        } else if c == 32 {
            Some(MediaSource::External)
        } else {
            None
        }
    }
}

/// Decoding the code of a source gives it back, and a code decodes only
/// to the source that has it.
pub proof fn media_source_code_roundtrip(v: MediaSource, c: i32)
    ensures
        MediaSource::spec_from_code(v.spec_code()) == Some(v),
        MediaSource::spec_from_code(c) matches Some(w) ==> w.spec_code() == c,
{
}

/// Each source carries the engine's own code for it, and only those codes
/// decode.
pub proof fn media_source_codes_are_the_engines(c: i32)
    ensures
        MediaSource::File.spec_code() == NTG_FILE,
        MediaSource::spec_from_code(NTG_FILE) == Some(MediaSource::File),
        MediaSource::Shell.spec_code() == NTG_SHELL,
        MediaSource::spec_from_code(NTG_SHELL) == Some(MediaSource::Shell),
        MediaSource::FFmpeg.spec_code() == NTG_FFMPEG,
        MediaSource::spec_from_code(NTG_FFMPEG) == Some(MediaSource::FFmpeg),
        MediaSource::Device.spec_code() == NTG_DEVICE,
        MediaSource::spec_from_code(NTG_DEVICE) == Some(MediaSource::Device),
        MediaSource::Desktop.spec_code() == NTG_DESKTOP,
        MediaSource::spec_from_code(NTG_DESKTOP) == Some(MediaSource::Desktop),
        MediaSource::External.spec_code() == NTG_EXTERNAL,
        MediaSource::spec_from_code(NTG_EXTERNAL) == Some(MediaSource::External),
        MediaSource::spec_from_code(c) is Some <==> (c == NTG_FILE || c == NTG_SHELL || c == NTG_FFMPEG || c == NTG_DEVICE || c == NTG_DESKTOP || c == NTG_EXTERNAL),
{
}

/// Which device a stream targets.
#[non_exhaustive]
#[derive(Clone, Copy, Debug, PartialEq, Eq, Structural)]
pub enum StreamDevice {
    /// Microphone input.
    Microphone,
    /// Playback output.
    Speaker,
    /// Camera input.
    Camera,
    /// Screen capture.
    Screen,
}

impl StreamDevice {
    /// The engine's code for this device.
    pub open spec fn spec_code(self) -> i32 {
        match self {
            StreamDevice::Microphone => 0,
            StreamDevice::Speaker => 1,
            StreamDevice::Camera => 2,
            StreamDevice::Screen => 3,
        }
    }

    /// The device an engine code stands for, if any.
    pub open spec fn spec_from_code(c: i32) -> Option<StreamDevice> {
        if c == 0 {
            Some(StreamDevice::Microphone)
        } else if c == 1 {
            Some(StreamDevice::Speaker)
        } else if c == 2 {
            Some(StreamDevice::Camera)
        } else if c == 3 {
            Some(StreamDevice::Screen)
        } else {
            None
        }
    }

    pub fn code(&self) -> (c: i32)
        ensures
            c == self.spec_code(),
    {
        match self {
            StreamDevice::Microphone => 0,
            StreamDevice::Speaker => 1,
            StreamDevice::Camera => 2,
            StreamDevice::Screen => 3,
        }
    }

    pub fn from_code(c: i32) -> (r: Option<StreamDevice>)
        ensures
            r == Self::spec_from_code(c),
    {
        if c == 0 {
            Some(StreamDevice::Microphone)
        } else if c == 1 {
            Some(StreamDevice::Speaker)
        } else if c == 2 {
            Some(StreamDevice::Camera)
        } else if c == 3 {
            Some(StreamDevice::Screen)
        } else {
            None
        }
    }
}

/// Decoding the code of a device gives it back, and a code decodes only
/// to the device that has it.
pub proof fn stream_device_code_roundtrip(v: StreamDevice, c: i32)
    ensures
        StreamDevice::spec_from_code(v.spec_code()) == Some(v),
        StreamDevice::spec_from_code(c) matches Some(w) ==> w.spec_code() == c,
{
}

/// Each device carries the engine's own code for it, and only those codes
/// decode.
pub proof fn stream_device_codes_are_the_engines(c: i32)
    ensures
        StreamDevice::Microphone.spec_code() == NTG_STREAM_MICROPHONE,
        StreamDevice::spec_from_code(NTG_STREAM_MICROPHONE) == Some(StreamDevice::Microphone),
        StreamDevice::Speaker.spec_code() == NTG_STREAM_SPEAKER,
        StreamDevice::spec_from_code(NTG_STREAM_SPEAKER) == Some(StreamDevice::Speaker),
        StreamDevice::Camera.spec_code() == NTG_STREAM_CAMERA,
        StreamDevice::spec_from_code(NTG_STREAM_CAMERA) == Some(StreamDevice::Camera),
        StreamDevice::Screen.spec_code() == NTG_STREAM_SCREEN,
        StreamDevice::spec_from_code(NTG_STREAM_SCREEN) == Some(StreamDevice::Screen),
        StreamDevice::spec_from_code(c) is Some <==> (c == NTG_STREAM_MICROPHONE || c == NTG_STREAM_SPEAKER || c == NTG_STREAM_CAMERA || c == NTG_STREAM_SCREEN),
{
}

/// Direction of a stream operation.
#[non_exhaustive]
#[derive(Clone, Copy, Debug, PartialEq, Eq, Structural)]
pub enum StreamMode {
    /// Outgoing: capturing and sending.
    Capture,
    /// Incoming: receiving and playing back.
    Playback,
}

impl StreamMode {
    /// The engine's code for this mode.
    pub open spec fn spec_code(self) -> i32 {
        match self {
            StreamMode::Capture => 0,
            StreamMode::Playback => 1,
        }
    }

    /// The mode an engine code stands for, if any.
    pub open spec fn spec_from_code(c: i32) -> Option<StreamMode> {
        if c == 0 {
            Some(StreamMode::Capture)
        } else if c == 1 {
            Some(StreamMode::Playback)
        } else {
            None
        }
    }

    pub fn code(&self) -> (c: i32)
        ensures
            c == self.spec_code(),
    {
        match self {
            StreamMode::Capture => 0,
            StreamMode::Playback => 1,
        }
    }

    pub fn from_code(c: i32) -> (r: Option<StreamMode>)
        ensures
            r == Self::spec_from_code(c),
    {
        if c == 0 {
            Some(StreamMode::Capture)
        } else if c == 1 {
            Some(StreamMode::Playback)
        } else {
            None
        }
    }
}

/// Decoding the code of a mode gives it back, and a code decodes only
/// to the mode that has it.
pub proof fn stream_mode_code_roundtrip(v: StreamMode, c: i32)
    ensures
        StreamMode::spec_from_code(v.spec_code()) == Some(v),
        StreamMode::spec_from_code(c) matches Some(w) ==> w.spec_code() == c,
{
}

/// Each mode carries the engine's own code for it, and only those codes
/// decode.
pub proof fn stream_mode_codes_are_the_engines(c: i32)
    ensures
        StreamMode::Capture.spec_code() == NTG_STREAM_CAPTURE,
        StreamMode::spec_from_code(NTG_STREAM_CAPTURE) == Some(StreamMode::Capture),
        StreamMode::Playback.spec_code() == NTG_STREAM_PLAYBACK,
        StreamMode::spec_from_code(NTG_STREAM_PLAYBACK) == Some(StreamMode::Playback),
        StreamMode::spec_from_code(c) is Some <==> (c == NTG_STREAM_CAPTURE || c == NTG_STREAM_PLAYBACK),
{
}

/// Whether a stream carries audio or video.
#[non_exhaustive]
#[derive(Clone, Copy, Debug, PartialEq, Eq, Structural)]
pub enum StreamType {
    /// Audio stream.
    Audio,
    /// Video stream.
    Video,
}

impl StreamType {
    /// The engine's code for this stream type.
    pub open spec fn spec_code(self) -> i32 {
        match self {
            StreamType::Audio => 0,
            StreamType::Video => 1,
        }
    }

    /// The stream type an engine code stands for, if any.
    pub open spec fn spec_from_code(c: i32) -> Option<StreamType> {
        if c == 0 {
            Some(StreamType::Audio)
        } else if c == 1 {
            Some(StreamType::Video)
        } else {
            None
        }
    }

    pub fn code(&self) -> (c: i32)
        ensures
            c == self.spec_code(),
    {
        match self {
            StreamType::Audio => 0,
            StreamType::Video => 1,
        }
    }

    pub fn from_code(c: i32) -> (r: Option<StreamType>)
        ensures
            r == Self::spec_from_code(c),
    {
        if c == 0 {
            Some(StreamType::Audio)
        } else if c == 1 {
            Some(StreamType::Video)
        } else {
            None
        }
    }
}

/// Decoding the code of a stream type gives it back, and a code decodes only
/// to the stream type that has it.
pub proof fn stream_type_code_roundtrip(v: StreamType, c: i32)
    ensures
        StreamType::spec_from_code(v.spec_code()) == Some(v),
        StreamType::spec_from_code(c) matches Some(w) ==> w.spec_code() == c,
{
}

/// Each stream type carries the engine's own code for it, and only those codes
/// decode.
pub proof fn stream_type_codes_are_the_engines(c: i32)
    ensures
        StreamType::Audio.spec_code() == NTG_STREAM_AUDIO,
        StreamType::spec_from_code(NTG_STREAM_AUDIO) == Some(StreamType::Audio),
        StreamType::Video.spec_code() == NTG_STREAM_VIDEO,
        StreamType::spec_from_code(NTG_STREAM_VIDEO) == Some(StreamType::Video),
        StreamType::spec_from_code(c) is Some <==> (c == NTG_STREAM_AUDIO || c == NTG_STREAM_VIDEO),
{
}

/// Playback/capture status of a stream.
#[non_exhaustive]
#[derive(Clone, Copy, Debug, PartialEq, Eq, Structural)]
pub enum StreamStatus {
    /// Stream is running.
    Active,
    /// Stream is paused.
    Paused,
    /// Stream is idle.
    Idling,
}

impl StreamStatus {
    /// The engine's code for this status.
    pub open spec fn spec_code(self) -> i32 {
        match self {
            StreamStatus::Active => 0,
            StreamStatus::Paused => 1,
            StreamStatus::Idling => 2,
        }
    }

    /// The status an engine code stands for, if any.
    pub open spec fn spec_from_code(c: i32) -> Option<StreamStatus> {
        if c == 0 {
            Some(StreamStatus::Active)
        } else if c == 1 {
            Some(StreamStatus::Paused)
        } else if c == 2 {
            Some(StreamStatus::Idling)
        } else {
            None
        }
    }

    pub fn code(&self) -> (c: i32)
        ensures
            c == self.spec_code(),
    {
        match self {
            StreamStatus::Active => 0,
            StreamStatus::Paused => 1,
            StreamStatus::Idling => 2,
        }
    }

    pub fn from_code(c: i32) -> (r: Option<StreamStatus>)
        ensures
            r == Self::spec_from_code(c),
    {
        if c == 0 {
            Some(StreamStatus::Active)
        } else if c == 1 {
            Some(StreamStatus::Paused)
        } else if c == 2 {
            Some(StreamStatus::Idling)
        } else {
            None
        }
    }
}

/// Decoding the code of a status gives it back, and a code decodes only
/// to the status that has it.
pub proof fn stream_status_code_roundtrip(v: StreamStatus, c: i32)
    ensures
        StreamStatus::spec_from_code(v.spec_code()) == Some(v),
        StreamStatus::spec_from_code(c) matches Some(w) ==> w.spec_code() == c,
{
}

/// Each status carries the engine's own code for it, and only those codes
/// decode.
pub proof fn stream_status_codes_are_the_engines(c: i32)
    ensures
        StreamStatus::Active.spec_code() == NTG_ACTIVE,
        StreamStatus::spec_from_code(NTG_ACTIVE) == Some(StreamStatus::Active),
        StreamStatus::Paused.spec_code() == NTG_PAUSED,
        StreamStatus::spec_from_code(NTG_PAUSED) == Some(StreamStatus::Paused),
        StreamStatus::Idling.spec_code() == NTG_IDLING,
        StreamStatus::spec_from_code(NTG_IDLING) == Some(StreamStatus::Idling),
        StreamStatus::spec_from_code(c) is Some <==> (c == NTG_ACTIVE || c == NTG_PAUSED || c == NTG_IDLING),
{
}

/// WebRTC connection lifecycle state.
#[non_exhaustive]
#[derive(Clone, Copy, Debug, PartialEq, Eq, Structural)]
pub enum ConnectionState {
    /// ICE gathering or DTLS handshake in progress.
    Connecting,
    /// ICE and DTLS complete. Media is flowing.
    Connected,
    /// Connection timed out waiting for ICE consent.
    Timeout,
    /// ICE or DTLS error.
    Failed,
    /// Connection closed cleanly.
    Closed,
}

impl ConnectionState {
    /// The engine's code for this state.
    pub open spec fn spec_code(self) -> i32 {
        match self {
            ConnectionState::Connecting => 0,
            ConnectionState::Connected => 1,
            ConnectionState::Timeout => 2,
            ConnectionState::Failed => 3,
            ConnectionState::Closed => 4,
        }
    }

    /// The state an engine code stands for, if any.
    pub open spec fn spec_from_code(c: i32) -> Option<ConnectionState> {
        if c == 0 {
            Some(ConnectionState::Connecting)
        } else if c == 1 {
            Some(ConnectionState::Connected)
        } else if c == 2 {
            Some(ConnectionState::Timeout)
        } else if c == 3 {
            Some(ConnectionState::Failed)
        } else if c == 4 {
            Some(ConnectionState::Closed)
        } else {
            None
        }
    }

    pub fn code(&self) -> (c: i32)
        ensures
            c == self.spec_code(),
    {
        match self {
            ConnectionState::Connecting => 0,
            ConnectionState::Connected => 1,
            ConnectionState::Timeout => 2,
            ConnectionState::Failed => 3,
            ConnectionState::Closed => 4,
        }
    }

    pub fn from_code(c: i32) -> (r: Option<ConnectionState>)
        ensures
            r == Self::spec_from_code(c),
    {
        if c == 0 {
            Some(ConnectionState::Connecting)
        } else if c == 1 {
            Some(ConnectionState::Connected)
        } else if c == 2 {
            Some(ConnectionState::Timeout)
        } else if c == 3 {
            Some(ConnectionState::Failed)
        } else if c == 4 {
            Some(ConnectionState::Closed)
        } else {
            None
        }
    }
}

/// Decoding the code of a state gives it back, and a code decodes only
/// to the state that has it.
pub proof fn connection_state_code_roundtrip(v: ConnectionState, c: i32)
    ensures
        ConnectionState::spec_from_code(v.spec_code()) == Some(v),
        ConnectionState::spec_from_code(c) matches Some(w) ==> w.spec_code() == c,
{
}

/// Each state carries the engine's own code for it, and only those codes
/// decode.
pub proof fn connection_state_codes_are_the_engines(c: i32)
    ensures
        ConnectionState::Connecting.spec_code() == NTG_STATE_CONNECTING,
        ConnectionState::spec_from_code(NTG_STATE_CONNECTING) == Some(ConnectionState::Connecting),
        ConnectionState::Connected.spec_code() == NTG_STATE_CONNECTED,
        ConnectionState::spec_from_code(NTG_STATE_CONNECTED) == Some(ConnectionState::Connected),
        ConnectionState::Timeout.spec_code() == NTG_STATE_TIMEOUT,
        ConnectionState::spec_from_code(NTG_STATE_TIMEOUT) == Some(ConnectionState::Timeout),
        ConnectionState::Failed.spec_code() == NTG_STATE_FAILED,
        ConnectionState::spec_from_code(NTG_STATE_FAILED) == Some(ConnectionState::Failed),
        ConnectionState::Closed.spec_code() == NTG_STATE_CLOSED,
        ConnectionState::spec_from_code(NTG_STATE_CLOSED) == Some(ConnectionState::Closed),
        ConnectionState::spec_from_code(c) is Some <==> (c == NTG_STATE_CONNECTING || c == NTG_STATE_CONNECTED || c == NTG_STATE_TIMEOUT || c == NTG_STATE_FAILED || c == NTG_STATE_CLOSED),
{
}

/// Whether a call is a regular call or a screen-share presentation.
#[non_exhaustive]
#[derive(Clone, Copy, Debug, PartialEq, Eq, Structural)]
pub enum ConnectionKind {
    /// Standard group call or P2P call.
    Normal,
    /// Screen-share presentation alongside a group call.
    Presentation,
}

impl ConnectionKind {
    /// The engine's code for this kind.
    pub open spec fn spec_code(self) -> i32 {
        match self {
            ConnectionKind::Normal => 0,
            ConnectionKind::Presentation => 1,
        }
    }

    /// The kind an engine code stands for, if any.
    pub open spec fn spec_from_code(c: i32) -> Option<ConnectionKind> {
        if c == 0 {
            Some(ConnectionKind::Normal)
        } else if c == 1 {
            Some(ConnectionKind::Presentation)
        } else {
            None
        }
    }

    pub fn code(&self) -> (c: i32)
        ensures
            c == self.spec_code(),
    {
        match self {
            ConnectionKind::Normal => 0,
            ConnectionKind::Presentation => 1,
        }
    }

    pub fn from_code(c: i32) -> (r: Option<ConnectionKind>)
        ensures
            r == Self::spec_from_code(c),
    {
        if c == 0 {
            Some(ConnectionKind::Normal)
        } else if c == 1 {
            Some(ConnectionKind::Presentation)
        } else {
            None
        }
    }
}

/// Decoding the code of a kind gives it back, and a code decodes only
/// to the kind that has it.
pub proof fn connection_kind_code_roundtrip(v: ConnectionKind, c: i32)
    ensures
        ConnectionKind::spec_from_code(v.spec_code()) == Some(v),
        ConnectionKind::spec_from_code(c) matches Some(w) ==> w.spec_code() == c,
{
}

/// Each kind carries the engine's own code for it, and only those codes
/// decode.
pub proof fn connection_kind_codes_are_the_engines(c: i32)
    ensures
        ConnectionKind::Normal.spec_code() == NTG_KIND_NORMAL,
        ConnectionKind::spec_from_code(NTG_KIND_NORMAL) == Some(ConnectionKind::Normal),
        ConnectionKind::Presentation.spec_code() == NTG_KIND_PRESENTATION,
        ConnectionKind::spec_from_code(NTG_KIND_PRESENTATION) == Some(ConnectionKind::Presentation),
        ConnectionKind::spec_from_code(c) is Some <==> (c == NTG_KIND_NORMAL || c == NTG_KIND_PRESENTATION),
{
}

/// Transport mode the engine is using for a call.
#[non_exhaustive]
#[derive(Clone, Copy, Debug, PartialEq, Eq, Structural)]
pub enum ConnectionMode {
    /// No transport active.
    NoTransport,
    /// WebRTC RTC transport.
    Rtc,
    /// Broadcast stream transport.
    Stream,
    /// RTMP transport.
    Rtmp,
}

impl ConnectionMode {
    /// The engine's code for this mode.
    pub open spec fn spec_code(self) -> i32 {
        match self {
            ConnectionMode::NoTransport => 0,
            ConnectionMode::Rtc => 1,
            ConnectionMode::Stream => 2,
            ConnectionMode::Rtmp => 3,
        }
    }

    /// The mode an engine code stands for, if any.
    pub open spec fn spec_from_code(c: i32) -> Option<ConnectionMode> {
        if c == 0 {
            Some(ConnectionMode::NoTransport)
        } else if c == 1 {
            Some(ConnectionMode::Rtc)
        } else if c == 2 {
            Some(ConnectionMode::Stream)
        } else if c == 3 {
            Some(ConnectionMode::Rtmp)
        } else {
            None
        }
    }

    pub fn code(&self) -> (c: i32)
        ensures
            c == self.spec_code(),
    {
        match self {
            ConnectionMode::NoTransport => 0,
            ConnectionMode::Rtc => 1,
            ConnectionMode::Stream => 2,
            ConnectionMode::Rtmp => 3,
        }
    }

    pub fn from_code(c: i32) -> (r: Option<ConnectionMode>)
        ensures
            r == Self::spec_from_code(c),
    {
        if c == 0 {
            Some(ConnectionMode::NoTransport)
        } else if c == 1 {
            Some(ConnectionMode::Rtc)
        } else if c == 2 {
            Some(ConnectionMode::Stream)
        } else if c == 3 {
            Some(ConnectionMode::Rtmp)
        } else {
            None
        }
    }
}

/// Decoding the code of a mode gives it back, and a code decodes only
/// to the mode that has it.
pub proof fn connection_mode_code_roundtrip(v: ConnectionMode, c: i32)
    ensures
        ConnectionMode::spec_from_code(v.spec_code()) == Some(v),
        ConnectionMode::spec_from_code(c) matches Some(w) ==> w.spec_code() == c,
{
}

/// Each mode carries the engine's own code for it, and only those codes
/// decode.
pub proof fn connection_mode_codes_are_the_engines(c: i32)
    ensures
        ConnectionMode::NoTransport.spec_code() == NTG_CONNECTION_MODE_NONE,
        ConnectionMode::spec_from_code(NTG_CONNECTION_MODE_NONE) == Some(ConnectionMode::NoTransport),
        ConnectionMode::Rtc.spec_code() == NTG_CONNECTION_MODE_RTC,
        ConnectionMode::spec_from_code(NTG_CONNECTION_MODE_RTC) == Some(ConnectionMode::Rtc),
        ConnectionMode::Stream.spec_code() == NTG_CONNECTION_MODE_STREAM,
        ConnectionMode::spec_from_code(NTG_CONNECTION_MODE_STREAM) == Some(ConnectionMode::Stream),
        ConnectionMode::Rtmp.spec_code() == NTG_CONNECTION_MODE_RTMP,
        ConnectionMode::spec_from_code(NTG_CONNECTION_MODE_RTMP) == Some(ConnectionMode::Rtmp),
        ConnectionMode::spec_from_code(c) is Some <==> (c == NTG_CONNECTION_MODE_NONE || c == NTG_CONNECTION_MODE_RTC || c == NTG_CONNECTION_MODE_STREAM || c == NTG_CONNECTION_MODE_RTMP),
{
}

/// Availability of a broadcast segment.
#[non_exhaustive]
#[derive(Clone, Copy, Debug, PartialEq, Eq, Structural)]
pub enum MediaSegmentStatus {
    /// Segment not yet available.
    NotReady,
    /// Resync required. Seek back to a keyframe.
    ResyncNeeded,
    /// Segment data is ready.
    Success,
}

impl MediaSegmentStatus {
    /// The engine's code for this status.
    pub open spec fn spec_code(self) -> i32 {
        match self {
            MediaSegmentStatus::NotReady => 0,
            MediaSegmentStatus::ResyncNeeded => 1,
            MediaSegmentStatus::Success => 2,
        }
    }

    /// The status an engine code stands for, if any.
    pub open spec fn spec_from_code(c: i32) -> Option<MediaSegmentStatus> {
        if c == 0 {
            Some(MediaSegmentStatus::NotReady)
        } else if c == 1 {
            Some(MediaSegmentStatus::ResyncNeeded)
        } else if c == 2 {
            Some(MediaSegmentStatus::Success)
        } else {
            None
        }
    }

    pub fn code(&self) -> (c: i32)
        ensures
            c == self.spec_code(),
    {
        match self {
            MediaSegmentStatus::NotReady => 0,
            MediaSegmentStatus::ResyncNeeded => 1,
            MediaSegmentStatus::Success => 2,
        }
    }

    pub fn from_code(c: i32) -> (r: Option<MediaSegmentStatus>)
        ensures
            r == Self::spec_from_code(c),
    {
        if c == 0 {
            Some(MediaSegmentStatus::NotReady)
        } else if c == 1 {
            Some(MediaSegmentStatus::ResyncNeeded)
        } else if c == 2 {
            Some(MediaSegmentStatus::Success)
        } else {
            None
        }
    }
}

/// Decoding the code of a status gives it back, and a code decodes only
/// to the status that has it.
pub proof fn media_segment_status_code_roundtrip(v: MediaSegmentStatus, c: i32)
    ensures
        MediaSegmentStatus::spec_from_code(v.spec_code()) == Some(v),
        MediaSegmentStatus::spec_from_code(c) matches Some(w) ==> w.spec_code() == c,
{
}

/// Each status carries the engine's own code for it, and only those codes
/// decode.
pub proof fn media_segment_status_codes_are_the_engines(c: i32)
    ensures
        MediaSegmentStatus::NotReady.spec_code() == NTG_MEDIA_SEGMENT_NOT_READY,
        MediaSegmentStatus::spec_from_code(NTG_MEDIA_SEGMENT_NOT_READY) == Some(MediaSegmentStatus::NotReady),
        MediaSegmentStatus::ResyncNeeded.spec_code() == NTG_MEDIA_SEGMENT_RESYNC_NEEDED,
        MediaSegmentStatus::spec_from_code(NTG_MEDIA_SEGMENT_RESYNC_NEEDED) == Some(MediaSegmentStatus::ResyncNeeded),
        MediaSegmentStatus::Success.spec_code() == NTG_MEDIA_SEGMENT_SUCCESS,
        MediaSegmentStatus::spec_from_code(NTG_MEDIA_SEGMENT_SUCCESS) == Some(MediaSegmentStatus::Success),
        MediaSegmentStatus::spec_from_code(c) is Some <==> (c == NTG_MEDIA_SEGMENT_NOT_READY || c == NTG_MEDIA_SEGMENT_RESYNC_NEEDED || c == NTG_MEDIA_SEGMENT_SUCCESS),
{
}

/// Quality level of a broadcast segment.
#[non_exhaustive]
#[derive(Clone, Copy, Debug, PartialEq, Eq, Structural)]
pub enum MediaSegmentQuality {
    /// No video. Audio only.
    AudioOnly,
    /// Low-resolution thumbnail.
    Thumbnail,
    /// Medium resolution.
    Medium,
    /// Full resolution.
    Full,
}

impl MediaSegmentQuality {
    /// The engine's code for this quality.
    pub open spec fn spec_code(self) -> i32 {
        match self {
            MediaSegmentQuality::AudioOnly => 0,
            MediaSegmentQuality::Thumbnail => 1,
            MediaSegmentQuality::Medium => 2,
            MediaSegmentQuality::Full => 3,
        }
    }

    /// The quality an engine code stands for, if any.
    pub open spec fn spec_from_code(c: i32) -> Option<MediaSegmentQuality> {
        if c == 0 {
            Some(MediaSegmentQuality::AudioOnly)
        } else if c == 1 {
            Some(MediaSegmentQuality::Thumbnail)
        } else if c == 2 {
            Some(MediaSegmentQuality::Medium)
        } else if c == 3 {
            Some(MediaSegmentQuality::Full)
        } else {
            None
        }
    }

    pub fn code(&self) -> (c: i32)
        ensures
            c == self.spec_code(),
    {
        match self {
            MediaSegmentQuality::AudioOnly => 0,
            MediaSegmentQuality::Thumbnail => 1,
            MediaSegmentQuality::Medium => 2,
            MediaSegmentQuality::Full => 3,
        }
    }

    pub fn from_code(c: i32) -> (r: Option<MediaSegmentQuality>)
        ensures
            r == Self::spec_from_code(c),
    {
        if c == 0 {
            Some(MediaSegmentQuality::AudioOnly)
        } else if c == 1 {
            Some(MediaSegmentQuality::Thumbnail)
        } else if c == 2 {
            Some(MediaSegmentQuality::Medium)
        } else if c == 3 {
            Some(MediaSegmentQuality::Full)
        } else {
            None
        }
    }
}

/// Decoding the code of a quality gives it back, and a code decodes only
/// to the quality that has it.
pub proof fn media_segment_quality_code_roundtrip(v: MediaSegmentQuality, c: i32)
    ensures
        MediaSegmentQuality::spec_from_code(v.spec_code()) == Some(v),
        MediaSegmentQuality::spec_from_code(c) matches Some(w) ==> w.spec_code() == c,
{
}

/// Each quality carries the engine's own code for it, and only those codes
/// decode.
pub proof fn media_segment_quality_codes_are_the_engines(c: i32)
    ensures
        MediaSegmentQuality::AudioOnly.spec_code() == NTG_MEDIA_SEGMENT_QUALITY_NONE,
        MediaSegmentQuality::spec_from_code(NTG_MEDIA_SEGMENT_QUALITY_NONE) == Some(MediaSegmentQuality::AudioOnly),
        MediaSegmentQuality::Thumbnail.spec_code() == NTG_MEDIA_SEGMENT_QUALITY_THUMBNAIL,
        MediaSegmentQuality::spec_from_code(NTG_MEDIA_SEGMENT_QUALITY_THUMBNAIL) == Some(MediaSegmentQuality::Thumbnail),
        MediaSegmentQuality::Medium.spec_code() == NTG_MEDIA_SEGMENT_QUALITY_MEDIUM,
        MediaSegmentQuality::spec_from_code(NTG_MEDIA_SEGMENT_QUALITY_MEDIUM) == Some(MediaSegmentQuality::Medium),
        MediaSegmentQuality::Full.spec_code() == NTG_MEDIA_SEGMENT_QUALITY_FULL,
        MediaSegmentQuality::spec_from_code(NTG_MEDIA_SEGMENT_QUALITY_FULL) == Some(MediaSegmentQuality::Full),
        MediaSegmentQuality::spec_from_code(c) is Some <==> (c == NTG_MEDIA_SEGMENT_QUALITY_NONE || c == NTG_MEDIA_SEGMENT_QUALITY_THUMBNAIL || c == NTG_MEDIA_SEGMENT_QUALITY_MEDIUM || c == NTG_MEDIA_SEGMENT_QUALITY_FULL),
{
}

/// What kind of call the engine holds for a chat or user.
#[non_exhaustive]
#[derive(Clone, Copy, Debug, PartialEq, Eq, Structural)]
pub enum CallType {
    /// A group call (voice chat or conference).
    Group,
    /// An outgoing private call.
    Outgoing,
    /// An incoming private call.
    Incoming,
}

impl CallType {
    /// The engine's code for this call type.
    pub open spec fn spec_code(self) -> i32 {
        match self {
            CallType::Group => 1,
            CallType::Outgoing => 2,
            CallType::Incoming => 4,
        }
    }

    /// The call type an engine code stands for, if any.
    pub open spec fn spec_from_code(c: i32) -> Option<CallType> {
        if c == 1 {
            Some(CallType::Group)
        } else if c == 2 {
            Some(CallType::Outgoing)
        } else if c == 4 {
            Some(CallType::Incoming)
        } else {
            None
        }
    }

    pub fn code(&self) -> (c: i32)
        ensures
            c == self.spec_code(),
    {
        match self {
            CallType::Group => 1,
            CallType::Outgoing => 2,
            CallType::Incoming => 4,
        }
    }

    pub fn from_code(c: i32) -> (r: Option<CallType>)
        ensures
            r == Self::spec_from_code(c),
    {
        if c == 1 {
            Some(CallType::Group)
        } else if c == 2 {
            Some(CallType::Outgoing)
        } else if c == 4 {
            Some(CallType::Incoming)
        } else {
            None
        }
    }
}

/// Decoding the code of a call type gives it back, and a code decodes only
/// to the call type that has it.
pub proof fn call_type_code_roundtrip(v: CallType, c: i32)
    ensures
        CallType::spec_from_code(v.spec_code()) == Some(v),
        CallType::spec_from_code(c) matches Some(w) ==> w.spec_code() == c,
{
}

} // verus!
