//! The records that travel between the library, the engine and Telegram.

use vstd::prelude::*;

use crate::enums::{
    ConnectionKind, ConnectionState, MediaSegmentQuality, MediaSource, StreamDevice, StreamStatus,
};
use crate::raw::{
    ntg_call_info_struct, ntg_frame_data_struct, ntg_media_state_struct, ntg_network_info_struct,
    ntg_remote_source_struct, ntg_segment_part_request_struct,
};
use crate::text::{contains_text, has_infix, is_cut_at_nul, truncate_at_nul};

verus! {

/// Copies a byte vector; the copy holds the same bytes.
pub fn copy_bytes(v: &Vec<u8>) -> (r: Vec<u8>)
    ensures
        r@ == v@,
{
    let r = v.clone();
    assert(r@ =~= v@);
    r
}

/// Combined audio and video sources for a call. Each field is optional;
/// an unset field leaves that device inactive.
#[derive(Debug, Clone, Default)]
pub struct MediaDescription {
    /// Microphone / outgoing audio source (also the incoming-audio sink
    /// when used with `StreamMode::Playback`).
    pub microphone: Option<AudioDescription>,
    /// Speaker / incoming audio playback source.
    pub speaker: Option<AudioDescription>,
    /// Camera / outgoing video source.
    pub camera: Option<VideoDescription>,
    /// Screen capture source.
    pub screen: Option<VideoDescription>,
}

/// Audio stream configuration.
#[derive(Debug, Clone)]
pub struct AudioDescription {
    /// Where the audio comes from.
    pub media_source: MediaSource,
    /// File path, shell command, or device name, depending on `media_source`.
    pub input: String,
    /// Sample rate in Hz. Telegram group calls use 48000.
    pub sample_rate: u32,
    /// Number of channels. Telegram group calls use 2 (stereo).
    pub channel_count: u8,
    /// Keep the source open after the stream ends.
    pub keep_open: bool,
}

impl AudioDescription {
    /// A new audio description. The engine reads `input` as a C string, so
    /// it is kept up to its first NUL character.
    pub fn new(
        media_source: MediaSource,
        input: &str,
        sample_rate: u32,
        channel_count: u8,
        keep_open: bool,
    ) -> (r: AudioDescription)
        ensures
            r.media_source == media_source,
            is_cut_at_nul(input@, r.input@),
            r.sample_rate == sample_rate,
            r.channel_count == channel_count,
            r.keep_open == keep_open,
    {
        AudioDescription {
            media_source,
            input: truncate_at_nul(input),
            sample_rate,
            channel_count,
            keep_open,
        }
    }
}

/// Video stream configuration.
#[derive(Debug, Clone)]
pub struct VideoDescription {
    /// Where the video comes from.
    pub media_source: MediaSource,
    /// File path, shell command, or device name.
    pub input: String,
    /// Frame width in pixels.
    pub width: i16,
    /// Frame height in pixels.
    pub height: i16,
    /// Target frames per second.
    pub fps: u8,
    /// Keep the source open after the stream ends.
    pub keep_open: bool,
}

impl VideoDescription {
    /// A new video description; `input` is kept up to its first NUL.
    pub fn new(
        media_source: MediaSource,
        input: &str,
        width: i16,
        height: i16,
        fps: u8,
        keep_open: bool,
    ) -> (r: VideoDescription)
        ensures
            r.media_source == media_source,
            is_cut_at_nul(input@, r.input@),
            r.width == width,
            r.height == height,
            r.fps == fps,
            r.keep_open == keep_open,
    {
        VideoDescription {
            media_source,
            input: truncate_at_nul(input),
            width,
            height,
            fps,
            keep_open,
        }
    }
}

/// Status of a single active call.
#[derive(Debug, Clone, Copy)]
pub struct CallInfo {
    /// The chat ID this call belongs to.
    pub chat_id: i64,
    /// Status of the outgoing (capture) stream.
    pub capture: StreamStatus,
    /// Status of the incoming (playback) stream.
    pub playback: StreamStatus,
}

impl CallInfo {
    /// Reads the engine's record; `None` when a status code is not one the
    /// engine defines.
    pub fn from_raw(s: ntg_call_info_struct) -> (r: Option<CallInfo>)
        ensures
            r is Some <==> (StreamStatus::spec_from_code(s.capture) is Some
                && StreamStatus::spec_from_code(s.playback) is Some),
            r matches Some(info) ==> {
                &&& info.chat_id == s.chatId
                &&& info.capture.spec_code() == s.capture
                &&& info.playback.spec_code() == s.playback
            },
    {
        proof {
            crate::enums::stream_status_code_roundtrip(StreamStatus::Active, s.capture);
            crate::enums::stream_status_code_roundtrip(StreamStatus::Active, s.playback);
        }
        match (StreamStatus::from_code(s.capture), StreamStatus::from_code(s.playback)) {
            (Some(capture), Some(playback)) => Some(CallInfo { chat_id: s.chatId, capture, playback }),
            _ => None,
        }
    }
}

/// Mute and pause state of a call.
#[derive(Debug, Clone, Copy)]
pub struct MediaState {
    /// Microphone is muted.
    pub muted: bool,
    /// Video (camera) is paused.
    pub video_paused: bool,
    /// Video (camera) is fully stopped.
    pub video_stopped: bool,
    /// Screen-share presentation is paused.
    pub presentation_paused: bool,
}

impl MediaState {
    /// Reads the engine's record, flag for flag.
    pub fn from_raw(s: ntg_media_state_struct) -> (r: MediaState)
        ensures
            r.muted == s.muted,
            r.video_paused == s.videoPaused,
            r.video_stopped == s.videoStopped,
            r.presentation_paused == s.presentationPaused,
    {
        MediaState {
            muted: s.muted,
            video_paused: s.videoPaused,
            video_stopped: s.videoStopped,
            presentation_paused: s.presentationPaused,
        }
    }
}

/// Connection kind and state snapshot.
#[derive(Debug, Clone, Copy)]
pub struct NetworkInfo {
    /// Whether this is a normal call or a presentation.
    pub kind: ConnectionKind,
    /// Current WebRTC connection state.
    pub state: ConnectionState,
}

impl NetworkInfo {
    /// Reads the engine's record; `None` when a code is not one the engine
    /// defines.
    pub fn from_raw(s: ntg_network_info_struct) -> (r: Option<NetworkInfo>)
        ensures
            r is Some <==> (ConnectionKind::spec_from_code(s.kind) is Some
                && ConnectionState::spec_from_code(s.state) is Some),
            r matches Some(info) ==> info.kind.spec_code() == s.kind && info.state.spec_code()
                == s.state,
    {
        proof {
            crate::enums::connection_kind_code_roundtrip(ConnectionKind::Normal, s.kind);
            crate::enums::connection_state_code_roundtrip(ConnectionState::Connected, s.state);
        }
        match (ConnectionKind::from_code(s.kind), ConnectionState::from_code(s.state)) {
            (Some(kind), Some(state)) => Some(NetworkInfo { kind, state }),
            _ => None,
        }
    }
}

/// A STUN or TURN server for a private call.
#[derive(Debug, Clone)]
pub struct RtcServer {
    /// Server identifier from Telegram.
    pub id: u64,
    /// IPv4 address string.
    pub ipv4: String,
    /// IPv6 address string.
    pub ipv6: String,
    /// TURN username. Empty for STUN-only servers.
    pub username: String,
    /// TURN password. Empty for STUN-only servers.
    pub password: String,
    /// UDP port.
    pub port: u16,
    /// Whether this server supports TURN relay.
    pub turn: bool,
    /// Whether this server supports STUN binding.
    pub stun: bool,
    /// Whether TCP fallback is available.
    pub tcp: bool,
    /// Peer tag bytes for classic (non-WebRTC) connections.
    pub peer_tag: Vec<u8>,
}

/// A text as the engine receives it where a NUL inside cannot be passed:
/// the text itself, or the empty text when it holds a NUL.
pub open spec fn c_text_or_empty(s: Seq<char>) -> Seq<char> {
    if has_infix(s, "\0"@) {
        Seq::empty()
    } else {
        s
    }
}

pub fn c_string_or_empty(s: &str) -> (r: String)
    ensures
        r@ == c_text_or_empty(s@),
{
    if contains_text(s, "\0") {
        let r = String::new();
        assert(r@ =~= Seq::<char>::empty());
        r
    } else {
        String::from_str(s)
    }
}

/// A server laid out as the engine takes it: every text passed as a C
/// string (emptied when it holds a NUL) and the peer tag with its length.
#[derive(Debug)]
pub struct FfiRtcServer {
    pub id: u64,
    pub ipv4: String,
    pub ipv6: String,
    pub username: String,
    pub password: String,
    pub port: u16,
    pub turn: bool,
    pub stun: bool,
    pub tcp: bool,
    pub peer_tag: Vec<u8>,
    pub peer_tag_size: i32,
}

impl FfiRtcServer {
    pub fn new(s: &RtcServer) -> (r: FfiRtcServer)
        ensures
            r.id == s.id,
            r.ipv4@ == c_text_or_empty(s.ipv4@),
            r.ipv6@ == c_text_or_empty(s.ipv6@),
            r.username@ == c_text_or_empty(s.username@),
            r.password@ == c_text_or_empty(s.password@),
            r.port == s.port,
            r.turn == s.turn,
            r.stun == s.stun,
            r.tcp == s.tcp,
            r.peer_tag@ == s.peer_tag@,
            r.peer_tag_size == s.peer_tag@.len() as i32,
    {
        let peer_tag = copy_bytes(&s.peer_tag);
        let peer_tag_size = #[verifier::truncate] (peer_tag.len() as i32);
        FfiRtcServer {
            id: s.id,
            ipv4: c_string_or_empty(s.ipv4.as_str()),
            ipv6: c_string_or_empty(s.ipv6.as_str()),
            username: c_string_or_empty(s.username.as_str()),
            password: c_string_or_empty(s.password.as_str()),
            port: s.port,
            turn: s.turn,
            stun: s.stun,
            tcp: s.tcp,
            peer_tag,
            peer_tag_size,
        }
    }
}

/// Protocol version strings as the engine takes them: each emptied when it
/// holds a NUL.
pub fn c_versions(versions: &Vec<String>) -> (r: Vec<String>)
    ensures
        r@.len() == versions@.len(),
        forall|i: int| 0 <= i < versions@.len() ==> (#[trigger] r@[i])@ == c_text_or_empty(versions@[i]@),
{
    let mut r: Vec<String> = Vec::new();
    let mut i: usize = 0;
    while i < versions.len()
        invariant
            i <= versions.len(),
            r@.len() == i,
            forall|k: int| 0 <= k < i ==> (#[trigger] r@[k])@ == c_text_or_empty(versions@[k]@),
        decreases versions.len() - i,
    {
        r.push(c_string_or_empty(versions[i].as_str()));
        i = i + 1;
    }
    r
}

/// Diffie-Hellman parameters from Telegram for private-call key exchange.
#[derive(Debug, Clone)]
pub struct DhConfig {
    /// The generator `g`.
    pub g: i32,
    /// The prime `p` as big-endian bytes.
    pub p: Vec<u8>,
    /// Random bytes from Telegram, used as additional entropy.
    pub random: Vec<u8>,
}

/// Diffie-Hellman parameters laid out as the engine takes them: each byte
/// string with its length as a C int.
#[derive(Debug)]
pub struct FfiDhConfig {
    pub g: i32,
    pub p: Vec<u8>,
    pub size_p: i32,
    pub random: Vec<u8>,
    pub size_random: i32,
}

impl FfiDhConfig {
    /// Copies `c` into the engine's layout. A length beyond `i32::MAX` is
    /// truncated to 32 bits, as a C-int conversion does.
    pub fn new(c: &DhConfig) -> (r: FfiDhConfig)
        ensures
            r.g == c.g,
            r.p@ == c.p@,
            r.size_p == c.p@.len() as i32,
            r.random@ == c.random@,
            r.size_random == c.random@.len() as i32,
    {
        let p = copy_bytes(&c.p);
        let random = copy_bytes(&c.random);
        let size_p = #[verifier::truncate] (p.len() as i32);
        let size_random = #[verifier::truncate] (random.len() as i32);
        FfiDhConfig { g: c.g, p, size_p, random, size_random }
    }
}

/// Result of a completed key exchange: what `phone.confirmCall` takes.
#[derive(Debug, Clone)]
pub struct AuthParams {
    /// The local `g_a` or `g_b` value to send to Telegram.
    pub g_a_or_b: Vec<u8>,
    /// Key fingerprint to send to Telegram for verification.
    pub key_fingerprint: i64,
}

/// A group of SSRCs sharing the same RTP extension semantics.
#[derive(Debug, Clone)]
pub struct SsrcGroup {
    /// Semantics string, e.g. `"SIM"` or `"FID"`.
    pub semantics: String,
    /// The SSRCs in this group.
    pub ssrcs: Vec<u32>,
}

/// An SSRC group laid out as the engine takes it: the semantics as a C
/// string (emptied when it holds a NUL) and the SSRCs with their count.
#[derive(Debug)]
pub struct FfiSsrcGroup {
    pub semantics: String,
    pub ssrcs: Vec<u32>,
    pub size_ssrcs: i32,
}

impl FfiSsrcGroup {
    pub fn new(g: &SsrcGroup) -> (r: FfiSsrcGroup)
        ensures
            r.semantics@ == c_text_or_empty(g.semantics@),
            r.ssrcs@ == g.ssrcs@,
            r.size_ssrcs == g.ssrcs@.len() as i32,
    {
        let ssrcs = g.ssrcs.clone();
        assert(ssrcs@ =~= g.ssrcs@);
        let size_ssrcs = #[verifier::truncate] (ssrcs.len() as i32);
        FfiSsrcGroup { semantics: c_string_or_empty(g.semantics.as_str()), ssrcs, size_ssrcs }
    }
}

/// Metadata for an external video frame.
#[derive(Debug, Clone, Copy, Default)]
pub struct FrameData {
    /// Capture timestamp in milliseconds (monotonic clock).
    pub absolute_capture_timestamp_ms: i64,
    /// Frame width in pixels.
    pub width: u16,
    /// Frame height in pixels.
    pub height: u16,
    /// Clockwise rotation in degrees (0, 90, 180, or 270).
    pub rotation: u16,
}

impl FrameData {
    /// The engine's record for this metadata, field for field.
    pub fn to_ffi(self) -> (r: ntg_frame_data_struct)
        ensures
            r.absoluteCaptureTimestampMs == self.absolute_capture_timestamp_ms,
            r.width == self.width,
            r.height == self.height,
            r.rotation == self.rotation,
    {
        ntg_frame_data_struct {
            absoluteCaptureTimestampMs: self.absolute_capture_timestamp_ms,
            width: self.width,
            height: self.height,
            rotation: self.rotation,
        }
    }
}

/// Information about a single audio or video device.
#[derive(Debug, Clone)]
pub struct DeviceInfo {
    /// Human-readable device name.
    pub name: String,
    /// Platform-specific metadata string (may be empty).
    pub metadata: String,
}

/// All available audio and video devices on the host.
#[derive(Debug, Clone)]
pub struct MediaDevices {
    /// Available microphones.
    pub microphones: Vec<DeviceInfo>,
    /// Available speakers / playback devices.
    pub speakers: Vec<DeviceInfo>,
    /// Available cameras.
    pub cameras: Vec<DeviceInfo>,
    /// Available screen capture sources.
    pub screens: Vec<DeviceInfo>,
}

/// A remote participant's active video source.
#[derive(Debug, Clone, Copy)]
pub struct RemoteSource {
    /// The SSRC of the remote source.
    pub ssrc: u32,
    /// Whether the source is active, paused, or idle.
    pub state: StreamStatus,
    /// Which device type this source represents.
    pub device: StreamDevice,
}

impl RemoteSource {
    /// Reads the engine's record; `None` when a code is not one the engine
    /// defines.
    pub fn from_raw(s: ntg_remote_source_struct) -> (r: Option<RemoteSource>)
        ensures
            r is Some <==> (StreamStatus::spec_from_code(s.state) is Some
                && StreamDevice::spec_from_code(s.device) is Some),
            r matches Some(src) ==> src.ssrc == s.ssrc && src.state.spec_code() == s.state
                && src.device.spec_code() == s.device,
    {
        proof {
            crate::enums::stream_status_code_roundtrip(StreamStatus::Active, s.state);
            crate::enums::stream_device_code_roundtrip(StreamDevice::Camera, s.device);
        }
        match (StreamStatus::from_code(s.state), StreamDevice::from_code(s.device)) {
            (Some(state), Some(device)) => Some(RemoteSource { ssrc: s.ssrc, state, device }),
            _ => None,
        }
    }
}

/// A request from the engine for a broadcast segment.
#[derive(Debug, Clone, Copy)]
pub struct SegmentPartRequest {
    /// Segment identifier.
    pub segment_id: i64,
    /// Part identifier within the segment.
    pub part_id: i32,
    /// Maximum byte length the engine accepts for this part.
    pub limit: i32,
    /// Presentation timestamp for this segment in milliseconds.
    pub timestamp: i64,
    /// Whether this request is a quality-change update rather than new data.
    pub quality_update: bool,
    /// Channel identifier within the broadcast.
    pub channel_id: i32,
    /// Requested quality level.
    pub quality: MediaSegmentQuality,
}

impl SegmentPartRequest {
    /// Reads the engine's record; `None` when the quality code is not one
    /// the engine defines.
    pub fn from_raw(s: ntg_segment_part_request_struct) -> (r: Option<SegmentPartRequest>)
        ensures
            r is Some <==> MediaSegmentQuality::spec_from_code(s.quality) is Some,
            r matches Some(q) ==> {
                &&& q.segment_id == s.segmentId
                &&& q.part_id == s.partId
                &&& q.limit == s.limit
                &&& q.timestamp == s.timestamp
                &&& q.quality_update == s.qualityUpdate
                &&& q.channel_id == s.channelId
                &&& q.quality.spec_code() == s.quality
            },
    {
        proof {
            crate::enums::media_segment_quality_code_roundtrip(MediaSegmentQuality::Full, s.quality);
        }
        match MediaSegmentQuality::from_code(s.quality) {
            Some(quality) => Some(
                SegmentPartRequest {
                    segment_id: s.segmentId,
                    part_id: s.partId,
                    limit: s.limit,
                    timestamp: s.timestamp,
                    quality_update: s.qualityUpdate,
                    channel_id: s.channelId,
                    quality,
                },
            ),
            None => None,
        }
    }
}

/// WebRTC protocol descriptor of an engine build.
#[derive(Debug, Clone)]
pub struct Protocol {
    /// Minimum supported layer.
    pub min_layer: i32,
    /// Maximum supported layer.
    pub max_layer: i32,
    /// Whether UDP P2P is supported.
    pub udp_p2p: bool,
    /// Whether UDP via a reflector is supported.
    pub udp_reflector: bool,
    /// Supported library version strings.
    pub library_versions: Vec<String>,
}

impl Protocol {
    /// The protocol advertised when the engine cannot report its own:
    /// layer 92 only, both UDP modes, library versions "8.0.0" and "9.0.0".
    pub open spec fn is_fallback(self) -> bool {
        &&& self.min_layer == 92
        &&& self.max_layer == 92
        &&& self.udp_p2p
        &&& self.udp_reflector
        &&& self.library_versions@.len() == 2
        &&& self.library_versions@[0]@ == "8.0.0"@
        &&& self.library_versions@[1]@ == "9.0.0"@
    }

    pub fn fallback() -> (r: Protocol)
        ensures
            r.is_fallback(),
    {
        let mut versions: Vec<String> = Vec::new();
        versions.push(String::from_str("8.0.0"));
        versions.push(String::from_str("9.0.0"));
        Protocol {
            min_layer: 92,
            max_layer: 92,
            udp_p2p: true,
            udp_reflector: true,
            library_versions: versions,
        }
    }

    /// The engine's own protocol when it reported one, else the fallback.
    pub fn or_fallback(reported: Option<Protocol>) -> (r: Protocol)
        ensures
            reported matches Some(p) ==> r == p,
            reported is None ==> r.is_fallback(),
    {
        match reported {
            Some(p) => p,
            None => Protocol::fallback(),
        }
    }
}

/// One decoded media frame from the engine.
#[derive(Debug, Clone)]
pub struct Frame {
    /// Which source (participant) the frame came from.
    pub ssrc: i64,
    /// Raw decoded bytes.
    pub data: Vec<u8>,
    /// Frame metadata.
    pub frame_data: FrameData,
}

/// Which participant an audio SSRC belongs to.
#[derive(Debug, Clone, Copy, PartialEq, Eq, Structural)]
pub struct SsrcMapping {
    pub user_id: i64,
    pub ssrc: i32,
}

/// A request from the engine for blocks of a conference sub-chain.
#[derive(Debug, Clone, Copy)]
pub struct SubchainRequest {
    pub subchain: i32,
    pub height: i32,
    pub limit: i32,
}

/// What the engine produces when it prepares to join a conference.
#[derive(Debug, Clone)]
pub struct ConferenceJoinParams {
    /// The join payload (JSON) for Telegram.
    pub payload: String,
    /// The block to append to the conference chain.
    pub block: Vec<u8>,
    /// This participant's public key.
    pub public_key: Vec<u8>,
}

} // verus!
