//! Media sources: the ffmpeg command lines that decode files and streams
//! into the engine's raw formats, the descriptions built on them, devices,
//! and recording targets.
//!
//! What needs the file system or `ffprobe` (does the path exist, what
//! streams and dimensions the source has) is found out by the caller and
//! handed in as plain values.

use vstd::prelude::*;

use crate::enums::MediaSource;
use crate::structures::{AudioDescription, DeviceInfo, MediaDescription, VideoDescription};
use crate::text::{
    after, before, chars_of, debug_quote, debug_quoted, decimal, find_char, index_of, parse_u32, parsed_u32,
    push_decimal, trim_text, trimmed,
};

verus! {

/// The flags that let ffmpeg ride out a dropped remote stream.
pub const RECONNECT_FLAGS: &'static str = "-reconnect 1 -reconnect_at_eof 1 -reconnect_streamed 1 -reconnect_delay_max 2";

/// The reconnect flags for a remote source (one that is not a local path),
/// nothing for a local file.
pub open spec fn reconnect_text(source_is_local: bool) -> Seq<char> {
    if source_is_local {
        Seq::empty()
    } else {
        RECONNECT_FLAGS@
    }
}

/// The seek flag for a start offset: nothing at offset zero, else `-ss`,
/// the offset in seconds as rendered by the caller, and a space.
pub open spec fn seek_text(offset_is_zero: bool, secs_text: Seq<char>) -> Seq<char> {
    if offset_is_zero {
        Seq::empty()
    } else {
        "-ss "@ + secs_text + " "@
    }
}

pub fn seek_flag(offset_is_zero: bool, secs_text: &str) -> (r: String)
    ensures
        r@ == seek_text(offset_is_zero, secs_text@),
{
    if offset_is_zero {
        let r = String::new();
        assert(r@ =~= seek_text(offset_is_zero, secs_text@));
        r
    } else {
        let mut s = String::from_str("-ss ");
        s.append(secs_text);
        s.append(" ");
        s
    }
}

/// ffmpeg decoding `path`'s audio to 48 kHz stereo s16le on stdout.
pub open spec fn audio_cmd_text(path: Seq<char>, source_is_local: bool, seek: Seq<char>) -> Seq<
    char,
> {
    "ffmpeg -v error "@ + seek + reconnect_text(source_is_local) + " -i "@ + debug_quoted(path)
        + " -vn -f s16le -ar 48000 -ac 2 pipe:1"@
}

/// ffmpeg decoding `path`'s video to raw yuv420p frames of `w`x`h` at
/// `fps` on stdout.
pub open spec fn video_cmd_text(
    path: Seq<char>,
    source_is_local: bool,
    w: u32,
    h: u32,
    fps: u8,
    seek: Seq<char>,
) -> Seq<char> {
    "ffmpeg -v error "@ + seek + reconnect_text(source_is_local) + " -i "@ + debug_quoted(path)
        + " -an -f rawvideo -pix_fmt yuv420p -vf scale="@ + decimal(w as nat) + ":"@ + decimal(
        h as nat,
    ) + ",fps="@ + decimal(fps as nat) + " pipe:1"@
}

/// A remote source's audio and video commands both carry the reconnect
/// flags, right after the seek flag and before the input; a local file's
/// carry none. Both commands for a source start the same way.
pub proof fn remote_sources_reconnect(
    path: Seq<char>,
    source_is_local: bool,
    seek: Seq<char>,
    w: u32,
    h: u32,
    fps: u8,
)
    ensures
        ({
            let flags = if source_is_local {
                Seq::<char>::empty()
            } else {
                "-reconnect 1 -reconnect_at_eof 1 -reconnect_streamed 1 -reconnect_delay_max 2"@
            };
            let head = "ffmpeg -v error "@ + seek + flags + " -i "@ + debug_quoted(path);
            let audio = audio_cmd_text(path, source_is_local, seek);
            let video = video_cmd_text(path, source_is_local, w, h, fps, seek);
            &&& head.len() <= audio.len() && audio.subrange(0, head.len() as int) == head
            &&& head.len() <= video.len() && video.subrange(0, head.len() as int) == head
        }),
{
    let flags = if source_is_local {
        Seq::<char>::empty()
    } else {
        "-reconnect 1 -reconnect_at_eof 1 -reconnect_streamed 1 -reconnect_delay_max 2"@
    };
    assert(reconnect_text(source_is_local) == flags);
    let head = "ffmpeg -v error "@ + seek + flags + " -i "@ + debug_quoted(path);
    let audio_tail = " -vn -f s16le -ar 48000 -ac 2 pipe:1"@;
    let video_tail = " -an -f rawvideo -pix_fmt yuv420p -vf scale="@ + decimal(w as nat) + ":"@
        + decimal(h as nat) + ",fps="@ + decimal(fps as nat) + " pipe:1"@;
    assert(audio_cmd_text(path, source_is_local, seek) =~= head + audio_tail);
    assert(video_cmd_text(path, source_is_local, w, h, fps, seek) =~= head + video_tail);
    assert((head + audio_tail).subrange(0, head.len() as int) =~= head);
    assert((head + video_tail).subrange(0, head.len() as int) =~= head);
}

/// ffmpeg encoding 48 kHz stereo s16le from stdin into `path`.
pub open spec fn record_audio_cmd_text(path: Seq<char>) -> Seq<char> {
    "ffmpeg -v error -f s16le -ar 48000 -ac 2 -i pipe:0 -y "@ + debug_quoted(path)
}

/// ffmpeg encoding raw yuv420p frames of `w`x`h` at `fps` from stdin into
/// `path`.
pub open spec fn record_video_cmd_text(path: Seq<char>, w: u32, h: u32, fps: u8) -> Seq<char> {
    "ffmpeg -v error -f rawvideo -pix_fmt yuv420p -s "@ + decimal(w as nat) + "x"@ + decimal(
        h as nat,
    ) + " -r "@ + decimal(fps as nat) + " -i pipe:0 -y "@ + debug_quoted(path)
}

pub fn audio_cmd(path: &str, source_is_local: bool, seek: &str) -> (r: String)
    ensures
        r@ == audio_cmd_text(path@, source_is_local, seek@),
{
    let mut s = String::from_str("ffmpeg -v error ");
    s.append(seek);
    if !source_is_local {
        s.append(RECONNECT_FLAGS);
    }
    s.append(" -i ");
    let q = debug_quote(path);
    s.append(q.as_str());
    s.append(" -vn -f s16le -ar 48000 -ac 2 pipe:1");
    assert(s@ =~= audio_cmd_text(path@, source_is_local, seek@));
    s
}

pub fn video_cmd(path: &str, source_is_local: bool, w: u32, h: u32, fps: u8, seek: &str) -> (r:
    String)
    ensures
        r@ == video_cmd_text(path@, source_is_local, w, h, fps, seek@),
{
    let mut s = String::from_str("ffmpeg -v error ");
    s.append(seek);
    if !source_is_local {
        s.append(RECONNECT_FLAGS);
    }
    s.append(" -i ");
    let q = debug_quote(path);
    s.append(q.as_str());
    s.append(" -an -f rawvideo -pix_fmt yuv420p -vf scale=");
    push_decimal(&mut s, w as u64);
    s.append(":");
    push_decimal(&mut s, h as u64);
    s.append(",fps=");
    push_decimal(&mut s, fps as u64);
    s.append(" pipe:1");
    assert(s@ =~= video_cmd_text(path@, source_is_local, w, h, fps, seek@));
    s
}

pub fn record_audio_cmd(path: &str) -> (r: String)
    ensures
        r@ == record_audio_cmd_text(path@),
{
    let mut s = String::from_str("ffmpeg -v error -f s16le -ar 48000 -ac 2 -i pipe:0 -y ");
    let q = debug_quote(path);
    s.append(q.as_str());
    s
}

pub fn record_video_cmd(path: &str, w: u32, h: u32, fps: u8) -> (r: String)
    ensures
        r@ == record_video_cmd_text(path@, w, h, fps),
{
    let mut s = String::from_str("ffmpeg -v error -f rawvideo -pix_fmt yuv420p -s ");
    push_decimal(&mut s, w as u64);
    s.append("x");
    push_decimal(&mut s, h as u64);
    s.append(" -r ");
    push_decimal(&mut s, fps as u64);
    s.append(" -i pipe:0 -y ");
    let q = debug_quote(path);
    s.append(q.as_str());
    assert(s@ =~= record_video_cmd_text(path@, w, h, fps));
    s
}

/// A requested dimension made usable for yuv420p: at least 2, rounded
/// down to even.
pub open spec fn even_dim(v: i16) -> u32 {
    let m: int = if v < 2 {
        2
    } else {
        v as int
    };
    (m - m % 2) as u32
}

pub fn even_box(width: i16, height: i16) -> (r: (u32, u32))
    ensures
        r.0 == even_dim(width),
        r.1 == even_dim(height),
        r.0 % 2 == 0 && r.0 >= 2 && r.0 <= 32766,
        r.1 % 2 == 0 && r.1 >= 2 && r.1 <= 32766,
{
    let w: u32 = if width < 2 {
        2
    } else {
        width as u32
    };
    let h: u32 = if height < 2 {
        2
    } else {
        height as u32
    };
    assert(w & !1u32 == w - w % 2) by (bit_vector);
    assert(h & !1u32 == h - h % 2) by (bit_vector);
    (w & !1u32, h & !1u32)
}

/// An audio description reading 48 kHz stereo PCM through `input`.
pub open spec fn is_pcm_audio(a: AudioDescription, source: MediaSource, input: Seq<char>, keep_open: bool) -> bool {
    &&& a.media_source == source
    &&& a.input@ == input
    &&& a.sample_rate == 48000
    &&& a.channel_count == 2
    &&& a.keep_open == keep_open
}

/// A video description of `w`x`h` (as 16-bit values) at `fps`.
pub open spec fn is_video(
    v: VideoDescription,
    source: MediaSource,
    input: Seq<char>,
    w: u32,
    h: u32,
    fps: u8,
    keep_open: bool,
) -> bool {
    &&& v.media_source == source
    &&& v.input@ == input
    &&& v.width == w as i16
    &&& v.height == h as i16
    &&& v.fps == fps
    &&& v.keep_open == keep_open
}

fn shell_audio(input: String) -> (r: AudioDescription)
    ensures
        is_pcm_audio(r, MediaSource::Shell, input@, false),
{
    AudioDescription {
        media_source: MediaSource::Shell,
        sample_rate: 48000,
        channel_count: 2,
        input,
        keep_open: false,
    }
}

fn shell_video(input: String, w: u32, h: u32, fps: u8) -> (r: VideoDescription)
    ensures
        is_video(r, MediaSource::Shell, input@, w, h, fps, false),
{
    VideoDescription {
        media_source: MediaSource::Shell,
        width: #[verifier::truncate] (w as i16),
        height: #[verifier::truncate] (h as i16),
        fps,
        input,
        keep_open: false,
    }
}

/// No source at all: joining with it streams nothing.
pub fn silent_media() -> (r: MediaDescription)
    ensures
        r.microphone is None && r.speaker is None && r.camera is None && r.screen is None,
{
    MediaDescription { microphone: None, speaker: None, camera: None, screen: None }
}

/// Whether a description carries a camera or screen source.
pub open spec fn spec_has_video(m: Option<MediaDescription>) -> bool {
    m matches Some(d) && (d.camera is Some || d.screen is Some)
}

pub fn media_has_video(m: &Option<MediaDescription>) -> (r: bool)
    ensures
        r == spec_has_video(*m),
{
    match m {
        Some(d) => d.camera.is_some() || d.screen.is_some(),
        None => false,
    }
}

pub struct Media;

impl Media {
    /// Audio from anything ffmpeg reads, decoded to 48 kHz stereo PCM.
    pub fn audio(path: &str, source_is_local: bool) -> (r: MediaDescription)
        ensures
            r.microphone matches Some(a) && is_pcm_audio(
                a,
                MediaSource::Shell,
                audio_cmd_text(path@, source_is_local, Seq::empty()),
                false,
            ),
            r.speaker is None && r.camera is None && r.screen is None,
    {
        let none = String::new();
        assert(none@ =~= Seq::<char>::empty());
        MediaDescription {
            microphone: Some(shell_audio(audio_cmd(path, source_is_local, none.as_str()))),
            speaker: None,
            camera: None,
            screen: None,
        }
    }

    /// Like `audio`, starting at an offset (`seek` is its seek flag).
    pub fn audio_at(path: &str, source_is_local: bool, seek: &str) -> (r: MediaDescription)
        ensures
            r.microphone matches Some(a) && is_pcm_audio(
                a,
                MediaSource::Shell,
                audio_cmd_text(path@, source_is_local, seek@),
                false,
            ),
            r.speaker is None && r.camera is None && r.screen is None,
    {
        MediaDescription {
            microphone: Some(shell_audio(audio_cmd(path, source_is_local, seek))),
            speaker: None,
            camera: None,
            screen: None,
        }
    }

    /// Audio from a raw 48 kHz stereo s16le file, read as is.
    pub fn audio_raw(path: &str) -> (r: MediaDescription)
        ensures
            r.microphone matches Some(a) && is_pcm_audio(a, MediaSource::File, path@, false),
            r.speaker is None && r.camera is None && r.screen is None,
    {
        MediaDescription {
            microphone: Some(
                AudioDescription {
                    media_source: MediaSource::File,
                    sample_rate: 48000,
                    channel_count: 2,
                    input: String::from_str(path),
                    keep_open: false,
                },
            ),
            speaker: None,
            camera: None,
            screen: None,
        }
    }

    /// Video from anything ffmpeg reads, decoded to yuv420p at `w`x`h`
    /// (the box already fitted to the source's aspect ratio).
    pub fn video(path: &str, source_is_local: bool, w: u32, h: u32, fps: u8) -> (r:
        MediaDescription)
        ensures
            r.camera matches Some(v) && is_video(
                v,
                MediaSource::Shell,
                video_cmd_text(path@, source_is_local, w, h, fps, Seq::empty()),
                w,
                h,
                fps,
                false,
            ),
            r.microphone is None && r.speaker is None && r.screen is None,
    {
        let none = String::new();
        assert(none@ =~= Seq::<char>::empty());
        MediaDescription {
            microphone: None,
            speaker: None,
            camera: Some(shell_video(video_cmd(path, source_is_local, w, h, fps, none.as_str()), w, h, fps)),
            screen: None,
        }
    }

    /// Like `video`, starting at an offset (`seek` is its seek flag).
    pub fn video_at(path: &str, source_is_local: bool, seek: &str, w: u32, h: u32, fps: u8) -> (r:
        MediaDescription)
        ensures
            r.camera matches Some(v) && is_video(
                v,
                MediaSource::Shell,
                video_cmd_text(path@, source_is_local, w, h, fps, seek@),
                w,
                h,
                fps,
                false,
            ),
            r.microphone is None && r.speaker is None && r.screen is None,
    {
        MediaDescription {
            microphone: None,
            speaker: None,
            camera: Some(shell_video(video_cmd(path, source_is_local, w, h, fps, seek), w, h, fps)),
            screen: None,
        }
    }

    /// Audio and video, each from its own ffmpeg process (the two paths may
    /// be the same file).
    pub fn av(
        audio_path: &str,
        audio_is_local: bool,
        video_path: &str,
        video_is_local: bool,
        w: u32,
        h: u32,
        fps: u8,
    ) -> (r: MediaDescription)
        ensures
            r.microphone matches Some(a) && is_pcm_audio(
                a,
                MediaSource::Shell,
                audio_cmd_text(audio_path@, audio_is_local, Seq::empty()),
                false,
            ),
            r.camera matches Some(v) && is_video(
                v,
                MediaSource::Shell,
                video_cmd_text(video_path@, video_is_local, w, h, fps, Seq::empty()),
                w,
                h,
                fps,
                false,
            ),
            r.speaker is None && r.screen is None,
    {
        let none = String::new();
        assert(none@ =~= Seq::<char>::empty());
        MediaDescription {
            microphone: Some(shell_audio(audio_cmd(audio_path, audio_is_local, none.as_str()))),
            speaker: None,
            camera: Some(
                shell_video(video_cmd(video_path, video_is_local, w, h, fps, none.as_str()), w, h, fps),
            ),
            screen: None,
        }
    }

    /// Like `av`, starting both streams at an offset (`seek` is its flag).
    pub fn av_at(
        audio_path: &str,
        audio_is_local: bool,
        video_path: &str,
        video_is_local: bool,
        seek: &str,
        w: u32,
        h: u32,
        fps: u8,
    ) -> (r: MediaDescription)
        ensures
            r.microphone matches Some(a) && is_pcm_audio(
                a,
                MediaSource::Shell,
                audio_cmd_text(audio_path@, audio_is_local, seek@),
                false,
            ),
            r.camera matches Some(v) && is_video(
                v,
                MediaSource::Shell,
                video_cmd_text(video_path@, video_is_local, w, h, fps, seek@),
                w,
                h,
                fps,
                false,
            ),
            r.speaker is None && r.screen is None,
    {
        MediaDescription {
            microphone: Some(shell_audio(audio_cmd(audio_path, audio_is_local, seek))),
            speaker: None,
            camera: Some(shell_video(video_cmd(video_path, video_is_local, w, h, fps, seek), w, h, fps)),
            screen: None,
        }
    }

    /// Screen-share presentation source.
    pub fn screen(width: i16, height: i16, fps: u8) -> (r: VideoDescription)
        ensures
            r.media_source == MediaSource::Desktop,
            r.input@ == Seq::<char>::empty(),
            r.width == width && r.height == height && r.fps == fps && !r.keep_open,
    {
        let input = String::new();
        VideoDescription { media_source: MediaSource::Desktop, width, height, fps, input, keep_open: false }
    }

    /// Video fed entirely by external frames.
    pub fn external_video(width: i16, height: i16, fps: u8) -> (r: VideoDescription)
        ensures
            r.media_source == MediaSource::External,
            r.input@ == Seq::<char>::empty(),
            r.width == width && r.height == height && r.fps == fps && r.keep_open,
    {
        let input = String::new();
        VideoDescription { media_source: MediaSource::External, width, height, fps, input, keep_open: true }
    }

    /// Audio fed entirely by external frames.
    pub fn external_audio(sample_rate: u32, channels: u8) -> (r: AudioDescription)
        ensures
            r.media_source == MediaSource::External,
            r.input@ == Seq::<char>::empty(),
            r.sample_rate == sample_rate && r.channel_count == channels && r.keep_open,
    {
        let input = String::new();
        AudioDescription {
            media_source: MediaSource::External,
            sample_rate,
            channel_count: channels,
            input,
            keep_open: true,
        }
    }

    /// A physical microphone as the outgoing audio source.
    pub fn microphone(device: &DeviceInfo) -> (r: AudioDescription)
        ensures
            is_pcm_audio(r, MediaSource::Device, device.metadata@, true),
    {
        AudioDescription {
            media_source: MediaSource::Device,
            sample_rate: 48000,
            channel_count: 2,
            input: device.metadata.clone(),
            keep_open: true,
        }
    }

    /// A physical camera as the outgoing video source.
    pub fn camera(device: &DeviceInfo, width: i16, height: i16, fps: u8) -> (r: VideoDescription)
        ensures
            r.media_source == MediaSource::Device,
            r.input@ == device.metadata@,
            r.width == width && r.height == height && r.fps == fps && r.keep_open,
    {
        VideoDescription {
            media_source: MediaSource::Device,
            width,
            height,
            fps,
            input: device.metadata.clone(),
            keep_open: true,
        }
    }

    /// A physical speaker as the destination of the call's incoming audio;
    /// goes in `microphone` with `StreamMode::Playback`.
    pub fn speaker(device: &DeviceInfo) -> (r: AudioDescription)
        ensures
            is_pcm_audio(r, MediaSource::Device, device.metadata@, true),
    {
        AudioDescription {
            media_source: MediaSource::Device,
            sample_rate: 48000,
            channel_count: 2,
            input: device.metadata.clone(),
            keep_open: true,
        }
    }

    /// Records the call's incoming audio to `path` (use with
    /// `StreamMode::Playback`).
    pub fn record_audio(path: &str) -> (r: MediaDescription)
        ensures
            r.microphone matches Some(a) && is_pcm_audio(
                a,
                MediaSource::Shell,
                record_audio_cmd_text(path@),
                false,
            ),
            r.speaker is None && r.camera is None && r.screen is None,
    {
        MediaDescription {
            microphone: Some(shell_audio(record_audio_cmd(path))),
            speaker: None,
            camera: None,
            screen: None,
        }
    }

    /// Records the call's incoming camera video to `path`, at the requested
    /// size made even.
    pub fn record_video(path: &str, width: i16, height: i16, fps: u8) -> (r: MediaDescription)
        ensures
            r.camera matches Some(v) && is_video(
                v,
                MediaSource::Shell,
                record_video_cmd_text(path@, even_dim(width), even_dim(height), fps),
                even_dim(width),
                even_dim(height),
                fps,
                false,
            ),
            r.microphone is None && r.speaker is None && r.screen is None,
    {
        let (w, h) = even_box(width, height);
        MediaDescription {
            microphone: None,
            speaker: None,
            camera: Some(shell_video(record_video_cmd(path, w, h, fps), w, h, fps)),
            screen: None,
        }
    }

    /// Records an incoming screen share to `path`.
    pub fn record_screen(path: &str, width: i16, height: i16, fps: u8) -> (r: MediaDescription)
        ensures
            r.screen matches Some(v) && is_video(
                v,
                MediaSource::Shell,
                record_video_cmd_text(path@, even_dim(width), even_dim(height), fps),
                even_dim(width),
                even_dim(height),
                fps,
                false,
            ),
            r.microphone is None && r.speaker is None && r.camera is None,
    {
        let (w, h) = even_box(width, height);
        MediaDescription {
            microphone: None,
            speaker: None,
            camera: None,
            screen: Some(shell_video(record_video_cmd(path, w, h, fps), w, h, fps)),
        }
    }
}

/// What a probed source is streamed as: audio and video when it has both,
/// video alone when it has no audio, audio otherwise.
pub open spec fn auto_media_matches(
    r: MediaDescription,
    source: Seq<char>,
    source_is_local: bool,
    has_video: bool,
    has_audio: bool,
    w: u32,
    h: u32,
    fps: u8,
    seek: Seq<char>,
) -> bool {
    let audio_ok = r.microphone matches Some(a) && is_pcm_audio(
        a,
        MediaSource::Shell,
        audio_cmd_text(source, source_is_local, seek),
        false,
    );
    let video_ok = r.camera matches Some(v) && is_video(
        v,
        MediaSource::Shell,
        video_cmd_text(source, source_is_local, w, h, fps, seek),
        w,
        h,
        fps,
        false,
    );
    &&& r.speaker is None && r.screen is None
    &&& if has_video && has_audio {
        audio_ok && video_ok
    } else if has_video {
        video_ok && r.microphone is None
    } else {
        audio_ok && r.camera is None
    }
}

/// Builds the description for a source from what probing found; `w`x`h`
/// is the video box fitted to the source.
pub fn auto_media(source: &str, source_is_local: bool, has_video: bool, has_audio: bool, w: u32, h: u32, fps: u8) -> (r:
    MediaDescription)
    ensures
        auto_media_matches(r, source@, source_is_local, has_video, has_audio, w, h, fps, Seq::empty()),
{
    if has_video && has_audio {
        Media::av(source, source_is_local, source, source_is_local, w, h, fps)
    } else if has_video {
        Media::video(source, source_is_local, w, h, fps)
    } else {
        Media::audio(source, source_is_local)
    }
}

/// Like `auto_media`, starting at an offset (`seek` is its seek flag).
pub fn auto_media_at(
    source: &str,
    source_is_local: bool,
    seek: &str,
    has_video: bool,
    has_audio: bool,
    w: u32,
    h: u32,
    fps: u8,
) -> (r: MediaDescription)
    ensures
        auto_media_matches(r, source@, source_is_local, has_video, has_audio, w, h, fps, seek@),
{
    if has_video && has_audio {
        Media::av_at(source, source_is_local, source, source_is_local, seek, w, h, fps)
    } else if has_video {
        Media::video_at(source, source_is_local, seek, w, h, fps)
    } else {
        Media::audio_at(source, source_is_local, seek)
    }
}


/// Where the line starting at `i` ends: at the next newline, or at the end.
pub open spec fn line_end(v: Seq<char>, i: int) -> int
    decreases v.len() - i,
{
    if i < 0 || i >= v.len() || v[i] == '\n' {
        i
    } else {
        line_end(v, i + 1)
    }
}

/// A line ends at or after its start, at a newline or at the end of the
/// text, with no newline before.
pub proof fn lemma_line_end(v: Seq<char>, i: int)
    requires
        0 <= i <= v.len(),
    ensures
        i <= line_end(v, i) <= v.len(),
        line_end(v, i) < v.len() ==> v[line_end(v, i)] == '\n',
        forall|k: int| i <= k < line_end(v, i) ==> v[k] != '\n',
    decreases v.len() - i,
{
    if i < v.len() && v[i] != '\n' {
        lemma_line_end(v, i + 1);
    }
}

/// The first line (from position `start` on) that holds an 'x'.
pub open spec fn first_line_with_x(v: Seq<char>, start: int) -> Option<Seq<char>>
    decreases v.len() - start,
{
    if 0 <= start <= v.len() {
        let end = line_end(v, start);
        proof {
            lemma_line_end(v, start);
        }
        if v.subrange(start, end).contains('x') {
            Some(v.subrange(start, end))
        } else if end >= v.len() {
            None
        } else {
            first_line_with_x(v, end + 1)
        }
    } else {
        None
    }
}

/// The dimensions `ffprobe` reports as `WxH`: the first line holding an
/// 'x', trimmed, split at 'x'; both parts must parse as positive numbers.
pub open spec fn spec_dimensions(text: Seq<char>) -> Option<(u32, u32)> {
    match first_line_with_x(text, 0) {
        None => None,
        Some(line) => {
            let t = trimmed(line);
            match after(t, 'x') {
                None => None,
                Some(rest) => match (parsed_u32(before(t, 'x')), parsed_u32(before(rest, 'x'))) {
                    (Some(w), Some(h)) => if w > 0 && h > 0 {
                        Some((w, h))
                    } else {
                        None
                    },
                    _ => None,
                },
            }
        },
    }
}

fn range_has(v: &Vec<char>, c: char, from: usize, to: usize) -> (r: bool)
    requires
        from <= to <= v@.len(),
    ensures
        r == v@.subrange(from as int, to as int).contains(c),
{
    let mut i = from;
    while i < to
        invariant
            from <= i <= to <= v@.len(),
            forall|k: int| from <= k < i ==> v@[k] != c,
        decreases to - i,
    {
        if v[i] == c {
            assert(v@.subrange(from as int, to as int)[i - from] == c);
            return true;
        }
        i = i + 1;
    }
    assert forall|k: int| 0 <= k < v@.subrange(from as int, to as int).len() implies v@.subrange(
        from as int,
        to as int,
    )[k] != c by {
        assert(v@[from + k] != c);
    }
    false
}

/// Reads the video dimensions out of `ffprobe`'s `WxH` output.
pub fn parse_dimensions(text: &str) -> (r: Option<(u32, u32)>)
    ensures
        r == spec_dimensions(text@),
{
    let v = chars_of(text);
    let n = v.len();
    let mut start: usize = 0;
    let mut found: Option<(usize, usize)> = None;
    let mut exhausted = false;
    while !exhausted && found.is_none()
        invariant
            n == v@.len(),
            v@ == text@,
            start <= n,
            found is None && !exhausted ==> first_line_with_x(v@, 0) == first_line_with_x(v@, start as int),
            found is None && exhausted ==> first_line_with_x(v@, 0) is None,
            found matches Some((a, b)) ==> a <= b <= n && first_line_with_x(v@, 0) == Some(
                v@.subrange(a as int, b as int),
            ),
        decreases n - start, (if found is None && !exhausted { 1int } else { 0int }),
    {
        let mut end = start;
        while end < n && v[end] != '\n'
            invariant
                start <= end <= n,
                n == v@.len(),
                line_end(v@, start as int) == line_end(v@, end as int),
            decreases n - end,
        {
            end = end + 1;
        }
        proof {
            lemma_line_end(v@, start as int);
        }
        if range_has(&v, 'x', start, end) {
            found = Some((start, end));
        } else if end >= n {
            exhausted = true;
        } else {
            start = end + 1;
        }
    }
    let (a, b) = match found {
        Some(p) => p,
        None => return None,
    };
    let line = text.substring_char(a, b);
    let t = trim_text(line);
    let tv = chars_of(t.as_str());
    let tn = tv.len();
    let i = match find_char(&tv, 'x', 0) {
        Some(i) => i,
        None => {
            assert(tv@.skip(0) =~= tv@);
            return None;
        },
    };
    assert(tv@.skip(0) =~= tv@);
    let j = match find_char(&tv, 'x', i + 1) {
        Some(j) => j,
        None => tn,
    };
    let first = t.as_str().substring_char(0, i);
    let second = t.as_str().substring_char(i + 1, j);
    proof {
        let rest = tv@.skip(i + 1);
        assert(first@ =~= before(tv@, 'x'));
        assert(second@ =~= before(rest, 'x'));
    }
    let w = match parse_u32(first) {
        Some(w) => w,
        None => return None,
    };
    let h = match parse_u32(second) {
        Some(h) => h,
        None => return None,
    };
    if w > 0 && h > 0 {
        Some((w, h))
    } else {
        None
    }
}

} // verus!
