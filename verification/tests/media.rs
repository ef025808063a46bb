use tgcalls::enums::MediaSource;
use tgcalls::media::{
    audio_cmd, auto_media, auto_media_at, even_box, media_has_video, record_audio_cmd,
    parse_dimensions, record_video_cmd, seek_flag, silent_media, video_cmd, Media,
};
use tgcalls::structures::{AudioDescription, DeviceInfo, VideoDescription};

const RECONNECT: &str =
    "-reconnect 1 -reconnect_at_eof 1 -reconnect_streamed 1 -reconnect_delay_max 2";

#[test]
fn audio_command_for_a_local_file() {
    assert_eq!(
        audio_cmd("song.mp3", true, ""),
        "ffmpeg -v error  -i \"song.mp3\" -vn -f s16le -ar 48000 -ac 2 pipe:1"
    );
}

#[test]
fn audio_command_for_a_remote_stream_with_seek() {
    let seek = seek_flag(false, "12.500");
    assert_eq!(seek, "-ss 12.500 ");
    assert_eq!(
        audio_cmd("https://x/y.mp3", false, &seek),
        format!("ffmpeg -v error -ss 12.500 {RECONNECT} -i \"https://x/y.mp3\" -vn -f s16le -ar 48000 -ac 2 pipe:1")
    );
    assert_eq!(seek_flag(true, "0.000"), "");
}

#[test]
fn paths_are_debug_quoted() {
    assert_eq!(
        audio_cmd("a \"b\".mp3", true, ""),
        "ffmpeg -v error  -i \"a \\\"b\\\".mp3\" -vn -f s16le -ar 48000 -ac 2 pipe:1"
    );
    assert_eq!(record_audio_cmd("out.ogg"), "ffmpeg -v error -f s16le -ar 48000 -ac 2 -i pipe:0 -y \"out.ogg\"");
}

#[test]
fn video_command() {
    assert_eq!(
        video_cmd("v.mp4", true, 1280, 720, 30, ""),
        "ffmpeg -v error  -i \"v.mp4\" -an -f rawvideo -pix_fmt yuv420p -vf scale=1280:720,fps=30 pipe:1"
    );
    assert_eq!(
        record_video_cmd("r.mp4", 640, 360, 24),
        "ffmpeg -v error -f rawvideo -pix_fmt yuv420p -s 640x360 -r 24 -i pipe:0 -y \"r.mp4\""
    );
}

#[test]
fn even_box_rounds_down_and_floors_at_two() {
    assert_eq!(even_box(1281, 721), (1280, 720));
    assert_eq!(even_box(1, -5), (2, 2));
    assert_eq!(even_box(3, 2), (2, 2));
    assert_eq!(even_box(i16::MAX, 4), (32766, 4));
}

#[test]
fn audio_descriptions() {
    let m = Media::audio("song.mp3", true);
    let a = m.microphone.unwrap();
    assert_eq!(a.media_source, MediaSource::Shell);
    assert_eq!(a.sample_rate, 48000);
    assert_eq!(a.channel_count, 2);
    assert!(!a.keep_open);
    assert!(m.camera.is_none() && m.speaker.is_none() && m.screen.is_none());
    let raw = Media::audio_raw("pcm.raw").microphone.unwrap();
    assert_eq!(raw.media_source, MediaSource::File);
    assert_eq!(raw.input, "pcm.raw");
    let at = Media::audio_at("s.mp3", true, "-ss 5.000 ").microphone.unwrap();
    assert_eq!(at.input, "ffmpeg -v error -ss 5.000  -i \"s.mp3\" -vn -f s16le -ar 48000 -ac 2 pipe:1");
}

#[test]
fn video_descriptions() {
    let m = Media::video("v.mp4", true, 1280, 720, 30);
    let v = m.camera.unwrap();
    assert_eq!((v.width, v.height, v.fps), (1280, 720, 30));
    assert!(m.microphone.is_none());
    let av = Media::av("a.mp3", true, "v.mp4", true, 640, 360, 25);
    assert!(av.microphone.is_some() && av.camera.is_some());
    let av_at = Media::av_at("a.mp3", true, "v.mp4", true, "-ss 1.000 ", 640, 360, 25);
    assert!(av_at.camera.unwrap().input.contains("-ss 1.000 "));
    assert!(Media::video_at("v.mp4", true, "-ss 2.000 ", 2, 2, 1).camera.is_some());
}

#[test]
fn device_and_external_sources() {
    let d = DeviceInfo { name: "Mic".to_string(), metadata: "hw:0".to_string() };
    let mic = Media::microphone(&d);
    assert_eq!((mic.media_source, mic.input.as_str(), mic.keep_open), (MediaSource::Device, "hw:0", true));
    let spk = Media::speaker(&d);
    assert_eq!(spk.sample_rate, 48000);
    let cam = Media::camera(&d, 640, 480, 15);
    assert_eq!((cam.width, cam.height, cam.fps), (640, 480, 15));
    let scr = Media::screen(1920, 1080, 30);
    assert_eq!(scr.media_source, MediaSource::Desktop);
    assert!(!scr.keep_open && scr.input.is_empty());
    let ev = Media::external_video(320, 240, 10);
    assert!(ev.keep_open && ev.media_source == MediaSource::External);
    let ea = Media::external_audio(16000, 1);
    assert_eq!((ea.sample_rate, ea.channel_count), (16000, 1));
}

#[test]
fn recording_targets_use_even_dimensions() {
    let m = Media::record_video("r.mp4", 641, 361, 24);
    let v = m.camera.unwrap();
    assert_eq!((v.width, v.height), (640, 360));
    assert_eq!(v.input, "ffmpeg -v error -f rawvideo -pix_fmt yuv420p -s 640x360 -r 24 -i pipe:0 -y \"r.mp4\"");
    let s = Media::record_screen("s.mp4", 1, 1, 5);
    let sv = s.screen.unwrap();
    assert_eq!((sv.width, sv.height), (2, 2));
    assert!(s.camera.is_none());
    assert!(Media::record_audio("a.ogg").microphone.is_some());
}

#[test]
fn auto_media_picks_by_streams() {
    let both = auto_media("f.mp4", true, true, true, 1280, 720, 30);
    assert!(both.microphone.is_some() && both.camera.is_some());
    let video_only = auto_media("f.mp4", true, true, false, 1280, 720, 30);
    assert!(video_only.microphone.is_none() && video_only.camera.is_some());
    let audio_only = auto_media("f.mp3", true, false, true, 1280, 720, 30);
    assert!(audio_only.microphone.is_some() && audio_only.camera.is_none());
    let nothing = auto_media("f", true, false, false, 1280, 720, 30);
    assert!(nothing.microphone.is_some());
    let at = auto_media_at("f.mp4", true, "-ss 3.000 ", true, true, 2, 2, 1);
    assert!(at.microphone.unwrap().input.contains("-ss 3.000 "));
}

#[test]
fn silence_and_video_detection() {
    let s = silent_media();
    assert!(s.microphone.is_none() && s.camera.is_none());
    assert!(!media_has_video(&None));
    assert!(!media_has_video(&Some(Media::audio("a", true))));
    assert!(media_has_video(&Some(Media::video("v", true, 2, 2, 1))));
}

#[test]
fn descriptions_cut_inputs_at_nul() {
    let a = AudioDescription::new(MediaSource::File, "ab\0cd", 48000, 2, false);
    assert_eq!(a.input, "ab");
    let v = VideoDescription::new(MediaSource::Shell, "cmd", 640, 480, 30, true);
    assert_eq!(v.input, "cmd");
    assert_eq!(VideoDescription::new(MediaSource::Shell, "\0x", 2, 2, 1, false).input, "");
}

#[test]
fn probed_dimensions() {
    assert_eq!(parse_dimensions("1920x1080\n"), Some((1920, 1080)));
    assert_eq!(parse_dimensions("  640x360 \r\n"), Some((640, 360)));
    assert_eq!(parse_dimensions("N/A\n1280x720"), Some((1280, 720)));
    assert_eq!(parse_dimensions("3x4x5"), Some((3, 4)));
    assert_eq!(parse_dimensions("0x5"), None);
    assert_eq!(parse_dimensions("12x"), None);
    assert_eq!(parse_dimensions("abc"), None);
    assert_eq!(parse_dimensions(""), None);
    assert_eq!(parse_dimensions("wxh\n640x480"), None);
    assert_eq!(parse_dimensions("+640x+480"), Some((640, 480)));
    assert_eq!(parse_dimensions("\u{3000}640x360\u{2003}"), Some((640, 360)));
    assert_eq!(parse_dimensions("4294967296x5"), None);
    assert_eq!(parse_dimensions("4294967295x1"), Some((4294967295, 1)));
    assert_eq!(parse_dimensions("-1x5"), None);
}
