//! Errors: the engine's error codes (`CallError`) and the library's own
//! error (`TgCallsError`), with the text each one displays.

use vstd::prelude::*;

use crate::raw::{
    NTG_ERROR_ASYNC_NOT_READY, NTG_ERROR_CONNECTION, NTG_ERROR_CONNECTION_NOT_FOUND, NTG_ERROR_CRYPTO, NTG_ERROR_FFMPEG, NTG_ERROR_FILE, NTG_ERROR_INVALID_PARAMS, NTG_ERROR_MEDIA_DEVICE, NTG_ERROR_NULL_POINTER, NTG_ERROR_PARSE_SDP, NTG_ERROR_PARSE_TRANSPORT, NTG_ERROR_RTC_CONNECTION_NEEDED, NTG_ERROR_RTMP_STREAMING_UNSUPPORTED, NTG_ERROR_SHELL, NTG_ERROR_SIGNALING, NTG_ERROR_SIGNALING_UNSUPPORTED, NTG_ERROR_TELEGRAM_SERVER, NTG_ERROR_TOO_SMALL, NTG_ERROR_UNKNOWN, NTG_ERROR_WEBRTC,
};
use crate::text::{decimal, has_infix, push_decimal, push_signed_decimal, signed_decimal, to_upper, upper_cased, contains_text};

verus! {

/// An error from an engine operation.
///
/// Variants map one to one to the engine's error codes, except
/// `VersionMismatch`, which comes from the startup version check.
#[non_exhaustive]
#[derive(Debug, Clone, PartialEq, Eq)]
pub enum CallError {
    /// The loaded engine's version differs from the one this crate pins.
    VersionMismatch { compiled: String, loaded: String },
    /// Internal engine error with no further detail.
    Unknown,
    /// Null pointer passed to the engine. This is a caller bug.
    NullPointer,
    /// Output buffer too small.
    TooSmall,
    /// Async operation polled before it completed.
    AsyncNotReady,
    /// No active call for this `chat_id` or `user_id`.
    ConnectionNotFound,
    /// Cryptographic operation failed.
    Crypto,
    /// Signaling error.
    Signaling,
    /// Remote does not support the signaling protocol.
    SignalingUnsupported,
    /// Invalid parameters.
    InvalidParams,
    /// Media file could not be opened or read.
    File,
    /// FFmpeg error.
    FFmpeg,
    /// Shell command failed.
    Shell,
    /// Media device could not be accessed.
    MediaDevice,
    /// RTMP streaming not supported.
    RtmpStreamingUnsupported,
    /// Transport params JSON from Telegram could not be parsed.
    ParseTransport,
    /// WebRTC connection failed.
    Connection,
    /// Telegram server error during call setup.
    TelegramServer,
    /// Internal WebRTC error.
    WebRtc,
    /// SDP could not be parsed.
    ParseSdp,
    /// RTC connection required but not established yet.
    RtcConnectionNeeded,
    /// An engine error code this crate does not map.
    Unrecognized(i32),
}

impl CallError {
    /// The error an engine code stands for.
    pub open spec fn spec_from_code(code: i32) -> CallError {
        if code == -1 {
            CallError::Unknown
        } else if code == -2 {
            CallError::NullPointer
        } else if code == -3 {
            CallError::TooSmall
        } else if code == -4 {
            CallError::AsyncNotReady
        } else if code == -101 {
            CallError::ConnectionNotFound
        } else if code == -102 {
            CallError::Crypto
        } else if code == -104 {
            CallError::Signaling
        } else if code == -105 {
            CallError::SignalingUnsupported
        } else if code == -106 {
            CallError::InvalidParams
        } else if code == -200 {
            CallError::File
        } else if code == -202 {
            CallError::FFmpeg
        } else if code == -203 {
            CallError::Shell
        } else if code == -204 {
            CallError::MediaDevice
        } else if code == -300 {
            CallError::RtmpStreamingUnsupported
        } else if code == -301 {
            CallError::ParseTransport
        } else if code == -302 {
            CallError::Connection
        } else if code == -303 {
            CallError::TelegramServer
        } else if code == -304 {
            CallError::WebRtc
        } else if code == -305 {
            CallError::ParseSdp
        } else if code == -306 {
            CallError::RtcConnectionNeeded
        } else {
            CallError::Unrecognized(code)
        }
    }

    /// The engine code of an error; `None` for the version check's error,
    /// which has no code.
    pub open spec fn spec_code(self) -> Option<i32> {
        match self {
            CallError::VersionMismatch { .. } => None,
            CallError::Unknown => Some(-1i32),
            CallError::NullPointer => Some(-2i32),
            CallError::TooSmall => Some(-3i32),
            CallError::AsyncNotReady => Some(-4i32),
            CallError::ConnectionNotFound => Some(-101i32),
            CallError::Crypto => Some(-102i32),
            CallError::Signaling => Some(-104i32),
            CallError::SignalingUnsupported => Some(-105i32),
            CallError::InvalidParams => Some(-106i32),
            CallError::File => Some(-200i32),
            CallError::FFmpeg => Some(-202i32),
            CallError::Shell => Some(-203i32),
            CallError::MediaDevice => Some(-204i32),
            CallError::RtmpStreamingUnsupported => Some(-300i32),
            CallError::ParseTransport => Some(-301i32),
            CallError::Connection => Some(-302i32),
            CallError::TelegramServer => Some(-303i32),
            CallError::WebRtc => Some(-304i32),
            CallError::ParseSdp => Some(-305i32),
            CallError::RtcConnectionNeeded => Some(-306i32),
            CallError::Unrecognized(c) => Some(c),
        }
    }

    /// The text the error displays.
    pub open spec fn spec_message(self) -> Seq<char> {
        match self {
            CallError::VersionMismatch { compiled, loaded } => "ntgcalls version mismatch: compiled against "@
                + compiled@ + ", loaded "@ + loaded@
                + ". Upgrade via the tgcalls crate. See docs/upgrade.md."@,
            CallError::Unknown => "unknown NTgCalls error"@,
            CallError::NullPointer => "null pointer passed to NTgCalls"@,
            CallError::TooSmall => "output buffer too small"@,
            CallError::AsyncNotReady => "async operation not ready"@,
            CallError::ConnectionNotFound => "no active call for this chat/user ID"@,
            CallError::Crypto => "cryptographic operation failed"@,
            CallError::Signaling => "signaling error"@,
            CallError::SignalingUnsupported => "signaling not supported by remote"@,
            CallError::InvalidParams => "invalid parameters"@,
            CallError::File => "media file error"@,
            CallError::FFmpeg => "ffmpeg error"@,
            CallError::Shell => "shell command failed"@,
            CallError::MediaDevice => "media device error"@,
            CallError::RtmpStreamingUnsupported => "RTMP streaming not supported"@,
            CallError::ParseTransport => "failed to parse transport params"@,
            CallError::Connection => "WebRTC connection failed"@,
            CallError::TelegramServer => "Telegram server error"@,
            CallError::WebRtc => "WebRTC internal error"@,
            CallError::ParseSdp => "failed to parse SDP"@,
            CallError::RtcConnectionNeeded => "RTC connection required but not established"@,
            CallError::Unrecognized(c) => "unrecognized NTgCalls error code: "@ + signed_decimal(
                c as int,
            ),
        }
    }

    /// Maps an engine error code to its error.
    pub fn from_code(code: i32) -> (r: CallError)
        ensures
            r == Self::spec_from_code(code),
    {
        if code == NTG_ERROR_UNKNOWN {
            CallError::Unknown
        } else if code == NTG_ERROR_NULL_POINTER {
            CallError::NullPointer
        } else if code == NTG_ERROR_TOO_SMALL {
            CallError::TooSmall
        } else if code == NTG_ERROR_ASYNC_NOT_READY {
            CallError::AsyncNotReady
        } else if code == NTG_ERROR_CONNECTION_NOT_FOUND {
            CallError::ConnectionNotFound
        } else if code == NTG_ERROR_CRYPTO {
            CallError::Crypto
        } else if code == NTG_ERROR_SIGNALING {
            CallError::Signaling
        } else if code == NTG_ERROR_SIGNALING_UNSUPPORTED {
            CallError::SignalingUnsupported
        } else if code == NTG_ERROR_INVALID_PARAMS {
            CallError::InvalidParams
        } else if code == NTG_ERROR_FILE {
            CallError::File
        } else if code == NTG_ERROR_FFMPEG {
            CallError::FFmpeg
        } else if code == NTG_ERROR_SHELL {
            CallError::Shell
        } else if code == NTG_ERROR_MEDIA_DEVICE {
            CallError::MediaDevice
        } else if code == NTG_ERROR_RTMP_STREAMING_UNSUPPORTED {
            CallError::RtmpStreamingUnsupported
        } else if code == NTG_ERROR_PARSE_TRANSPORT {
            CallError::ParseTransport
        } else if code == NTG_ERROR_CONNECTION {
            CallError::Connection
        } else if code == NTG_ERROR_TELEGRAM_SERVER {
            CallError::TelegramServer
        } else if code == NTG_ERROR_WEBRTC {
            CallError::WebRtc
        } else if code == NTG_ERROR_PARSE_SDP {
            CallError::ParseSdp
        } else if code == NTG_ERROR_RTC_CONNECTION_NEEDED {
            CallError::RtcConnectionNeeded
        } else {
            CallError::Unrecognized(code)
        }
    }

    /// The engine code of this error, if it has one.
    pub fn code(&self) -> (r: Option<i32>)
        ensures
            r == self.spec_code(),
    {
        match self {
            CallError::VersionMismatch { .. } => None,
            CallError::Unknown => Some(NTG_ERROR_UNKNOWN),
            CallError::NullPointer => Some(NTG_ERROR_NULL_POINTER),
            CallError::TooSmall => Some(NTG_ERROR_TOO_SMALL),
            CallError::AsyncNotReady => Some(NTG_ERROR_ASYNC_NOT_READY),
            CallError::ConnectionNotFound => Some(NTG_ERROR_CONNECTION_NOT_FOUND),
            CallError::Crypto => Some(NTG_ERROR_CRYPTO),
            CallError::Signaling => Some(NTG_ERROR_SIGNALING),
            CallError::SignalingUnsupported => Some(NTG_ERROR_SIGNALING_UNSUPPORTED),
            CallError::InvalidParams => Some(NTG_ERROR_INVALID_PARAMS),
            CallError::File => Some(NTG_ERROR_FILE),
            CallError::FFmpeg => Some(NTG_ERROR_FFMPEG),
            CallError::Shell => Some(NTG_ERROR_SHELL),
            CallError::MediaDevice => Some(NTG_ERROR_MEDIA_DEVICE),
            CallError::RtmpStreamingUnsupported => Some(NTG_ERROR_RTMP_STREAMING_UNSUPPORTED),
            CallError::ParseTransport => Some(NTG_ERROR_PARSE_TRANSPORT),
            CallError::Connection => Some(NTG_ERROR_CONNECTION),
            CallError::TelegramServer => Some(NTG_ERROR_TELEGRAM_SERVER),
            CallError::WebRtc => Some(NTG_ERROR_WEBRTC),
            CallError::ParseSdp => Some(NTG_ERROR_PARSE_SDP),
            CallError::RtcConnectionNeeded => Some(NTG_ERROR_RTC_CONNECTION_NEEDED),
            CallError::Unrecognized(c) => Some(*c),
        }
    }

    /// The text this error displays.
    pub fn message(&self) -> (r: String)
        ensures
            r@ == self.spec_message(),
    {
        match self {
            CallError::VersionMismatch { compiled, loaded } => {
                let mut s = String::from_str("ntgcalls version mismatch: compiled against ");
                s.append(compiled.as_str());
                s.append(", loaded ");
                s.append(loaded.as_str());
                s.append(". Upgrade via the tgcalls crate. See docs/upgrade.md.");
                s
            },
            CallError::Unknown => String::from_str("unknown NTgCalls error"),
            CallError::NullPointer => String::from_str("null pointer passed to NTgCalls"),
            CallError::TooSmall => String::from_str("output buffer too small"),
            CallError::AsyncNotReady => String::from_str("async operation not ready"),
            CallError::ConnectionNotFound => String::from_str("no active call for this chat/user ID"),
            CallError::Crypto => String::from_str("cryptographic operation failed"),
            CallError::Signaling => String::from_str("signaling error"),
            CallError::SignalingUnsupported => String::from_str("signaling not supported by remote"),
            CallError::InvalidParams => String::from_str("invalid parameters"),
            CallError::File => String::from_str("media file error"),
            CallError::FFmpeg => String::from_str("ffmpeg error"),
            CallError::Shell => String::from_str("shell command failed"),
            CallError::MediaDevice => String::from_str("media device error"),
            CallError::RtmpStreamingUnsupported => String::from_str("RTMP streaming not supported"),
            CallError::ParseTransport => String::from_str("failed to parse transport params"),
            CallError::Connection => String::from_str("WebRTC connection failed"),
            CallError::TelegramServer => String::from_str("Telegram server error"),
            CallError::WebRtc => String::from_str("WebRTC internal error"),
            CallError::ParseSdp => String::from_str("failed to parse SDP"),
            CallError::RtcConnectionNeeded => String::from_str("RTC connection required but not established"),
            CallError::Unrecognized(c) => {
                let mut s = String::from_str("unrecognized NTgCalls error code: ");
                push_signed_decimal(&mut s, *c as i64);
                s
            },
        }
    }
}

impl From<i32> for CallError {
    fn from(code: i32) -> (r: CallError) {
        CallError::from_code(code)
    }
}

impl vstd::std_specs::convert::FromSpecImpl<i32> for CallError {
    open spec fn obeys_from_spec() -> bool {
        true
    }

    open spec fn from_spec(v: i32) -> CallError {
        CallError::spec_from_code(v)
    }
}

/// Every engine code decodes to an error that carries that same code: no
/// code is lost, and distinct codes give distinct errors.
pub proof fn error_code_roundtrip(code: i32)
    ensures
        CallError::spec_from_code(code).spec_code() == Some(code),
{
}

/// Every error with a code of its own decodes back from that code; the
/// mapped variants and the engine's codes correspond one to one.
pub proof fn error_code_decodes_back(e: CallError)
    requires
        !(e is VersionMismatch),
        e is Unrecognized ==> CallError::spec_from_code(e->Unrecognized_0) is Unrecognized,
    ensures
        e.spec_code() matches Some(c) && CallError::spec_from_code(c) == e,
{
}

/// Each engine error code decodes to the error the engine names with it,
/// and every other code is kept as unrecognized.
pub proof fn error_codes_are_the_engines(code: i32)
    ensures
        CallError::spec_from_code(NTG_ERROR_UNKNOWN) == CallError::Unknown,
        CallError::spec_from_code(NTG_ERROR_NULL_POINTER) == CallError::NullPointer,
        CallError::spec_from_code(NTG_ERROR_TOO_SMALL) == CallError::TooSmall,
        CallError::spec_from_code(NTG_ERROR_ASYNC_NOT_READY) == CallError::AsyncNotReady,
        CallError::spec_from_code(NTG_ERROR_CONNECTION_NOT_FOUND) == CallError::ConnectionNotFound,
        CallError::spec_from_code(NTG_ERROR_CRYPTO) == CallError::Crypto,
        CallError::spec_from_code(NTG_ERROR_SIGNALING) == CallError::Signaling,
        CallError::spec_from_code(NTG_ERROR_SIGNALING_UNSUPPORTED) == CallError::SignalingUnsupported,
        CallError::spec_from_code(NTG_ERROR_INVALID_PARAMS) == CallError::InvalidParams,
        CallError::spec_from_code(NTG_ERROR_FILE) == CallError::File,
        CallError::spec_from_code(NTG_ERROR_FFMPEG) == CallError::FFmpeg,
        CallError::spec_from_code(NTG_ERROR_SHELL) == CallError::Shell,
        CallError::spec_from_code(NTG_ERROR_MEDIA_DEVICE) == CallError::MediaDevice,
        CallError::spec_from_code(NTG_ERROR_RTMP_STREAMING_UNSUPPORTED) == CallError::RtmpStreamingUnsupported,
        CallError::spec_from_code(NTG_ERROR_PARSE_TRANSPORT) == CallError::ParseTransport,
        CallError::spec_from_code(NTG_ERROR_CONNECTION) == CallError::Connection,
        CallError::spec_from_code(NTG_ERROR_TELEGRAM_SERVER) == CallError::TelegramServer,
        CallError::spec_from_code(NTG_ERROR_WEBRTC) == CallError::WebRtc,
        CallError::spec_from_code(NTG_ERROR_PARSE_SDP) == CallError::ParseSdp,
        CallError::spec_from_code(NTG_ERROR_RTC_CONNECTION_NEEDED) == CallError::RtcConnectionNeeded,
        CallError::spec_from_code(code) is Unrecognized <==> !(code == NTG_ERROR_UNKNOWN || code == NTG_ERROR_NULL_POINTER || code == NTG_ERROR_TOO_SMALL || code == NTG_ERROR_ASYNC_NOT_READY || code == NTG_ERROR_CONNECTION_NOT_FOUND || code == NTG_ERROR_CRYPTO || code == NTG_ERROR_SIGNALING || code == NTG_ERROR_SIGNALING_UNSUPPORTED || code == NTG_ERROR_INVALID_PARAMS || code == NTG_ERROR_FILE || code == NTG_ERROR_FFMPEG || code == NTG_ERROR_SHELL || code == NTG_ERROR_MEDIA_DEVICE || code == NTG_ERROR_RTMP_STREAMING_UNSUPPORTED || code == NTG_ERROR_PARSE_TRANSPORT || code == NTG_ERROR_CONNECTION || code == NTG_ERROR_TELEGRAM_SERVER || code == NTG_ERROR_WEBRTC || code == NTG_ERROR_PARSE_SDP || code == NTG_ERROR_RTC_CONNECTION_NEEDED),
{
}

/// The library's own error.
#[derive(Debug, Clone)]
pub enum TgCallsError {
    /// A Telegram request failed; the text of the client's error.
    Ferogram(String),
    /// The native engine failed.
    NtgCalls(CallError),
    /// The call is not joined; join it first.
    NotJoined,
    /// A call in this chat is already joined.
    AlreadyJoined,
    /// The chat has no active group call.
    NoActiveGroupCall,
    /// Telegram's answer could not be used.
    TransportParse(String),
    /// A private call with this user is already under way.
    P2PAlreadyActive,
    /// No private call with this user is under way.
    P2PNotActive,
    /// The chat's call worker is gone.
    WorkerGone,
    /// Too many calls are active at once (the limit is carried).
    TooManyConcurrentCalls(usize),
}

impl TgCallsError {
    /// The text the error displays.
    pub open spec fn spec_message(self) -> Seq<char> {
        match self {
            TgCallsError::Ferogram(m) => "ferogram error: "@ + m@,
            TgCallsError::NtgCalls(e) => "ntgcalls error: "@ + e.spec_message(),
            TgCallsError::NotJoined => "not joined, call join() first"@,
            TgCallsError::AlreadyJoined => "already joined a call in this chat"@,
            TgCallsError::NoActiveGroupCall => "no active group call in this chat"@,
            TgCallsError::TransportParse(m) => "failed to parse Telegram transport response: "@ + m@,
            TgCallsError::P2PAlreadyActive => "P2P call already active for this user"@,
            TgCallsError::P2PNotActive => "no active P2P call for this user"@,
            TgCallsError::WorkerGone => "this chat's call worker thread is gone (panicked or already torn down)"@,
            TgCallsError::TooManyConcurrentCalls(n) => "too many concurrent calls active (limit: "@
                + decimal(n as nat) + ") - leave one before joining another"@,
        }
    }

    /// The text this error displays.
    pub fn message(&self) -> (r: String)
        ensures
            r@ == self.spec_message(),
    {
        match self {
            TgCallsError::Ferogram(m) => {
                let mut s = String::from_str("ferogram error: ");
                s.append(m.as_str());
                s
            },
            TgCallsError::NtgCalls(e) => {
                let mut s = String::from_str("ntgcalls error: ");
                let inner = e.message();
                s.append(inner.as_str());
                s
            },
            TgCallsError::NotJoined => String::from_str("not joined, call join() first"),
            TgCallsError::AlreadyJoined => String::from_str("already joined a call in this chat"),
            TgCallsError::NoActiveGroupCall => String::from_str("no active group call in this chat"),
            TgCallsError::TransportParse(m) => {
                let mut s = String::from_str("failed to parse Telegram transport response: ");
                s.append(m.as_str());
                s
            },
            TgCallsError::P2PAlreadyActive => String::from_str("P2P call already active for this user"),
            TgCallsError::P2PNotActive => String::from_str("no active P2P call for this user"),
            TgCallsError::WorkerGone => String::from_str(
                "this chat's call worker thread is gone (panicked or already torn down)",
            ),
            TgCallsError::TooManyConcurrentCalls(n) => {
                let mut s = String::from_str("too many concurrent calls active (limit: ");
                push_decimal(&mut s, *n as u64);
                s.append(") - leave one before joining another");
                s
            },
        }
    }
}

impl From<CallError> for TgCallsError {
    fn from(e: CallError) -> (r: TgCallsError) {
        TgCallsError::NtgCalls(e)
    }
}

impl vstd::std_specs::convert::FromSpecImpl<CallError> for TgCallsError {
    open spec fn obeys_from_spec() -> bool {
        true
    }

    open spec fn from_spec(v: CallError) -> TgCallsError {
        TgCallsError::NtgCalls(v)
    }
}

/// Whether an upper-cased error text names a condition worth retrying:
/// a flood wait, a timeout, Telegram's internal (-500) error, an internal
/// error, or a connection problem.
pub open spec fn names_transient_condition(upper: Seq<char>) -> bool {
    ||| has_infix(upper, "FLOOD_WAIT"@)
    ||| has_infix(upper, "TIMEOUT"@)
    ||| has_infix(upper, "-500"@)
    ||| has_infix(upper, "INTERNAL"@)
    ||| has_infix(upper, "CONNECTION"@)
}

/// Tests an upper-cased error text for the retry-worthy conditions.
pub fn has_transient_marker(upper: &str) -> (r: bool)
    ensures
        r == names_transient_condition(upper@),
{
    contains_text(upper, "FLOOD_WAIT") || contains_text(upper, "TIMEOUT") || contains_text(
        upper,
        "-500",
    ) || contains_text(upper, "INTERNAL") || contains_text(upper, "CONNECTION")
}

/// Whether a failed join looks transient and worth retrying: only errors
/// from Telegram or the engine qualify, and only when their displayed text,
/// upper-cased, names a transient condition.
pub open spec fn spec_is_transient(err: TgCallsError) -> bool {
    (err is Ferogram || err is NtgCalls) && names_transient_condition(
        upper_cased(err.spec_message()),
    )
}

pub fn is_transient(err: &TgCallsError) -> (r: bool)
    ensures
        r == spec_is_transient(*err),
{
    match err {
        TgCallsError::Ferogram(_) | TgCallsError::NtgCalls(_) => {
            let text = err.message();
            let upper = to_upper(text.as_str());
            has_transient_marker(upper.as_str())
        },
        _ => false,
    }
}

} // verus!
