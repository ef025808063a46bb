//! Time spans, playback progress, and the per-chat status snapshot kept by
//! the chat-keyed call manager.

use vstd::prelude::*;

use crate::enums::{CallType, ConnectionMode};
use crate::structures::MediaState;

verus! {

pub const NANOS_PER_SEC: u32 = 1_000_000_000;

/// A span of time: whole seconds and the nanoseconds past them.
#[derive(Debug, Clone, Copy, PartialEq, Eq, Structural)]
pub struct Span {
    secs: u64,
    nanos: u32,
}

impl View for Span {
    type V = nat;

    /// The span in nanoseconds.
    closed spec fn view(&self) -> nat {
        (self.secs * 1_000_000_000 + self.nanos) as nat
    }
}

/// The largest span a `Span` can hold, in nanoseconds.
pub open spec fn max_span_nanos() -> nat {
    (u64::MAX as nat) * 1_000_000_000 + 999_999_999
}

impl Span {
    #[verifier::type_invariant]
    closed spec fn nanos_below_one_second(self) -> bool {
        self.nanos < 1_000_000_000
    }

    pub closed spec fn spec_secs(self) -> u64 {
        self.secs
    }

    pub closed spec fn spec_nanos(self) -> u32 {
        self.nanos
    }

    /// A span is determined by its length, which splits into whole
    /// seconds and the nanoseconds past them.
    proof fn lemma_view(self)
        requires
            self.spec_nanos() < 1_000_000_000,
        ensures
            self@ == self.spec_secs() * 1_000_000_000 + self.spec_nanos(),
            self.spec_nanos() < 1_000_000_000,
            self.spec_secs() == self@ / 1_000_000_000,
            self.spec_nanos() == self@ % 1_000_000_000,
            self@ <= max_span_nanos(),
    {
    }

    /// The empty span.
    pub fn zero() -> (r: Span)
        ensures
            r@ == 0,
    {
        Span { secs: 0, nanos: 0 }
    }

    pub fn from_secs(secs: u64) -> (r: Span)
        ensures
            r@ == secs * 1_000_000_000,
    {
        Span { secs, nanos: 0 }
    }

    pub fn from_millis(millis: u64) -> (r: Span)
        ensures
            r@ == millis * 1_000_000,
    {
        Span { secs: millis / 1000, nanos: ((millis % 1000) as u32) * 1_000_000 }
    }

    /// `secs` seconds plus `nanos` nanoseconds; nanoseconds beyond a second
    /// carry into the seconds, which must not overflow.
    pub fn new(secs: u64, nanos: u32) -> (r: Span)
        requires
            secs + nanos / 1_000_000_000 <= u64::MAX,
        ensures
            r@ == secs * 1_000_000_000 + nanos,
    {
        let extra = nanos / NANOS_PER_SEC;
        Span { secs: secs + extra as u64, nanos: nanos % NANOS_PER_SEC }
    }

    pub fn as_secs(&self) -> (r: u64)
        ensures
            r == self@ / 1_000_000_000,
    {
        proof {
            use_type_invariant(&self);
            self.lemma_view();
        }
        self.secs
    }

    pub fn subsec_nanos(&self) -> (r: u32)
        ensures
            r == self@ % 1_000_000_000,
    {
        proof {
            use_type_invariant(&self);
            self.lemma_view();
        }
        self.nanos
    }

    pub fn is_zero(&self) -> (r: bool)
        ensures
            r == (self@ == 0),
    {
        proof {
            use_type_invariant(&self);
            self.lemma_view();
        }
        self.secs == 0 && self.nanos == 0
    }

    /// `self - rhs`, or the empty span when `rhs` is longer.
    pub fn saturating_sub(self, rhs: Span) -> (r: Span)
        ensures
            r@ == if self@ >= rhs@ {
                self@ - rhs@
            } else {
                0
            },
    {
        proof {
            use_type_invariant(&self);
            use_type_invariant(&rhs);
            self.lemma_view();
            rhs.lemma_view();
        }
        if self.secs < rhs.secs || (self.secs == rhs.secs && self.nanos < rhs.nanos) {
            Span::zero()
        } else if self.nanos >= rhs.nanos {
            Span { secs: self.secs - rhs.secs, nanos: self.nanos - rhs.nanos }
        } else {
            Span { secs: self.secs - rhs.secs - 1, nanos: self.nanos + NANOS_PER_SEC - rhs.nanos }
        }
    }

    /// `self + rhs`; the sum must fit.
    pub fn add(self, rhs: Span) -> (r: Span)
        requires
            self@ + rhs@ <= max_span_nanos(),
        ensures
            r@ == self@ + rhs@,
    {
        proof {
            use_type_invariant(&self);
            use_type_invariant(&rhs);
            self.lemma_view();
            rhs.lemma_view();
        }
        let n = self.nanos + rhs.nanos;
        if n >= NANOS_PER_SEC {
            Span { secs: self.secs + rhs.secs + 1, nanos: n - NANOS_PER_SEC }
        } else {
            Span { secs: self.secs + rhs.secs, nanos: n }
        }
    }
}

/// How far into the current stream a call is. `total` and `remaining` are
/// `None` for sources with no fixed length (a live stream, a device, a
/// recording target).
#[derive(Debug, Clone, Copy)]
pub struct Progress {
    pub elapsed: Span,
    pub total: Option<Span>,
}

impl Progress {
    /// What is left of the stream: its length minus what has played, never
    /// below zero; `None` when the length is unknown.
    pub fn remaining(&self) -> (r: Option<Span>)
        ensures
            match self.total {
                None => r is None,
                Some(t) => r matches Some(rest) && rest@ == if t@ >= self.elapsed@ {
                    t@ - self.elapsed@
                } else {
                    0
                },
            },
    {
        match self.total {
            Some(t) => Some(t.saturating_sub(self.elapsed)),
            None => None,
        }
    }
}

/// What remains never exceeds the stream's length.
pub proof fn remaining_within_total(p: Progress, t: Span, rest: Span)
    requires
        p.total == Some(t),
        rest@ == if t@ >= p.elapsed@ {
            t@ - p.elapsed@
        } else {
            0
        },
    ensures
        rest@ <= t@,
        t@ >= p.elapsed@ ==> rest@ + p.elapsed@ == t@,
{
}

/// A one-call snapshot of everything about a chat's call worth checking at
/// once.
#[derive(Debug, Clone, Copy)]
pub struct CallStatus {
    pub joined: bool,
    pub call_type: Option<CallType>,
    pub connection_mode: Option<ConnectionMode>,
    pub muted: bool,
    pub video_paused: bool,
    pub progress: Progress,
}

impl CallStatus {
    /// Gathers the pieces that could be read; a missing media state counts
    /// as neither muted nor video-paused.
    pub fn assemble(
        joined: bool,
        call_type: Option<CallType>,
        connection_mode: Option<ConnectionMode>,
        media_state: Option<MediaState>,
        progress: Progress,
    ) -> (r: CallStatus)
        ensures
            r.joined == joined,
            r.call_type == call_type,
            r.connection_mode == connection_mode,
            r.muted == (media_state matches Some(m) && m.muted),
            r.video_paused == (media_state matches Some(m) && m.video_paused),
            r.progress == progress,
    {
        let (muted, video_paused) = match media_state {
            Some(m) => (m.muted, m.video_paused),
            None => (false, false),
        };
        CallStatus { joined, call_type, connection_mode, muted, video_paused, progress }
    }
}

/// Tracks where the current track is. The engine's played-time counter runs
/// for the whole session, so the clock keeps the counter's value from when
/// the track started (`baseline_secs`), and the offset it started at.
#[derive(Debug, Clone, Copy)]
pub struct TrackClock {
    pub track_duration: Option<Span>,
    pub seek_offset: Span,
    pub baseline_secs: u64,
}

/// The elapsed time of a track: its start offset plus the counter's
/// progress since the track started (none if the counter went back).
pub open spec fn spec_elapsed(clock: TrackClock, raw_secs: u64) -> nat {
    clock.seek_offset@ + (if raw_secs >= clock.baseline_secs {
        (raw_secs - clock.baseline_secs) as nat
    } else {
        0
    }) * 1_000_000_000
}

impl TrackClock {
    /// No track yet.
    pub fn new() -> (r: TrackClock)
        ensures
            r.track_duration is None,
            r.seek_offset@ == 0,
            r.baseline_secs == 0,
    {
        TrackClock { track_duration: None, seek_offset: Span::zero(), baseline_secs: 0 }
    }

    /// A track of length `duration` started at `offset` while the engine's
    /// counter read `baseline_secs`.
    pub fn track_started(&mut self, duration: Option<Span>, offset: Span, baseline_secs: u64)
        ensures
            final(self).track_duration == duration,
            final(self).seek_offset == offset,
            final(self).baseline_secs == baseline_secs,
    {
        self.track_duration = duration;
        self.seek_offset = offset;
        self.baseline_secs = baseline_secs;
    }

    /// Progress when the engine's counter reads `raw_secs`.
    pub fn progress(&self, raw_secs: u64) -> (r: Progress)
        requires
            spec_elapsed(*self, raw_secs) <= max_span_nanos(),
        ensures
            r.elapsed@ == spec_elapsed(*self, raw_secs),
            r.total == self.track_duration,
    {
        let delta = if raw_secs >= self.baseline_secs {
            raw_secs - self.baseline_secs
        } else {
            0
        };
        let d = Span::from_secs(delta);
        Progress { elapsed: self.seek_offset.add(d), total: self.track_duration }
    }
}

/// Right after a track starts, its progress is exactly its start offset.
pub proof fn progress_starts_at_offset(clock: TrackClock)
    ensures
        spec_elapsed(clock, clock.baseline_secs) == clock.seek_offset@,
{
}

} // verus!
