use tgcalls::calls::{CallStatus, Progress, Span, TrackClock};
use tgcalls::enums::{CallType, ConnectionMode};
use tgcalls::structures::MediaState;

#[test]
fn spans() {
    let a = Span::new(5, 1_500_000_000);
    assert_eq!((a.as_secs(), a.subsec_nanos()), (6, 500_000_000));
    let b = Span::from_millis(2_250);
    assert_eq!((b.as_secs(), b.subsec_nanos()), (2, 250_000_000));
    let d = a.saturating_sub(b);
    assert_eq!((d.as_secs(), d.subsec_nanos()), (4, 250_000_000));
    assert!(b.saturating_sub(a).is_zero());
    let s = a.add(b);
    assert_eq!((s.as_secs(), s.subsec_nanos()), (8, 750_000_000));
    let t = Span::new(0, 900_000_000).add(Span::new(0, 200_000_000));
    assert_eq!((t.as_secs(), t.subsec_nanos()), (1, 100_000_000));
    assert!(Span::zero().is_zero());
    assert_eq!(Span::from_secs(3).as_secs(), 3);
}

#[test]
fn remaining_time() {
    let p = Progress { elapsed: Span::from_secs(30), total: Some(Span::from_secs(200)) };
    assert_eq!(p.remaining().unwrap().as_secs(), 170);
    let over = Progress { elapsed: Span::from_secs(300), total: Some(Span::from_secs(200)) };
    assert!(over.remaining().unwrap().is_zero());
    let live = Progress { elapsed: Span::from_secs(3), total: None };
    assert!(live.remaining().is_none());
}

#[test]
fn track_clock_measures_the_current_track() {
    let mut clock = TrackClock::new();
    assert!(clock.progress(10).total.is_none());
    assert_eq!(clock.progress(10).elapsed.as_secs(), 10);
    clock.track_started(Some(Span::from_secs(180)), Span::zero(), 100);
    assert_eq!(clock.progress(100).elapsed.as_secs(), 0);
    assert_eq!(clock.progress(145).elapsed.as_secs(), 45);
    assert_eq!(clock.progress(90).elapsed.as_secs(), 0);
    clock.track_started(Some(Span::from_secs(180)), Span::from_millis(60_500), 145);
    let p = clock.progress(150);
    assert_eq!((p.elapsed.as_secs(), p.elapsed.subsec_nanos()), (65, 500_000_000));
    assert_eq!(p.total.unwrap().as_secs(), 180);
}

#[test]
fn status_snapshot() {
    let progress = Progress { elapsed: Span::from_secs(1), total: None };
    let state = MediaState { muted: true, video_paused: false, video_stopped: true, presentation_paused: false };
    let s = CallStatus::assemble(true, Some(CallType::Group), Some(ConnectionMode::Rtc), Some(state), progress);
    assert!(s.joined && s.muted && !s.video_paused);
    assert_eq!(s.call_type, Some(CallType::Group));
    let s = CallStatus::assemble(false, None, None, None, progress);
    assert!(!s.muted && !s.video_paused && s.call_type.is_none());
}
