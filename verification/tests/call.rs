use tgcalls::call::{
    connect_outcome, extract_video, join_retry_delay_ms, ntg_chat_id, participant_action,
    to_ssrc_groups, Call, CallEvent, CallState, GroupCallRef, Participant, ParticipantAction,
    ParticipantStep, ParticipantVideo, TrackStart, VideoKind, VideoSourceGroup, VideoSyncPlan, VideoWant,
};
use tgcalls::enums::ConnectionState;
use tgcalls::errors::{CallError, TgCallsError};

fn group(id: i64) -> GroupCallRef {
    GroupCallRef::Id { id, access_hash: 99 }
}

fn joined_call(chat_id: i64, id: i64) -> Call {
    let mut c = Call::new(chat_id);
    c.begin_join().unwrap();
    c.begin_attempt();
    c.attempt_succeeded(group(id));
    c
}

fn video(endpoint: &str, paused: bool) -> ParticipantVideo {
    ParticipantVideo {
        endpoint: endpoint.to_string(),
        source_groups: vec![VideoSourceGroup { semantics: "SIM".to_string(), sources: vec![1, -1] }],
        paused,
    }
}

fn participant(user_id: Option<i64>, is_self: bool, left: bool, cam: Option<ParticipantVideo>) -> Participant {
    Participant {
        user_id,
        just_joined: false,
        left,
        is_self,
        source: 1234,
        video: cam,
        presentation: None,
    }
}

#[test]
fn supergroup_ids_lose_their_prefix() {
    assert_eq!(ntg_chat_id(-1001234567890), 1234567890);
    assert_eq!(ntg_chat_id(-1000000000000), 1000000000000);
    assert_eq!(ntg_chat_id(-12345), 12345);
    assert_eq!(ntg_chat_id(777), 777);
    assert_eq!(ntg_chat_id(0), 0);
}

#[test]
fn join_retries_back_off() {
    let flood = TgCallsError::Ferogram("FLOOD_WAIT_3".to_string());
    assert_eq!(join_retry_delay_ms(&flood, 0), Some(500));
    assert_eq!(join_retry_delay_ms(&flood, 1), Some(1000));
    assert_eq!(join_retry_delay_ms(&flood, 2), Some(2000));
    assert_eq!(join_retry_delay_ms(&flood, 3), None);
    assert_eq!(join_retry_delay_ms(&TgCallsError::NoActiveGroupCall, 0), None);
}

#[test]
fn connection_changes_settle_joins() {
    assert!(matches!(connect_outcome(ConnectionState::Connected), Some(Ok(()))));
    assert!(matches!(connect_outcome(ConnectionState::Timeout), Some(Err(CallError::Connection))));
    assert!(matches!(connect_outcome(ConnectionState::Closed), Some(Err(CallError::Connection))));
    assert!(connect_outcome(ConnectionState::Connecting).is_none());
}

#[test]
fn join_only_from_idle() {
    let mut c = Call::new(-1001);
    assert_eq!(c.state(), CallState::Idle);
    assert!(c.begin_join().is_ok());
    c.begin_attempt();
    assert_eq!(c.state(), CallState::Joining);
    assert!(matches!(c.begin_join(), Err(TgCallsError::AlreadyJoined)));
    c.attempt_succeeded(group(5));
    assert!(c.is_joined());
    assert_eq!(c.group_call_id(), Some(5));
    assert!(matches!(c.begin_join(), Err(TgCallsError::AlreadyJoined)));
}

#[test]
fn failed_attempts_return_to_idle() {
    let mut c = Call::new(-1001);
    c.begin_attempt();
    let delay = c.attempt_failed(&TgCallsError::Ferogram("TIMEOUT".to_string()), 0);
    assert_eq!(delay, Some(500));
    assert_eq!(c.state(), CallState::Idle);
    c.begin_attempt();
    let delay = c.attempt_failed(&TgCallsError::NoActiveGroupCall, 1);
    assert_eq!(delay, None);
    assert_eq!(c.state(), CallState::Idle);
}

#[test]
fn operations_need_a_joined_call() {
    let c = Call::new(-1001);
    assert!(matches!(c.require_joined(), Err(TgCallsError::NotJoined)));
    assert!(matches!(c.joined_call(), Err(TgCallsError::NotJoined)));
    assert!(matches!(c.begin_presentation(), Err(TgCallsError::NotJoined)));
    assert!(matches!(c.begin_stop_presentation(), Err(TgCallsError::NotJoined)));
    let j = joined_call(-1001, 9);
    assert!(j.require_joined().is_ok());
    assert!(matches!(j.joined_call(), Ok(GroupCallRef::Id { id: 9, .. })));
}

#[test]
fn leave_resets_whatever_happens() {
    let mut c = joined_call(-1001, 9);
    c.video_added(5, VideoKind::Camera, "cam5".to_string());
    let plan = c.begin_leave().unwrap();
    assert!(!plan.stop_presentation);
    assert!(matches!(plan.call, Some(GroupCallRef::Id { id: 9, .. })));
    assert_eq!(c.state(), CallState::Leaving);
    assert!(matches!(c.begin_leave(), Err(TgCallsError::NotJoined)));
    c.finish_leave();
    assert_eq!(c.state(), CallState::Idle);
    assert!(matches!(c.plan_video_sync(5, VideoKind::Camera, &None), VideoSyncPlan::Unchanged));
    assert!(c.begin_join().is_ok());
}

#[test]
fn presentation_lifecycle() {
    let mut c = joined_call(-1001, 9);
    assert!(matches!(c.begin_stop_presentation(), Ok(None)));
    assert!(matches!(c.begin_presentation(), Ok(GroupCallRef::Id { id: 9, .. })));
    c.presentation_started();
    assert!(c.is_presentation_active());
    assert!(matches!(c.begin_presentation(), Err(TgCallsError::AlreadyJoined)));
    assert!(matches!(c.begin_stop_presentation(), Ok(Some(GroupCallRef::Id { id: 9, .. }))));
    c.presentation_stopped();
    assert!(!c.is_presentation_active());
}

#[test]
fn call_ended_only_for_this_call() {
    let mut c = joined_call(-1001, 9);
    assert_eq!(c.handle_call_ended(8), None);
    assert!(c.is_joined());
    assert_eq!(c.handle_call_ended(9), Some(CallEvent::Ended));
    assert_eq!(c.state(), CallState::Idle);
    assert_eq!(c.group_call_id(), None);
}

#[test]
fn updates_are_routed_by_group_call_id() {
    let c = joined_call(-1001, 9);
    assert!(c.is_update_for(&group(9)));
    assert!(!c.is_update_for(&group(10)));
    assert!(!c.is_update_for(&GroupCallRef::InviteMessage(9)));
    assert!(!Call::new(-1).is_update_for(&group(9)));
}

#[test]
fn participant_actions() {
    let mut p = participant(Some(1), false, false, None);
    assert_eq!(participant_action(&p), ParticipantAction::Updated);
    p.left = true;
    assert_eq!(participant_action(&p), ParticipantAction::Left);
    p.just_joined = true;
    assert_eq!(participant_action(&p), ParticipantAction::Joined);
}

#[test]
fn video_extraction_skips_paused_sources() {
    assert!(extract_video(&None).is_none());
    assert!(extract_video(&Some(video("e", true))).is_none());
    let w = extract_video(&Some(video("e1", false))).unwrap();
    assert_eq!(w.endpoint, "e1");
    assert_eq!(w.groups.len(), 1);
    assert_eq!(w.groups[0].semantics, "SIM");
    assert_eq!(w.groups[0].ssrcs, vec![1u32, u32::MAX]);
    let groups = to_ssrc_groups(&vec![]);
    assert!(groups.is_empty());
}

#[test]
fn participant_steps() {
    let mut c = joined_call(-1001, 9);
    assert!(matches!(c.on_participant(&participant(None, false, false, None)), ParticipantStep::Skip));
    match c.on_participant(&participant(Some(7), false, false, Some(video("cam7", false)))) {
        ParticipantStep::Sync { event, user_id, camera, presentation } => {
            assert_eq!(
                event,
                CallEvent::ParticipantUpdate { user_id: 7, action: ParticipantAction::Updated, is_self: false }
            );
            assert_eq!(user_id, 7);
            assert_eq!(camera.unwrap().endpoint, "cam7");
            assert!(presentation.is_none());
        }
        _ => panic!("expected a sync step"),
    }
    match c.on_participant(&participant(Some(7), false, true, Some(video("cam7", false)))) {
        ParticipantStep::Sync { camera, .. } => assert!(camera.is_none()),
        _ => panic!("expected a sync step"),
    }
    assert!(matches!(c.on_participant(&participant(Some(1), true, false, None)), ParticipantStep::Report(_)));
    assert!(c.is_joined());
    assert!(matches!(c.on_participant(&participant(Some(1), true, true, None)), ParticipantStep::SelfLeft(_)));
    assert_eq!(c.state(), CallState::Idle);
}

#[test]
fn video_subscriptions_follow_participants() {
    let mut c = joined_call(-1001, 9);
    let want = Some(VideoWant { endpoint: "cam7".to_string(), groups: vec![] });
    match c.plan_video_sync(7, VideoKind::Camera, &want) {
        VideoSyncPlan::Replace { remove } => assert!(remove.is_none()),
        _ => panic!("expected a change"),
    }
    c.video_added(7, VideoKind::Camera, "cam7".to_string());
    assert!(matches!(c.plan_video_sync(7, VideoKind::Camera, &want), VideoSyncPlan::Unchanged));
    assert!(matches!(c.plan_video_sync(7, VideoKind::Presentation, &None), VideoSyncPlan::Unchanged));
    let other = Some(VideoWant { endpoint: "cam7b".to_string(), groups: vec![] });
    match c.plan_video_sync(7, VideoKind::Camera, &other) {
        VideoSyncPlan::Replace { remove } => assert_eq!(remove.as_deref(), Some("cam7")),
        _ => panic!("expected a change"),
    }
    match c.plan_video_sync(7, VideoKind::Camera, &None) {
        VideoSyncPlan::Replace { remove } => assert_eq!(remove.as_deref(), Some("cam7")),
        _ => panic!("expected a change"),
    }
    c.video_cleared(7, VideoKind::Camera);
    assert!(matches!(c.plan_video_sync(7, VideoKind::Camera, &None), VideoSyncPlan::Unchanged));
    c.video_cleared(8, VideoKind::Presentation);
}

#[test]
fn tracks_switch_a_joined_call_and_join_otherwise() {
    let idle = Call::new(-1001234567890);
    assert_eq!(idle.track_start(), TrackStart::JoinWith);
    assert!(idle.record_needs_silent_join());
    let joined = joined_call(-1001234567890, 5);
    assert_eq!(joined.track_start(), TrackStart::SwitchSources);
    assert!(!joined.record_needs_silent_join());
}

#[test]
fn updates_stop_at_our_departure() {
    let update = vec![
        participant(Some(7), false, false, Some(video("cam7", false))),
        participant(None, false, false, None),
        participant(Some(1), true, true, None),
        participant(Some(8), false, false, Some(video("cam8", false))),
    ];
    let mut idle = Call::new(-1001234567890);
    assert!(idle.participants_update(&update).is_empty());
    assert_eq!(idle.state(), CallState::Idle);

    let mut c = joined_call(-1001234567890, 5);
    let steps = c.participants_update(&update);
    assert_eq!(steps.len(), 3);
    assert!(matches!(steps[0], ParticipantStep::Sync { user_id: 7, .. }));
    assert!(matches!(steps[1], ParticipantStep::Skip));
    assert!(matches!(steps[2], ParticipantStep::SelfLeft(CallEvent::ParticipantUpdate { user_id: 1, is_self: true, .. })));
    assert_eq!(c.state(), CallState::Idle);
    assert_eq!(c.group_call_id(), None);

    let mut d = joined_call(-1001234567890, 5);
    let steps = d.participants_update(&vec![participant(Some(9), true, false, None)]);
    assert_eq!(steps.len(), 1);
    assert!(matches!(steps[0], ParticipantStep::Report(_)));
    assert!(d.is_joined());
}
