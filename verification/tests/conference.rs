use tgcalls::call::{GroupCallRef, Participant};
use tgcalls::e2e::{
    incoming_conference_call, is_migration, last_block, last_chain_block, named_call,
    public_key_array, ssrc_mappings, ChatMessage, ConferenceInvite, ConferenceSession,
    ConferenceState, ConferenceTarget, IncomingUpdate, MessageAction,
};
use tgcalls::errors::TgCallsError;
use tgcalls::media::Media;
use tgcalls::p2p::DiscardReason;
use tgcalls::structures::SsrcMapping;

fn invite(active: bool, missed: bool) -> ConferenceInvite {
    ConferenceInvite { chat_id: 1, call_id: 2, msg_id: 3, video: false, missed, active }
}

#[test]
fn invites_worth_joining() {
    assert!(invite(true, false).should_join());
    assert!(!invite(true, true).should_join());
    assert!(!invite(false, false).should_join());
    match invite(true, false).target(Some(vec![1])) {
        ConferenceTarget::JoinByInviteMessage { msg_id, last_block } => {
            assert_eq!(msg_id, 3);
            assert_eq!(last_block, Some(vec![1]));
        }
        _ => panic!("expected a join by invite message"),
    }
}

#[test]
fn public_keys_are_32_bytes() {
    let key = public_key_array(&[7u8; 32]).unwrap();
    assert_eq!(key, [7u8; 32]);
    match public_key_array(&[1, 2, 3]) {
        Err(TgCallsError::TransportParse(m)) => assert_eq!(m, "conference public key was 3 bytes, expected 32"),
        _ => panic!("expected an error"),
    }
}

#[test]
fn targets_name_their_conference() {
    assert!(named_call(&ConferenceTarget::Create { invite: vec![1] }).is_none());
    assert!(named_call(&ConferenceTarget::Join { last_block: None }).is_none());
    assert!(matches!(
        named_call(&ConferenceTarget::JoinBySlug { slug: "abc".to_string(), last_block: None }),
        Some(GroupCallRef::Slug(s)) if s == "abc"
    ));
    assert!(matches!(
        named_call(&ConferenceTarget::JoinByInviteMessage { msg_id: 9, last_block: None }),
        Some(GroupCallRef::InviteMessage(9))
    ));
    assert_eq!(last_block(&ConferenceTarget::Create { invite: vec![] }), None);
    assert_eq!(last_block(&ConferenceTarget::Join { last_block: Some(vec![5]) }), Some(vec![5]));
}

#[test]
fn session_lifecycle() {
    let mut s = ConferenceSession::new();
    assert!(!s.is_joined());
    let plan = s.begin_start(&ConferenceTarget::Create { invite: vec![] }, &Some(Media::audio("a", true)));
    assert!(plan.video_stopped);
    assert!(matches!(s.invite_plan(None), Err(TgCallsError::NotJoined)));
    assert!(s.start_finished(Ok((GroupCallRef::Id { id: 4, access_hash: 5 }, Some("t.me/call/x".to_string())))).is_ok());
    assert!(s.is_joined());
    assert_eq!(s.invite_link().as_deref(), Some("t.me/call/x"));
    assert!(matches!(s.invite_plan(None), Ok((GroupCallRef::Id { id: 4, .. }, false))));
    assert!(matches!(s.invite_plan(Some(true)), Ok((_, true))));
    s.playing(&Media::video("v", true, 2, 2, 1));
    assert!(matches!(s.invite_plan(None), Ok((_, true))));
    assert!(s.owns(&GroupCallRef::Id { id: 4, access_hash: 0 }));
    assert!(!s.owns(&GroupCallRef::Id { id: 5, access_hash: 0 }));
    assert!(!s.owns(&GroupCallRef::Slug("x".to_string())));
    s.left();
    assert!(!s.is_joined());
    assert!(s.invite_link().is_none() && s.active_call().is_none());
    let r = s.start_finished(Err(TgCallsError::WorkerGone));
    assert!(matches!(r, Err(TgCallsError::WorkerGone)));
    assert!(!s.is_joined());
    let _ = ConferenceState::Joining;
}

#[test]
fn no_invite_without_a_successful_start() {
    let mut s = ConferenceSession::new();
    assert!(matches!(s.invite_plan(Some(true)), Err(TgCallsError::NotJoined)));
    s.begin_start(&ConferenceTarget::Join { last_block: None }, &None);
    let _ = s.start_finished(Err(TgCallsError::NoActiveGroupCall));
    s.playing(&Media::audio("a", true));
    assert!(matches!(s.invite_plan(None), Err(TgCallsError::NotJoined)));
    assert!(s.start_finished(Ok((GroupCallRef::Id { id: 9, access_hash: 1 }, None))).is_ok());
    assert!(s.invite_plan(None).is_ok());
    s.left();
    let _ = s.start_finished(Err(TgCallsError::WorkerGone));
    assert!(matches!(s.invite_plan(None), Err(TgCallsError::NotJoined)));
}

#[test]
fn migration_and_chain_resume() {
    assert!(is_migration(&Some(DiscardReason::MigrateConferenceCall { slug: "s".to_string() })));
    assert!(!is_migration(&Some(DiscardReason::Hangup)));
    assert!(!is_migration(&None));
    assert_eq!(last_chain_block(&vec![vec![1], vec![2, 3]]), Some(vec![2, 3]));
    assert_eq!(last_chain_block(&vec![]), None);
}

#[test]
fn ssrc_mapping_of_users() {
    let p = |user_id: Option<i64>, source: i32| Participant {
        user_id,
        just_joined: false,
        left: false,
        is_self: false,
        source,
        video: None,
        presentation: None,
    };
    let m = ssrc_mappings(&vec![p(Some(1), 10), p(None, 11), p(Some(2), 12)]);
    assert_eq!(m, vec![SsrcMapping { user_id: 1, ssrc: 10 }, SsrcMapping { user_id: 2, ssrc: 12 }]);
}

#[test]
fn conference_announcements() {
    let u = IncomingUpdate::NewMessage {
        chat_id: -100,
        message: ChatMessage::Service {
            id: 55,
            action: MessageAction::ConferenceCall { call_id: 9, video: true, missed: false, active: true },
        },
    };
    let inv = incoming_conference_call(&u).unwrap();
    assert_eq!((inv.chat_id, inv.call_id, inv.msg_id, inv.video), (-100, 9, 55, true));
    assert!(inv.should_join());
    let plain = IncomingUpdate::NewMessage { chat_id: 1, message: ChatMessage::Regular };
    assert!(incoming_conference_call(&plain).is_none());
    let other = IncomingUpdate::NewMessage {
        chat_id: 1,
        message: ChatMessage::Service { id: 1, action: MessageAction::Other },
    };
    assert!(incoming_conference_call(&other).is_none());
    assert!(incoming_conference_call(&IncomingUpdate::Other).is_none());
}

#[test]
fn only_creating_hands_back_a_link() {
    let mut s = ConferenceSession::new();
    s.begin_start(&ConferenceTarget::Join { last_block: None }, &None);
    assert!(s.start_finished(Ok((GroupCallRef::Id { id: 1, access_hash: 2 }, Some("l".to_string())))).is_ok());
    assert!(s.invite_link().is_none());
    s.left();
    s.begin_start(&ConferenceTarget::Create { invite: vec![] }, &None);
    assert!(s.start_finished(Ok((GroupCallRef::Id { id: 3, access_hash: 4 }, Some("l".to_string())))).is_ok());
    assert_eq!(s.invite_link().as_deref(), Some("l"));
    s.begin_start(&ConferenceTarget::JoinBySlug { slug: "s".to_string(), last_block: None }, &None);
    let _ = s.start_finished(Err(TgCallsError::WorkerGone));
    assert_eq!(s.invite_link().as_deref(), Some("l"));
    s.left();
    assert!(s.invite_link().is_none());
}
