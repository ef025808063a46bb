use tgcalls::call::GroupCallRef;
use tgcalls::errors::TgCallsError;
use tgcalls::signaling::{
    active_group_call, channel_id, extract_access_hash, extract_transport_json, find_self_user_id,
    find_user_access_hash, transport_or_error, ChatEntry, FullChat, JoinAnswer, JoinUpdate, UserEntry,
};
use tgcalls::structures::Protocol;

#[test]
fn channel_ids() {
    assert_eq!(channel_id(-1001234567890), 1234567890);
    assert_eq!(channel_id(-555), 555);
    assert_eq!(channel_id(-1000000000000), 1000000000000);
}

#[test]
fn channel_access_hash() {
    let chats = vec![ChatEntry::Other, ChatEntry::Channel { access_hash: Some(77) }, ChatEntry::Channel { access_hash: Some(1) }];
    assert_eq!(extract_access_hash(&chats).unwrap(), 77);
    assert_eq!(extract_access_hash(&vec![ChatEntry::Channel { access_hash: None }]).unwrap(), 0);
    assert!(matches!(extract_access_hash(&vec![ChatEntry::Other]), Err(TgCallsError::NoActiveGroupCall)));
}

#[test]
fn active_call_of_a_chat() {
    let c = active_group_call(FullChat::Channel { call: Some(GroupCallRef::Id { id: 1, access_hash: 2 }) });
    assert!(matches!(c, Ok(GroupCallRef::Id { id: 1, access_hash: 2 })));
    assert!(matches!(active_group_call(FullChat::Channel { call: None }), Err(TgCallsError::NoActiveGroupCall)));
    assert!(matches!(active_group_call(FullChat::Other), Err(TgCallsError::NoActiveGroupCall)));
}

#[test]
fn transport_parameters() {
    let answer = JoinAnswer::Updates(vec![
        JoinUpdate::Other,
        JoinUpdate::GroupCallConnection { presentation: true, params: "{\"p\":1}".to_string() },
        JoinUpdate::GroupCallConnection { presentation: false, params: "{\"n\":1}".to_string() },
    ]);
    assert_eq!(extract_transport_json(&answer, false).as_deref(), Some("{\"n\":1}"));
    assert_eq!(extract_transport_json(&answer, true).as_deref(), Some("{\"p\":1}"));
    assert!(extract_transport_json(&JoinAnswer::Other, false).is_none());
    match transport_or_error(&JoinAnswer::Updates(vec![]), true) {
        Err(TgCallsError::TransportParse(m)) => assert_eq!(m, "no GroupCallConnection(presentation) in response"),
        _ => panic!("expected an error"),
    }
    match transport_or_error(&JoinAnswer::Other, false) {
        Err(TgCallsError::TransportParse(m)) => assert_eq!(m, "no GroupCallConnection in response"),
        _ => panic!("expected an error"),
    }
}

#[test]
fn user_lookups() {
    let users = vec![
        UserEntry::Empty,
        UserEntry::User { id: 5, access_hash: Some(50) },
        UserEntry::User { id: 6, access_hash: None },
    ];
    assert_eq!(find_user_access_hash(&users, 5).unwrap(), 50);
    assert_eq!(find_user_access_hash(&users, 6).unwrap(), 0);
    match find_user_access_hash(&users, -9) {
        Err(TgCallsError::TransportParse(m)) => assert_eq!(m, "user -9 not found"),
        _ => panic!("expected an error"),
    }
    assert_eq!(find_self_user_id(&users).unwrap(), 5);
    match find_self_user_id(&vec![UserEntry::Empty]) {
        Err(TgCallsError::TransportParse(m)) => assert_eq!(m, "could not resolve self user id"),
        _ => panic!("expected an error"),
    }
}

#[test]
fn protocol_fallback() {
    let p = Protocol::or_fallback(None);
    assert_eq!((p.min_layer, p.max_layer, p.udp_p2p, p.udp_reflector), (92, 92, true, true));
    assert_eq!(p.library_versions, vec!["8.0.0".to_string(), "9.0.0".to_string()]);
    let own = Protocol { min_layer: 65, max_layer: 92, udp_p2p: false, udp_reflector: true, library_versions: vec![] };
    assert_eq!(Protocol::or_fallback(Some(own)).min_layer, 65);
}
