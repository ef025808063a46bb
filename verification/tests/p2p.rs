use tgcalls::enums::ConnectionState;
use tgcalls::errors::TgCallsError;
use tgcalls::p2p::{
    connection_signal, connections_to_rtc, ConfirmStep, DiscardReason, P2PCall, P2PCallState,
    P2PEvent, PhoneCallUpdate, PhoneConnection, SignalingStep, SignalingUpdate, WaitStep,
};

fn webrtc(ipv6: &str) -> PhoneConnection {
    PhoneConnection::Webrtc {
        id: 11,
        ip: "1.2.3.4".to_string(),
        ipv6: ipv6.to_string(),
        port: 3478,
        username: "u".to_string(),
        password: "p".to_string(),
        turn: true,
        stun: false,
    }
}

fn established(id: i64) -> PhoneCallUpdate {
    PhoneCallUpdate::Established {
        id,
        g_a_or_b: vec![1, 2, 3],
        key_fingerprint: -5,
        connections: vec![webrtc("")],
        library_versions: vec!["9.0.0".to_string()],
    }
}

fn parse_error(e: TgCallsError) -> String {
    match e {
        TgCallsError::TransportParse(m) => m,
        other => panic!("unexpected error {other:?}"),
    }
}

#[test]
fn servers_from_connections() {
    let classic = PhoneConnection::Classic {
        id: -1,
        ip: "5.6.7.8".to_string(),
        ipv6: "::1".to_string(),
        port: 70000,
        peer_tag: vec![9, 9],
        tcp: true,
    };
    let servers = connections_to_rtc(&vec![webrtc(""), classic]);
    assert_eq!(servers.len(), 2);
    assert_eq!(servers[0].ipv6, "1.2.3.4");
    assert_eq!((servers[0].username.as_str(), servers[0].turn, servers[0].tcp), ("u", true, false));
    assert_eq!(servers[1].ipv6, "::1");
    assert_eq!(servers[1].id, u64::MAX);
    assert_eq!(servers[1].port, (70000u32 % 65536) as u16);
    assert_eq!(servers[1].peer_tag, vec![9, 9]);
    assert!(servers[1].tcp && servers[1].username.is_empty());
}

#[test]
fn outgoing_call_flow() {
    let mut c = P2PCall::new(42);
    assert_eq!(c.state(), P2PCallState::Idle);
    c.begin_request().unwrap();
    assert_eq!(c.state(), P2PCallState::Requesting);
    assert!(matches!(c.begin_request(), Err(TgCallsError::P2PAlreadyActive)));
    assert!(matches!(c.signaling_peer(), Err(TgCallsError::P2PNotActive)));
    assert_eq!(c.request_answered(&PhoneCallUpdate::Waiting { id: 7, access_hash: 8 }, "").unwrap(), 7);
    assert_eq!(c.signaling_peer().unwrap(), (7, 8));
    let accepted = PhoneCallUpdate::Accepted { id: 7, g_b: vec![4], library_versions: vec!["8.0.0".to_string()] };
    match P2PCall::accept_wait_step(7, &accepted) {
        WaitStep::Done((g_b, versions)) => {
            assert_eq!(g_b, vec![4]);
            assert_eq!(versions, vec!["8.0.0".to_string()]);
        }
        _ => panic!("expected acceptance"),
    }
    assert!(matches!(P2PCall::accept_wait_step(6, &accepted), WaitStep::Continue));
    match P2PCall::confirm_answered(&established(7)) {
        ConfirmStep::Servers(s) => assert_eq!(s.len(), 1),
        _ => panic!("expected servers"),
    }
    assert!(matches!(P2PCall::confirm_answered(&PhoneCallUpdate::Empty { id: 7 }), ConfirmStep::WaitForCall));
    c.exchange_done();
    assert_eq!(c.state(), P2PCallState::Exchanging);
    c.connect_started();
    assert_eq!(c.state(), P2PCallState::Connecting);
    assert!(!c.connection_settled(false));
    assert_eq!(c.state(), P2PCallState::Connecting);
    assert!(c.connection_settled(true));
    assert_eq!(c.state(), P2PCallState::Connected);
}

#[test]
fn unexpected_answers_are_errors() {
    let mut c = P2PCall::new(42);
    c.begin_request().unwrap();
    let shown = "Empty(PhoneCallEmpty { id: 1 })";
    let e = c.request_answered(&PhoneCallUpdate::Empty { id: 1 }, shown).unwrap_err();
    assert_eq!(
        parse_error(e),
        "unexpected PhoneCall state after requestCall: Empty(PhoneCallEmpty { id: 1 })"
    );
    let e = c.accept_answered(1, 2, &PhoneCallUpdate::Empty { id: 1 }, shown).unwrap_err();
    assert_eq!(
        parse_error(e),
        "unexpected PhoneCall state after acceptCall: Empty(PhoneCallEmpty { id: 1 })"
    );
}

#[test]
fn discards_while_waiting() {
    let d = PhoneCallUpdate::Discarded { id: 7, reason: Some(DiscardReason::Busy), reason_shown: "Some(Busy)".to_string() };
    match P2PCall::accept_wait_step(7, &d) {
        WaitStep::Fail(e) => assert_eq!(parse_error(e), "call discarded: Some(Busy)"),
        _ => panic!("expected failure"),
    }
    match P2PCall::confirm_wait_step(7, &PhoneCallUpdate::Discarded { id: 7, reason: None, reason_shown: "None".to_string() }) {
        WaitStep::Fail(e) => assert_eq!(parse_error(e), "call discarded: None"),
        _ => panic!("expected failure"),
    }
    assert!(matches!(P2PCall::confirm_wait_step(7, &d.clone()), WaitStep::Fail(_)));
    assert!(matches!(P2PCall::confirm_wait_step(8, &d), WaitStep::Continue));
    assert!(matches!(P2PCall::confirm_wait_step(7, &established(7)), WaitStep::Done(_)));
}

#[test]
fn incoming_call_flow() {
    let mut c = P2PCall::new(42);
    assert!(c.begin_accept().is_ok());
    let plan = c
        .accept_answered(3, 4, &PhoneCallUpdate::Accepted { id: 3, g_b: vec![], library_versions: vec!["9.0.0".to_string()] }, "")
        .unwrap();
    assert!(plan.exchange.is_none() && plan.servers.is_empty());
    assert_eq!(plan.versions, vec!["9.0.0".to_string()]);
    let plan = c.accept_answered(3, 4, &established(3), "").unwrap();
    assert_eq!(plan.exchange, Some((vec![1, 2, 3], -5)));
    assert_eq!(plan.servers.len(), 1);
    assert_eq!(c.signaling_peer().unwrap(), (3, 4));
    assert_eq!(c.state(), P2PCallState::Idle);
    c.exchange_done();
    assert!(matches!(c.begin_accept(), Err(TgCallsError::P2PAlreadyActive)));
}

#[test]
fn signaling_routing() {
    let data = SignalingUpdate::Data { phone_call_id: 7, data: vec![1, 2] };
    assert!(matches!(P2PCall::signaling_step(7, &data), SignalingStep::Forward(d) if d == vec![1, 2]));
    assert!(matches!(P2PCall::signaling_step(8, &data), SignalingStep::Ignore));
    let gone = SignalingUpdate::PhoneCall(PhoneCallUpdate::Discarded { id: 7, reason: None, reason_shown: "None".to_string() });
    match P2PCall::signaling_step(7, &gone) {
        SignalingStep::Fail(e) => assert_eq!(parse_error(e), "call discarded during signaling"),
        _ => panic!("expected failure"),
    }
    assert!(matches!(P2PCall::signaling_step(7, &SignalingUpdate::Other), SignalingStep::Ignore));
    assert_eq!(connection_signal(ConnectionState::Connected), Some(true));
    assert_eq!(connection_signal(ConnectionState::Failed), Some(false));
    assert_eq!(connection_signal(ConnectionState::Connecting), None);
}

#[test]
fn ending_and_remote_hangup() {
    let mut c = P2PCall::new(42);
    assert!(c.begin_end().is_none());
    assert!(matches!(c.require_active(), Err(TgCallsError::P2PNotActive)));
    c.begin_request().unwrap();
    assert!(c.require_active().is_ok());
    assert_eq!(c.begin_end(), Some(None));
    c.request_answered(&PhoneCallUpdate::Requested { id: 7, access_hash: 8, g_a_hash: vec![] }, "").unwrap();
    assert_eq!(c.begin_end(), Some(Some((7, 8))));
    assert!(c.needs_stop());
    assert!(c.handle_update(&PhoneCallUpdate::Discarded { id: 6, reason: None, reason_shown: "None".to_string() }).is_none());
    assert!(c.handle_update(&established(7)).is_none());
    let ev = c.handle_update(&PhoneCallUpdate::Discarded { id: 7, reason: Some(DiscardReason::Hangup), reason_shown: "Some(Hangup)".to_string() });
    assert!(matches!(ev, Some(P2PEvent::Discarded(Some(DiscardReason::Hangup)))));
    assert_eq!(c.state(), P2PCallState::Ended);
    assert!(c.begin_end().is_none());
    assert!(!c.needs_stop());
    c.finish_end();
    assert_eq!(c.state(), P2PCallState::Ended);
}
