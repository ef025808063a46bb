//! Private (one-to-one) calls: the call's lifecycle, what Telegram's phone
//! call updates mean for it, and the servers it connects through.

use vstd::prelude::*;

use crate::errors::TgCallsError;
use crate::structures::RtcServer;

verus! {

#[derive(Debug, Clone, Copy, PartialEq, Eq, Structural)]
pub enum P2PCallState {
    Idle,
    Requesting,
    Exchanging,
    Connecting,
    Connected,
    Ended,
}

/// Why Telegram discarded a phone call.
#[derive(Debug, Clone)]
pub enum DiscardReason {
    Missed,
    Disconnect,
    Hangup,
    Busy,
    /// The call was upgraded to a conference, identified by this slug.
    MigrateConferenceCall { slug: String },
}

fn copy_reason(r: &Option<DiscardReason>) -> (c: Option<DiscardReason>)
    ensures
        c == *r,
{
    match r {
        None => None,
        Some(DiscardReason::Missed) => Some(DiscardReason::Missed),
        Some(DiscardReason::Disconnect) => Some(DiscardReason::Disconnect),
        Some(DiscardReason::Hangup) => Some(DiscardReason::Hangup),
        Some(DiscardReason::Busy) => Some(DiscardReason::Busy),
        Some(DiscardReason::MigrateConferenceCall { slug }) => Some(
            DiscardReason::MigrateConferenceCall { slug: slug.clone() },
        ),
    }
}

/// The call ended after it was connected: the other side hung up, missed
/// it, or declined.
#[derive(Debug, Clone)]
pub enum P2PEvent {
    Discarded(Option<DiscardReason>),
}

/// A server Telegram offers for a phone call.
#[derive(Debug, Clone)]
pub enum PhoneConnection {
    /// A WebRTC STUN/TURN server.
    Webrtc {
        id: i64,
        ip: String,
        ipv6: String,
        port: i32,
        username: String,
        password: String,
        turn: bool,
        stun: bool,
    },
    /// A classic reflector.
    Classic { id: i64, ip: String, ipv6: String, port: i32, peer_tag: Vec<u8>, tcp: bool },
}

/// A phone call's state as Telegram reports it.
#[derive(Debug, Clone)]
pub enum PhoneCallUpdate {
    Empty { id: i64 },
    Waiting { id: i64, access_hash: i64 },
    Requested { id: i64, access_hash: i64, g_a_hash: Vec<u8> },
    Accepted { id: i64, g_b: Vec<u8>, library_versions: Vec<String> },
    Established {
        id: i64,
        g_a_or_b: Vec<u8>,
        key_fingerprint: i64,
        connections: Vec<PhoneConnection>,
        library_versions: Vec<String>,
    },
    /// `reason_shown` is how Telegram's optional reason prints in debug
    /// form, as errors report it.
    Discarded { id: i64, reason: Option<DiscardReason>, reason_shown: String },
}

/// The server a phone connection describes: an empty IPv6 address falls
/// back to the IPv4 one; WebRTC servers carry credentials and STUN/TURN
/// flags, classic ones a peer tag and the TCP flag.
pub open spec fn server_matches(s: RtcServer, c: PhoneConnection) -> bool {
    match c {
        PhoneConnection::Webrtc { id, ip, ipv6, port, username, password, turn, stun } => {
            &&& s.id == id as u64
            &&& s.ipv4@ == ip@
            &&& s.ipv6@ == (if ipv6@.len() == 0 {
                ip@
            } else {
                ipv6@
            })
            &&& s.username@ == username@
            &&& s.password@ == password@
            &&& s.port == port as u16
            &&& s.turn == turn
            &&& s.stun == stun
            &&& !s.tcp
            &&& s.peer_tag@.len() == 0
        },
        PhoneConnection::Classic { id, ip, ipv6, port, peer_tag, tcp } => {
            &&& s.id == id as u64
            &&& s.ipv4@ == ip@
            &&& s.ipv6@ == (if ipv6@.len() == 0 {
                ip@
            } else {
                ipv6@
            })
            &&& s.username@.len() == 0
            &&& s.password@.len() == 0
            &&& s.port == port as u16
            &&& !s.turn
            &&& !s.stun
            &&& s.tcp == tcp
            &&& s.peer_tag@ == peer_tag@
        },
    }
}

pub open spec fn servers_match(s: Seq<RtcServer>, c: Seq<PhoneConnection>) -> bool {
    &&& s.len() == c.len()
    &&& forall|i: int| 0 <= i < c.len() ==> server_matches(#[trigger] s[i], c[i])
}

fn ipv6_or_ipv4(ip: &String, ipv6: &String) -> (r: String)
    ensures
        r@ == (if ipv6@.len() == 0 {
            ip@
        } else {
            ipv6@
        }),
{
    if ipv6.as_str().unicode_len() == 0 {
        ip.clone()
    } else {
        ipv6.clone()
    }
}

/// The server one phone connection describes.
pub fn connection_to_rtc(c: &PhoneConnection) -> (r: RtcServer)
    ensures
        server_matches(r, *c),
{
    match c {
        PhoneConnection::Webrtc { id, ip, ipv6, port, username, password, turn, stun } => {
            let peer_tag: Vec<u8> = Vec::new();
            RtcServer {
                id: #[verifier::truncate] (*id as u64),
                ipv4: ip.clone(),
                ipv6: ipv6_or_ipv4(ip, ipv6),
                username: username.clone(),
                password: password.clone(),
                port: #[verifier::truncate] (*port as u16),
                turn: *turn,
                stun: *stun,
                tcp: false,
                peer_tag,
            }
        },
        PhoneConnection::Classic { id, ip, ipv6, port, peer_tag, tcp } => {
            let username = String::new();
            let password = String::new();
            RtcServer {
                id: #[verifier::truncate] (*id as u64),
                ipv4: ip.clone(),
                ipv6: ipv6_or_ipv4(ip, ipv6),
                username,
                password,
                port: #[verifier::truncate] (*port as u16),
                turn: false,
                stun: false,
                tcp: *tcp,
                peer_tag: crate::structures::copy_bytes(peer_tag),
            }
        },
    }
}

/// The servers Telegram's phone connections describe, in order.
pub fn connections_to_rtc(connections: &Vec<PhoneConnection>) -> (r: Vec<RtcServer>)
    ensures
        servers_match(r@, connections@),
{
    let mut r: Vec<RtcServer> = Vec::new();
    let mut i: usize = 0;
    while i < connections.len()
        invariant
            i <= connections.len(),
            servers_match(r@, connections@.subrange(0, i as int)),
        decreases connections.len() - i,
    {
        let s = connection_to_rtc(&connections[i]);
        r.push(s);
        i = i + 1;
    }
    assert(connections@.subrange(0, i as int) =~= connections@);
    r
}

fn copy_strings(v: &Vec<String>) -> (r: Vec<String>)
    ensures
        r@ == v@,
{
    let mut r: Vec<String> = Vec::new();
    let mut i: usize = 0;
    while i < v.len()
        invariant
            i <= v.len(),
            r@ == v@.subrange(0, i as int),
        decreases v.len() - i,
    {
        r.push(v[i].clone());
        i = i + 1;
        assert(r@ =~= v@.subrange(0, i as int));
    }
    assert(v@.subrange(0, i as int) =~= v@);
    r
}

/// What waiting on Telegram's updates comes to for one update.
#[derive(Debug)]
pub enum WaitStep<T> {
    /// Not about this call (or not decisive): keep waiting.
    Continue,
    /// The awaited state arrived.
    Done(T),
    /// The call is over.
    Fail(TgCallsError),
}

/// The error for a call discarded while it was being set up.
pub open spec fn discarded_error(reason_shown: Seq<char>) -> Seq<char> {
    "call discarded: "@ + reason_shown
}

fn discarded_err(reason_shown: &String) -> (e: TgCallsError)
    ensures
        e matches TgCallsError::TransportParse(m) && m@ == discarded_error(reason_shown@),
{
    let mut m = String::from_str("call discarded: ");
    m.append(reason_shown.as_str());
    TgCallsError::TransportParse(m)
}

/// Telegram's signaling traffic while a call connects.
#[derive(Debug, Clone)]
pub enum SignalingUpdate {
    /// Signaling bytes for a phone call.
    Data { phone_call_id: i64, data: Vec<u8> },
    /// A phone call changed state.
    PhoneCall(PhoneCallUpdate),
    /// Anything else.
    Other,
}

/// What to do with one update while pumping signaling.
#[derive(Debug)]
pub enum SignalingStep {
    Ignore,
    /// Hand these bytes to the engine.
    Forward(Vec<u8>),
    /// The call was discarded; stop with this error.
    Fail(TgCallsError),
}

/// What a connection change tells the signaling pump: connected
/// (`true`), failed for good (`false`), or nothing yet.
pub fn connection_signal(state: crate::enums::ConnectionState) -> (r: Option<bool>)
    ensures
        match state {
            crate::enums::ConnectionState::Connected => r == Some(true),
            crate::enums::ConnectionState::Connecting => r is None,
            _ => r == Some(false),
        },
{
    match state {
        crate::enums::ConnectionState::Connected => Some(true),
        crate::enums::ConnectionState::Connecting => None,
        _ => Some(false),
    }
}

/// One private call with one user.
pub struct P2PCall {
    user_id: i64,
    state: P2PCallState,
    call_id: Option<i64>,
    call_access_hash: Option<i64>,
}

/// What an incoming call's acceptance still needs.
#[derive(Debug)]
pub struct AcceptPlan {
    /// The key exchange to complete (`g_a_or_b`, fingerprint), when the
    /// call was already established by the answer.
    pub exchange: Option<(Vec<u8>, i64)>,
    pub servers: Vec<RtcServer>,
    pub versions: Vec<String>,
}

/// What the answer to a call confirmation means.
#[derive(Debug)]
pub enum ConfirmStep {
    /// The call is established with these servers.
    Servers(Vec<RtcServer>),
    /// Wait for the established call among the updates.
    WaitForCall,
}

impl P2PCall {
    pub closed spec fn spec_user_id(&self) -> i64 {
        self.user_id
    }

    pub closed spec fn spec_state(&self) -> P2PCallState {
        self.state
    }

    pub closed spec fn spec_call_id(&self) -> Option<i64> {
        self.call_id
    }

    pub closed spec fn spec_access_hash(&self) -> Option<i64> {
        self.call_access_hash
    }

    pub fn new(user_id: i64) -> (r: P2PCall)
        ensures
            r.spec_user_id() == user_id,
            r.spec_state() == P2PCallState::Idle,
            r.spec_call_id() is None,
            r.spec_access_hash() is None,
    {
        P2PCall { user_id, state: P2PCallState::Idle, call_id: None, call_access_hash: None }
    }

    pub fn user_id(&self) -> (r: i64)
        ensures
            r == self.spec_user_id(),
    {
        self.user_id
    }

    pub fn state(&self) -> (r: P2PCallState)
        ensures
            r == self.spec_state(),
    {
        self.state
    }

    /// An outgoing call starts only from `Idle` (else `P2PAlreadyActive`,
    /// unchanged); the call is then `Requesting`.
    pub fn begin_request(&mut self) -> (r: Result<(), TgCallsError>)
        ensures
            r is Ok <==> old(self).spec_state() == P2PCallState::Idle,
            r matches Err(e) ==> e is P2PAlreadyActive && *final(self) == *old(self),
            r is Ok ==> final(self).spec_state() == P2PCallState::Requesting
                && final(self).spec_user_id() == old(self).spec_user_id()
                && final(self).spec_call_id() == old(self).spec_call_id()
                && final(self).spec_access_hash() == old(self).spec_access_hash(),
    {
        if self.state != P2PCallState::Idle {
            return Err(TgCallsError::P2PAlreadyActive);
        }
        self.state = P2PCallState::Requesting;
        Ok(())
    }

    /// Telegram answered the request with `u`, which prints as `shown` in
    /// debug form: a waiting or requested call is ours (its id and access
    /// hash are kept); anything else is an error that shows the answer.
    pub fn request_answered(&mut self, u: &PhoneCallUpdate, shown: &str) -> (r: Result<
        i64,
        TgCallsError,
    >)
        ensures
            match *u {
                PhoneCallUpdate::Waiting { id, access_hash } | PhoneCallUpdate::Requested {
                    id,
                    access_hash,
                    ..
                } => {
                    &&& r == Ok::<i64, TgCallsError>(id)
                    &&& final(self).spec_call_id() == Some(id)
                    &&& final(self).spec_access_hash() == Some(access_hash)
                    &&& final(self).spec_state() == old(self).spec_state()
                    &&& final(self).spec_user_id() == old(self).spec_user_id()
                },
                _ => {
                    &&& r matches Err(TgCallsError::TransportParse(m))
                    &&& m@ == "unexpected PhoneCall state after requestCall: "@ + shown@
                    &&& *final(self) == *old(self)
                },
            },
    {
        match u {
            PhoneCallUpdate::Waiting { id, access_hash } | PhoneCallUpdate::Requested {
                id,
                access_hash,
                ..
            } => {
                self.call_id = Some(*id);
                self.call_access_hash = Some(*access_hash);
                Ok(*id)
            },
            _ => {
                let mut m = String::from_str("unexpected PhoneCall state after requestCall: ");
                m.append(shown);
                Err(TgCallsError::TransportParse(m))
            },
        }
    }

    /// Waiting for the remote to accept call `call_id`: its acceptance
    /// gives `g_b` and the protocol versions; its discard is an error;
    /// anything else is waited past.
    pub fn accept_wait_step(call_id: i64, u: &PhoneCallUpdate) -> (r: WaitStep<(Vec<u8>, Vec<String>)>)
        ensures
            match *u {
                PhoneCallUpdate::Accepted { id, g_b, library_versions } => if id == call_id {
                    r matches WaitStep::Done((gb, versions)) && gb@ == g_b@ && versions@ == library_versions@
                } else {
                    r is Continue
                },
                PhoneCallUpdate::Discarded { id, reason_shown, .. } => if id == call_id {
                    r matches WaitStep::Fail(TgCallsError::TransportParse(m)) && m@ == discarded_error(
                        reason_shown@,
                    )
                } else {
                    r is Continue
                },
                _ => r is Continue,
            },
    {
        match u {
            PhoneCallUpdate::Accepted { id, g_b, library_versions } => {
                if *id == call_id {
                    WaitStep::Done((crate::structures::copy_bytes(g_b), copy_strings(library_versions)))
                } else {
                    WaitStep::Continue
                }
            },
            PhoneCallUpdate::Discarded { id, reason_shown, .. } => {
                if *id == call_id {
                    WaitStep::Fail(discarded_err(reason_shown))
                } else {
                    WaitStep::Continue
                }
            },
            _ => WaitStep::Continue,
        }
    }

    /// Telegram answered the confirmation with `u`: an established call
    /// gives its servers; anything else means waiting for it.
    pub fn confirm_answered(u: &PhoneCallUpdate) -> (r: ConfirmStep)
        ensures
            match *u {
                PhoneCallUpdate::Established { connections, .. } => r matches ConfirmStep::Servers(s)
                    && servers_match(s@, connections@),
                _ => r is WaitForCall,
            },
    {
        match u {
            PhoneCallUpdate::Established { connections, .. } => ConfirmStep::Servers(
                connections_to_rtc(connections),
            ),
            _ => ConfirmStep::WaitForCall,
        }
    }

    /// Waiting for call `call_id` to be established after confirming it:
    /// the established call gives its servers; its discard is an error.
    pub fn confirm_wait_step(call_id: i64, u: &PhoneCallUpdate) -> (r: WaitStep<Vec<RtcServer>>)
        ensures
            match *u {
                PhoneCallUpdate::Established { id, connections, .. } => if id == call_id {
                    r matches WaitStep::Done(s) && servers_match(s@, connections@)
                } else {
                    r is Continue
                },
                PhoneCallUpdate::Discarded { id, reason_shown, .. } => if id == call_id {
                    r matches WaitStep::Fail(TgCallsError::TransportParse(m)) && m@ == discarded_error(
                        reason_shown@,
                    )
                } else {
                    r is Continue
                },
                _ => r is Continue,
            },
    {
        match u {
            PhoneCallUpdate::Established { id, connections, .. } => {
                if *id == call_id {
                    WaitStep::Done(connections_to_rtc(connections))
                } else {
                    WaitStep::Continue
                }
            },
            PhoneCallUpdate::Discarded { id, reason_shown, .. } => {
                if *id == call_id {
                    WaitStep::Fail(discarded_err(reason_shown))
                } else {
                    WaitStep::Continue
                }
            },
            _ => WaitStep::Continue,
        }
    }

    /// The key exchange is done: the call is `Exchanging`, ready to connect.
    pub fn exchange_done(&mut self)
        ensures
            final(self).spec_state() == P2PCallState::Exchanging,
            final(self).spec_user_id() == old(self).spec_user_id(),
            final(self).spec_call_id() == old(self).spec_call_id(),
            final(self).spec_access_hash() == old(self).spec_access_hash(),
    {
        self.state = P2PCallState::Exchanging;
    }

    /// Accepting an incoming call needs an idle call (else
    /// `P2PAlreadyActive`); nothing changes yet.
    pub fn begin_accept(&self) -> (r: Result<(), TgCallsError>)
        ensures
            r is Ok <==> self.spec_state() == P2PCallState::Idle,
            r matches Err(e) ==> e is P2PAlreadyActive,
    {
        if self.state != P2PCallState::Idle {
            return Err(TgCallsError::P2PAlreadyActive);
        }
        Ok(())
    }

    /// Telegram answered our acceptance of call `call_id` with `u`, which
    /// prints as `shown` in debug form. The call's id and access hash are
    /// kept. An accepted call gives its protocol versions and no servers
    /// yet; an established one gives its servers and versions and the key
    /// exchange still to complete; anything else is an error that shows the
    /// answer.
    pub fn accept_answered(
        &mut self,
        call_id: i64,
        access_hash: i64,
        u: &PhoneCallUpdate,
        shown: &str,
    ) -> (r:
        Result<AcceptPlan, TgCallsError>)
        ensures
            final(self).spec_call_id() == Some(call_id),
            final(self).spec_access_hash() == Some(access_hash),
            final(self).spec_state() == old(self).spec_state(),
            final(self).spec_user_id() == old(self).spec_user_id(),
            match *u {
                PhoneCallUpdate::Accepted { library_versions, .. } => r matches Ok(plan)
                    && plan.exchange is None && plan.servers@.len() == 0 && plan.versions@
                    == library_versions@,
                PhoneCallUpdate::Established {
                    g_a_or_b,
                    key_fingerprint,
                    connections,
                    library_versions,
                    ..
                } => r matches Ok(plan) && plan.exchange matches Some((g, fp)) && g@ == g_a_or_b@
                    && fp == key_fingerprint && servers_match(plan.servers@, connections@)
                    && plan.versions@ == library_versions@,
                _ => r matches Err(TgCallsError::TransportParse(m)) && m@
                    == "unexpected PhoneCall state after acceptCall: "@ + shown@,
            },
    {
        self.call_id = Some(call_id);
        self.call_access_hash = Some(access_hash);
        match u {
            PhoneCallUpdate::Accepted { library_versions, .. } => Ok(
                AcceptPlan { exchange: None, servers: Vec::new(), versions: copy_strings(library_versions) },
            ),
            PhoneCallUpdate::Established {
                g_a_or_b,
                key_fingerprint,
                connections,
                library_versions,
                ..
            } => Ok(
                AcceptPlan {
                    exchange: Some((crate::structures::copy_bytes(g_a_or_b), *key_fingerprint)),
                    servers: connections_to_rtc(connections),
                    versions: copy_strings(library_versions),
                },
            ),
            _ => {
                let mut m = String::from_str("unexpected PhoneCall state after acceptCall: ");
                m.append(shown);
                Err(TgCallsError::TransportParse(m))
            },
        }
    }

    /// The engine is connecting to the servers: the call is `Connecting`.
    pub fn connect_started(&mut self)
        ensures
            final(self).spec_state() == P2PCallState::Connecting,
            final(self).spec_user_id() == old(self).spec_user_id(),
            final(self).spec_call_id() == old(self).spec_call_id(),
            final(self).spec_access_hash() == old(self).spec_access_hash(),
    {
        self.state = P2PCallState::Connecting;
    }

    /// The phone call to exchange signaling on: its id and access hash,
    /// or `P2PNotActive` before Telegram gave them.
    pub fn signaling_peer(&self) -> (r: Result<(i64, i64), TgCallsError>)
        ensures
            match (self.spec_call_id(), self.spec_access_hash()) {
                (Some(id), Some(h)) => r == Ok::<(i64, i64), TgCallsError>((id, h)),
                _ => r matches Err(e) && e is P2PNotActive,
            },
    {
        let id = match self.call_id {
            Some(id) => id,
            None => return Err(TgCallsError::P2PNotActive),
        };
        let h = match self.call_access_hash {
            Some(h) => h,
            None => return Err(TgCallsError::P2PNotActive),
        };
        Ok((id, h))
    }

    /// While pumping signaling for call `call_id`: its signaling bytes go
    /// to the engine; its discard ends the pump with an error; everything
    /// else is ignored.
    pub fn signaling_step(call_id: i64, u: &SignalingUpdate) -> (r: SignalingStep)
        ensures
            match *u {
                SignalingUpdate::Data { phone_call_id, data } => if phone_call_id == call_id {
                    r matches SignalingStep::Forward(d) && d@ == data@
                } else {
                    r is Ignore
                },
                SignalingUpdate::PhoneCall(PhoneCallUpdate::Discarded { id, .. }) => if id == call_id {
                    r matches SignalingStep::Fail(TgCallsError::TransportParse(m)) && m@
                        == "call discarded during signaling"@
                } else {
                    r is Ignore
                },
                _ => r is Ignore,
            },
    {
        match u {
            SignalingUpdate::Data { phone_call_id, data } => {
                if *phone_call_id == call_id {
                    SignalingStep::Forward(crate::structures::copy_bytes(data))
                } else {
                    SignalingStep::Ignore
                }
            },
            SignalingUpdate::PhoneCall(PhoneCallUpdate::Discarded { id, .. }) => {
                if *id == call_id {
                    SignalingStep::Fail(
                        TgCallsError::TransportParse(String::from_str("call discarded during signaling")),
                    )
                } else {
                    SignalingStep::Ignore
                }
            },
            _ => SignalingStep::Ignore,
        }
    }

    /// The engine reported the connection: connected makes the call
    /// `Connected` and answers `true`; a failure answers `false` and
    /// changes nothing.
    pub fn connection_settled(&mut self, connected: bool) -> (r: bool)
        ensures
            r == connected,
            connected ==> final(self).spec_state() == P2PCallState::Connected,
            !connected ==> final(self).spec_state() == old(self).spec_state(),
            final(self).spec_user_id() == old(self).spec_user_id(),
            final(self).spec_call_id() == old(self).spec_call_id(),
            final(self).spec_access_hash() == old(self).spec_access_hash(),
    {
        if connected {
            self.state = P2PCallState::Connected;
        }
        connected
    }

    /// Media and signaling operations need a call under way: not `Idle`
    /// and not `Ended` (else `P2PNotActive`).
    pub fn require_active(&self) -> (r: Result<(), TgCallsError>)
        ensures
            r is Ok <==> !(self.spec_state() == P2PCallState::Idle || self.spec_state()
                == P2PCallState::Ended),
            r matches Err(e) ==> e is P2PNotActive,
    {
        if self.state == P2PCallState::Idle || self.state == P2PCallState::Ended {
            return Err(TgCallsError::P2PNotActive);
        }
        Ok(())
    }

    /// Hanging up: nothing to do for an idle or ended call (`None`); else
    /// the phone call to discard, if Telegram gave one.
    pub fn begin_end(&self) -> (r: Option<Option<(i64, i64)>>)
        ensures
            (self.spec_state() == P2PCallState::Idle || self.spec_state() == P2PCallState::Ended)
                <==> r is None,
            r matches Some(d) ==> d == match (self.spec_call_id(), self.spec_access_hash()) {
                (Some(id), Some(h)) => Some((id, h)),
                _ => None,
            },
    {
        if self.state == P2PCallState::Ended || self.state == P2PCallState::Idle {
            return None;
        }
        match (self.call_id, self.call_access_hash) {
            (Some(id), Some(h)) => Some(Some((id, h))),
            _ => Some(None),
        }
    }

    /// The call is over.
    pub fn finish_end(&mut self)
        ensures
            final(self).spec_state() == P2PCallState::Ended,
            final(self).spec_user_id() == old(self).spec_user_id(),
            final(self).spec_call_id() == old(self).spec_call_id(),
            final(self).spec_access_hash() == old(self).spec_access_hash(),
    {
        self.state = P2PCallState::Ended;
    }

    /// A phone call update on a live call: the discard of this call ends it
    /// and is reported; anything else is not this call's business.
    pub fn handle_update(&mut self, u: &PhoneCallUpdate) -> (r: Option<P2PEvent>)
        ensures
            match *u {
                PhoneCallUpdate::Discarded { id, reason, .. } => if old(self).spec_call_id() == Some(id) {
                    &&& r matches Some(P2PEvent::Discarded(why)) && why == reason
                    &&& final(self).spec_state() == P2PCallState::Ended
                    &&& final(self).spec_user_id() == old(self).spec_user_id()
                    &&& final(self).spec_call_id() == old(self).spec_call_id()
                    &&& final(self).spec_access_hash() == old(self).spec_access_hash()
                } else {
                    r is None && *final(self) == *old(self)
                },
                _ => r is None && *final(self) == *old(self),
            },
    {
        match u {
            PhoneCallUpdate::Discarded { id, reason, .. } => {
                if self.call_id != Some(*id) {
                    return None;
                }
                self.state = P2PCallState::Ended;
                Some(P2PEvent::Discarded(copy_reason(reason)))
            },
            _ => None,
        }
    }

    /// Whether dropping the call must still stop the engine's side of it.
    pub fn needs_stop(&self) -> (r: bool)
        ensures
            r == !(self.spec_state() == P2PCallState::Idle || self.spec_state()
                == P2PCallState::Ended),
    {
        self.state != P2PCallState::Idle && self.state != P2PCallState::Ended
    }
}

} // verus!
