//! One chat's group call: its lifecycle, the participant updates it reacts
//! to, and the incoming-video subscriptions it keeps.
//!
//! `Call` holds the state; the driver that owns the Telegram client and the
//! engine asks it what to do before each step and reports back after.

use std::collections::HashMap;

use vstd::prelude::*;

use crate::enums::{ConnectionState, StreamDevice, StreamType};
use crate::errors::{is_transient, spec_is_transient, CallError, TgCallsError};
use crate::structures::SsrcGroup;

verus! {

broadcast use vstd::std_specs::hash::group_hash_axioms;

/// Supergroup ids arrive as `-100xxxxxxxxxx`; the engine wants the bare
/// channel id. Other negative ids lose their sign; positive ids stay.
pub open spec fn spec_ntg_chat_id(chat_id: int) -> int {
    if chat_id < 0 {
        if -chat_id > 1_000_000_000_000 {
            -chat_id - 1_000_000_000_000
        } else {
            -chat_id
        }
    } else {
        chat_id
    }
}

/// The engine's id for a chat.
pub fn ntg_chat_id(chat_id: i64) -> (r: i64)
    requires
        chat_id != i64::MIN,
    ensures
        r == spec_ntg_chat_id(chat_id as int),
        r >= 0,
        chat_id < -1_000_000_000_000 ==> r == -1_000_000_000_000 - chat_id,
{
    if chat_id < 0 {
        let abs = -chat_id;
        if abs > 1_000_000_000_000 {
            abs - 1_000_000_000_000
        } else {
            abs
        }
    } else {
        chat_id
    }
}

#[derive(Debug, Clone, Copy, PartialEq, Eq, Structural)]
pub enum CallState {
    Idle,
    Joining,
    Joined,
    Leaving,
}

#[derive(Debug, Clone, Copy, PartialEq, Eq, Structural)]
pub enum ParticipantAction {
    Joined,
    Left,
    Updated,
}

/// Everything a bot might want to react to about a call, beyond the
/// return values of the call's own operations.
#[derive(Debug, Clone, Copy, PartialEq, Eq, Structural)]
pub enum CallEvent {
    /// A stream (or a recording target) reached its end.
    StreamEnded(StreamType, StreamDevice),
    /// A participant joined, left, or changed state.
    ParticipantUpdate { user_id: i64, action: ParticipantAction, is_self: bool },
    /// You were removed from (or otherwise left) the call without leaving
    /// yourself; the call is already back to `Idle`.
    Left,
    /// The voice chat was ended for everyone.
    Ended,
}

/// Telegram's reference to a group call.
#[derive(Debug, Clone)]
pub enum GroupCallRef {
    /// By id and access hash.
    Id { id: i64, access_hash: i64 },
    /// By a conference link's slug.
    Slug(String),
    /// By the id of the message that invited us.
    InviteMessage(i32),
}

impl GroupCallRef {
    /// The group call's raw id; only a reference by id carries one.
    pub open spec fn spec_id(self) -> Option<i64> {
        match self {
            GroupCallRef::Id { id, .. } => Some(id),
            _ => None,
        }
    }

    pub fn id(&self) -> (r: Option<i64>)
        ensures
            r == self.spec_id(),
    {
        match self {
            GroupCallRef::Id { id, .. } => Some(*id),
            _ => None,
        }
    }

    /// A copy of this reference.
    pub fn duplicate(&self) -> (r: GroupCallRef)
        ensures
            r == *self,
    {
        match self {
            GroupCallRef::Id { id, access_hash } => GroupCallRef::Id { id: *id, access_hash: *access_hash },
            GroupCallRef::Slug(s) => GroupCallRef::Slug(s.clone()),
            GroupCallRef::InviteMessage(m) => GroupCallRef::InviteMessage(*m),
        }
    }
}

/// One SSRC group of a participant's video, as Telegram sends it.
#[derive(Debug, Clone)]
pub struct VideoSourceGroup {
    pub semantics: String,
    pub sources: Vec<i32>,
}

/// A participant's camera or screen-share video, as Telegram sends it.
#[derive(Debug, Clone)]
pub struct ParticipantVideo {
    pub endpoint: String,
    pub source_groups: Vec<VideoSourceGroup>,
    pub paused: bool,
}

/// A group call participant, as Telegram sends it.
#[derive(Debug, Clone)]
pub struct Participant {
    /// The participant's user id; `None` when the peer is not a user.
    pub user_id: Option<i64>,
    pub just_joined: bool,
    pub left: bool,
    pub is_self: bool,
    /// The participant's audio SSRC.
    pub source: i32,
    pub video: Option<ParticipantVideo>,
    pub presentation: Option<ParticipantVideo>,
}

pub open spec fn spec_participant_action(p: Participant) -> ParticipantAction {
    if p.just_joined {
        ParticipantAction::Joined
    } else if p.left {
        ParticipantAction::Left
    } else {
        ParticipantAction::Updated
    }
}

/// Joined takes precedence over left; anything else is an update.
pub fn participant_action(p: &Participant) -> (r: ParticipantAction)
    ensures
        r == spec_participant_action(*p),
        p.just_joined ==> r == ParticipantAction::Joined,
        !p.just_joined && p.left ==> r == ParticipantAction::Left,
        !p.just_joined && !p.left ==> r == ParticipantAction::Updated,
{
    if p.just_joined {
        ParticipantAction::Joined
    } else if p.left {
        ParticipantAction::Left
    } else {
        ParticipantAction::Updated
    }
}

/// `out` is `groups` with every source reinterpreted as an unsigned SSRC.
pub open spec fn ssrc_groups_match(groups: Seq<VideoSourceGroup>, out: Seq<SsrcGroup>) -> bool {
    &&& out.len() == groups.len()
    &&& forall|i: int|
        0 <= i < groups.len() ==> {
            &&& (#[trigger] out[i]).semantics@ == groups[i].semantics@
            &&& out[i].ssrcs@ == groups[i].sources@.map_values(|s: i32| s as u32)
        }
}

fn to_ssrcs(sources: &Vec<i32>) -> (r: Vec<u32>)
    ensures
        r@ == sources@.map_values(|s: i32| s as u32),
{
    let mut r: Vec<u32> = Vec::new();
    let mut i: usize = 0;
    while i < sources.len()
        invariant
            i <= sources.len(),
            r@ == sources@.subrange(0, i as int).map_values(|s: i32| s as u32),
        decreases sources.len() - i,
    {
        r.push(#[verifier::truncate] (sources[i] as u32));
        i = i + 1;
        assert(r@ =~= sources@.subrange(0, i as int).map_values(|s: i32| s as u32));
    }
    assert(sources@.subrange(0, i as int) =~= sources@);
    r
}

/// Telegram's SSRC groups in the engine's form.
pub fn to_ssrc_groups(groups: &Vec<VideoSourceGroup>) -> (r: Vec<SsrcGroup>)
    ensures
        ssrc_groups_match(groups@, r@),
{
    let mut r: Vec<SsrcGroup> = Vec::new();
    let mut i: usize = 0;
    while i < groups.len()
        invariant
            i <= groups.len(),
            ssrc_groups_match(groups@.subrange(0, i as int), r@),
        decreases groups.len() - i,
    {
        let g = &groups[i];
        r.push(SsrcGroup { semantics: g.semantics.clone(), ssrcs: to_ssrcs(&g.sources) });
        i = i + 1;
        assert(ssrc_groups_match(groups@.subrange(0, i as int), r@));
    }
    assert(groups@.subrange(0, i as int) =~= groups@);
    r
}

/// A video stream to subscribe to: its endpoint and SSRC groups.
#[derive(Debug, Clone)]
pub struct VideoWant {
    pub endpoint: String,
    pub groups: Vec<SsrcGroup>,
}

/// `w` is what to subscribe to for `v`: nothing when the video is absent
/// or paused, else its endpoint and groups.
pub open spec fn want_matches(w: Option<VideoWant>, v: Option<ParticipantVideo>) -> bool {
    match v {
        None => w is None,
        Some(video) => if video.paused {
            w is None
        } else {
            w matches Some(want) && want.endpoint@ == video.endpoint@ && ssrc_groups_match(
                video.source_groups@,
                want.groups@,
            )
        },
    }
}

/// Pulls the endpoint and SSRC groups out of a participant's camera or
/// presentation field; `None` when absent or paused.
pub fn extract_video(v: &Option<ParticipantVideo>) -> (r: Option<VideoWant>)
    ensures
        want_matches(r, *v),
{
    match v {
        None => None,
        Some(video) => {
            if video.paused {
                None
            } else {
                Some(
                    VideoWant {
                        endpoint: video.endpoint.clone(),
                        groups: to_ssrc_groups(&video.source_groups),
                    },
                )
            }
        },
    }
}

/// How many times a failed join is retried.
pub const JOIN_MAX_RETRIES: u32 = 3;

/// The wait before retry number `retries_done + 1`: 500 ms, doubled for
/// each retry already made.
pub open spec fn backoff_ms(retries_done: nat) -> nat
    decreases retries_done,
{
    if retries_done == 0 {
        500
    } else {
        2 * backoff_ms((retries_done - 1) as nat)
    }
}

/// Whether a failed join is retried, and after how long: only transient
/// failures, and at most `JOIN_MAX_RETRIES` times.
pub open spec fn spec_join_retry(err: TgCallsError, retries_done: u32) -> Option<u64> {
    if retries_done < JOIN_MAX_RETRIES && spec_is_transient(err) {
        Some(backoff_ms(retries_done as nat) as u64)
    } else {
        None
    }
}

pub fn join_retry_delay_ms(err: &TgCallsError, retries_done: u32) -> (r: Option<u64>)
    ensures
        r == spec_join_retry(*err, retries_done),
{
    if retries_done < JOIN_MAX_RETRIES && is_transient(err) {
        let delay: u64 = if retries_done == 0 {
            500
        } else if retries_done == 1 {
            1000
        } else {
            2000
        };
        proof {
            reveal_with_fuel(backoff_ms, 3);
        }
        Some(delay)
    } else {
        None
    }
}

/// What a connection change means for a join waiting on it: connected is
/// success, failed/timed out/closed is a connection error, connecting is
/// nothing yet.
pub open spec fn spec_connect_outcome(state: ConnectionState) -> Option<Result<(), CallError>> {
    match state {
        ConnectionState::Connected => Some(Ok(())),
        ConnectionState::Connecting => None,
        _ => Some(Err(CallError::Connection)),
    }
}

pub fn connect_outcome(state: ConnectionState) -> (r: Option<Result<(), CallError>>)
    ensures
        r == spec_connect_outcome(state),
        r is None <==> state == ConnectionState::Connecting,
        state == ConnectionState::Connected ==> r == Some(Ok::<(), CallError>(())),
        state == ConnectionState::Timeout || state == ConnectionState::Failed || state
            == ConnectionState::Closed ==> r == Some(Err::<(), CallError>(CallError::Connection)),
{
    match state {
        ConnectionState::Connected => Some(Ok(())),
        ConnectionState::Connecting => None,
        _ => Some(Err(CallError::Connection)),
    }
}


/// The incoming video subscriptions kept for one participant.
#[derive(Debug, Clone, Default)]
pub struct VideoSubs {
    pub camera_endpoint: Option<String>,
    pub presentation_endpoint: Option<String>,
}

/// Which of a participant's two video sources.
#[derive(Debug, Clone, Copy, PartialEq, Eq, Structural)]
pub enum VideoKind {
    Camera,
    Presentation,
}

/// The text of an optional string.
pub open spec fn opt_text(o: Option<String>) -> Option<Seq<char>> {
    match o {
        Some(s) => Some(s@),
        None => None,
    }
}

/// A participant's subscribed endpoints, camera first.
pub type SubsView = (Option<Seq<char>>, Option<Seq<char>>);

pub open spec fn subs_view(s: VideoSubs) -> SubsView {
    (opt_text(s.camera_endpoint), opt_text(s.presentation_endpoint))
}

pub open spec fn endpoint_of(v: SubsView, kind: VideoKind) -> Option<Seq<char>> {
    match kind {
        VideoKind::Camera => v.0,
        VideoKind::Presentation => v.1,
    }
}

pub open spec fn with_endpoint(v: SubsView, kind: VideoKind, e: Option<Seq<char>>) -> SubsView {
    match kind {
        VideoKind::Camera => (e, v.1),
        VideoKind::Presentation => (v.0, e),
    }
}

/// The endpoint subscribed for `user`'s `kind` of video, if any.
pub open spec fn subscribed(
    subs: Map<i64, SubsView>,
    user_id: i64,
    kind: VideoKind,
) -> Option<Seq<char>> {
    if subs.contains_key(user_id) {
        endpoint_of(subs[user_id], kind)
    } else {
        None
    }
}

fn copy_opt(o: &Option<String>) -> (r: Option<String>)
    ensures
        r == *o,
{
    match o {
        Some(s) => Some(s.clone()),
        None => None,
    }
}

fn same_text(a: &Option<String>, b: &Option<String>) -> (r: bool)
    ensures
        r == (opt_text(*a) == opt_text(*b)),
{
    match (a, b) {
        (Some(x), Some(y)) => *x == *y,
        (None, None) => true,
        _ => false,
    }
}

/// What leaving a joined call involves.
pub struct LeavePlan {
    /// A presentation was running when the leave began.
    pub stop_presentation: bool,
    /// The group call to tell Telegram we leave.
    pub call: Option<GroupCallRef>,
}

/// What to do about one participant of an update.
#[derive(Debug)]
pub enum ParticipantStep {
    /// The peer is not a user: nothing to do.
    Skip,
    /// Our own participant changed: report the event and go on.
    Report(CallEvent),
    /// We were removed: report the event, then `CallEvent::Left`, and stop;
    /// the call is already back to `Idle`.
    SelfLeft(CallEvent),
    /// Another user changed: report the event, then bring the camera and
    /// presentation subscriptions in line with what the user now sends.
    Sync {
        event: CallEvent,
        user_id: i64,
        camera: Option<VideoWant>,
        presentation: Option<VideoWant>,
    },
}

/// Whether a participant ends an update: it is our own departure.
pub open spec fn ends_update(p: Participant) -> bool {
    p.user_id is Some && p.is_self && p.left
}

/// Whether `r` is the step participant `p` calls for: nothing for a peer
/// that is not a user; for a user, its event, and for another user the
/// video it now sends (none once it left).
pub open spec fn step_matches(r: ParticipantStep, p: Participant) -> bool {
    match p.user_id {
        None => r is Skip,
        Some(uid) => {
            let ev = CallEvent::ParticipantUpdate {
                user_id: uid,
                action: spec_participant_action(p),
                is_self: p.is_self,
            };
            if p.is_self && p.left {
                r == ParticipantStep::SelfLeft(ev)
            } else if p.is_self {
                r == ParticipantStep::Report(ev)
            } else {
                &&& r matches ParticipantStep::Sync { event, user_id, camera, presentation }
                &&& event == ev
                &&& user_id == uid
                &&& p.left ==> camera is None && presentation is None
                &&& !p.left ==> want_matches(camera, p.video) && want_matches(
                    presentation,
                    p.presentation,
                )
            }
        },
    }
}

/// Where an update stops: the first of our own departures from position
/// `i` on, or the end.
pub open spec fn first_end(ps: Seq<Participant>, i: int) -> int
    decreases ps.len() - i,
{
    if i < 0 || i >= ps.len() {
        ps.len() as int
    } else if ends_update(ps[i]) {
        i
    } else {
        first_end(ps, i + 1)
    }
}

/// How to bring one subscription in line with what is wanted.
#[derive(Debug)]
pub enum VideoSyncPlan {
    /// Already subscribed to the wanted endpoint (or to none, as wanted).
    Unchanged,
    /// Unsubscribe from `remove` if present, then subscribe to the wanted
    /// endpoint (reporting with `video_added`) or record that none is
    /// wanted (`video_cleared`).
    Replace { remove: Option<String> },
}

/// How a new track reaches a chat's call.
#[derive(Debug, Clone, Copy, PartialEq, Eq, Structural)]
pub enum TrackStart {
    /// The call is joined: switch its sources to the track.
    SwitchSources,
    /// The call is not joined: join with the track, starting a voice chat
    /// when none runs.
    JoinWith,
}

/// One chat's group call.
pub struct Call {
    chat_id: i64,
    state: CallState,
    active_call: Option<GroupCallRef>,
    presentation_active: bool,
    video_subs: HashMap<i64, VideoSubs>,
}

impl Call {
    pub closed spec fn spec_chat_id(&self) -> i64 {
        self.chat_id
    }

    pub closed spec fn spec_state(&self) -> CallState {
        self.state
    }

    pub closed spec fn spec_active_call(&self) -> Option<GroupCallRef> {
        self.active_call
    }

    pub closed spec fn spec_presentation_active(&self) -> bool {
        self.presentation_active
    }

    /// The incoming-video subscriptions, per user.
    pub closed spec fn subscriptions(&self) -> Map<i64, SubsView> {
        self.video_subs@.map_values(|s: VideoSubs| subs_view(s))
    }

    /// A joined call knows its group call; every tracked user has at least
    /// one subscribed endpoint.
    pub closed spec fn inv(&self) -> bool {
        &&& self.chat_id != i64::MIN
        &&& self.state == CallState::Joined ==> self.active_call is Some
        &&& forall|u: i64| #[trigger]
            self.subscriptions().contains_key(u) ==> (self.subscriptions()[u].0 is Some
                || self.subscriptions()[u].1 is Some)
    }

    /// A fresh, idle call for `chat_id`.
    pub fn new(chat_id: i64) -> (r: Call)
        requires
            chat_id != i64::MIN,
        ensures
            r.inv(),
            r.spec_chat_id() == chat_id,
            r.spec_state() == CallState::Idle,
            r.spec_active_call() is None,
            !r.spec_presentation_active(),
            r.subscriptions() == Map::<i64, SubsView>::empty(),
    {
        let r = Call {
            chat_id,
            state: CallState::Idle,
            active_call: None,
            presentation_active: false,
            video_subs: HashMap::new(),
        };
        assert(r.subscriptions() =~= Map::<i64, SubsView>::empty());
        r
    }

    pub fn chat_id(&self) -> (r: i64)
        ensures
            r == self.spec_chat_id(),
    {
        self.chat_id
    }

    /// The engine's id for this call's chat.
    pub fn ntg_id(&self) -> (r: i64)
        requires
            self.inv(),
        ensures
            r == spec_ntg_chat_id(self.spec_chat_id() as int),
    {
        ntg_chat_id(self.chat_id)
    }

    pub fn state(&self) -> (r: CallState)
        ensures
            r == self.spec_state(),
    {
        self.state
    }

    pub fn is_joined(&self) -> (r: bool)
        ensures
            r == (self.spec_state() == CallState::Joined),
    {
        self.state == CallState::Joined
    }

    /// Playing (or seeking in) a track switches a joined call's sources,
    /// and joins with the track otherwise.
    pub fn track_start(&self) -> (r: TrackStart)
        ensures
            r == (if self.spec_state() == CallState::Joined {
                TrackStart::SwitchSources
            } else {
                TrackStart::JoinWith
            }),
    {
        if self.state == CallState::Joined {
            TrackStart::SwitchSources
        } else {
            TrackStart::JoinWith
        }
    }

    /// Recording needs a joined call: one that is not joined first joins
    /// silently (with no sources).
    pub fn record_needs_silent_join(&self) -> (r: bool)
        ensures
            r == (self.spec_state() != CallState::Joined),
    {
        self.state != CallState::Joined
    }

    pub fn is_presentation_active(&self) -> (r: bool)
        ensures
            r == self.spec_presentation_active(),
    {
        self.presentation_active
    }

    /// The active group call's raw id, used to route Telegram's updates to
    /// the right chat; `None` when not joined.
    pub fn group_call_id(&self) -> (r: Option<i64>)
        ensures
            r == match self.spec_active_call() {
                Some(c) => c.spec_id(),
                None => None,
            },
    {
        match &self.active_call {
            Some(c) => c.id(),
            None => None,
        }
    }

    /// Whether a participants update for `call` is this call's: only a
    /// reference by id can match, and only this call's id.
    pub fn is_update_for(&self, call: &GroupCallRef) -> (r: bool)
        ensures
            r == (call.spec_id() is Some && match self.spec_active_call() {
                Some(c) => c.spec_id() == call.spec_id(),
                None => false,
            }),
    {
        match call.id() {
            Some(id) => self.group_call_id() == Some(id),
            None => false,
        }
    }

    /// `Ok` exactly when joined; `NotJoined` otherwise.
    pub fn require_joined(&self) -> (r: Result<(), TgCallsError>)
        ensures
            r is Ok <==> self.spec_state() == CallState::Joined,
            r matches Err(e) ==> e is NotJoined,
    {
        if self.state != CallState::Joined {
            return Err(TgCallsError::NotJoined);
        }
        Ok(())
    }

    /// The joined call's group call, for requests that act on it.
    pub fn joined_call(&self) -> (r: Result<GroupCallRef, TgCallsError>)
        requires
            self.inv(),
        ensures
            r is Ok <==> self.spec_state() == CallState::Joined,
            r matches Ok(c) ==> self.spec_active_call() == Some(c),
            r matches Err(e) ==> e is NotJoined,
    {
        self.require_joined()?;
        match &self.active_call {
            Some(c) => Ok(c.duplicate()),
            None => Err(TgCallsError::NotJoined),
        }
    }

    /// Joining starts only from `Idle`; otherwise `AlreadyJoined`.
    pub fn begin_join(&self) -> (r: Result<(), TgCallsError>)
        ensures
            r is Ok <==> self.spec_state() == CallState::Idle,
            r matches Err(e) ==> e is AlreadyJoined,
    {
        if self.state != CallState::Idle {
            return Err(TgCallsError::AlreadyJoined);
        }
        Ok(())
    }

    /// A join attempt starts: the call is `Joining`.
    pub fn begin_attempt(&mut self)
        requires
            old(self).inv(),
        ensures
            final(self).inv(),
            final(self).spec_state() == CallState::Joining,
            final(self).spec_chat_id() == old(self).spec_chat_id(),
            final(self).spec_active_call() == old(self).spec_active_call(),
            final(self).spec_presentation_active() == old(self).spec_presentation_active(),
            final(self).subscriptions() == old(self).subscriptions(),
    {
        self.state = CallState::Joining;
    }

    /// A join attempt failed with `err` after `retries_done` retries. The
    /// answer is the delay before the next attempt, or `None` to give up
    /// with `err`. Either way the call is back to `Idle`; a retry also
    /// forgets the group call.
    pub fn attempt_failed(&mut self, err: &TgCallsError, retries_done: u32) -> (r: Option<u64>)
        requires
            old(self).inv(),
        ensures
            final(self).inv(),
            r == spec_join_retry(*err, retries_done),
            final(self).spec_state() == CallState::Idle,
            r is Some ==> final(self).spec_active_call() is None,
            r is None ==> final(self).spec_active_call() == old(self).spec_active_call(),
            final(self).spec_chat_id() == old(self).spec_chat_id(),
            final(self).spec_presentation_active() == old(self).spec_presentation_active(),
            final(self).subscriptions() == old(self).subscriptions(),
    {
        let delay = join_retry_delay_ms(err, retries_done);
        self.state = CallState::Idle;
        if delay.is_some() {
            self.active_call = None;
        }
        delay
    }

    /// The join went through on `call`: the call is `Joined`.
    pub fn attempt_succeeded(&mut self, call: GroupCallRef)
        requires
            old(self).inv(),
        ensures
            final(self).inv(),
            final(self).spec_state() == CallState::Joined,
            final(self).spec_active_call() == Some(call),
            final(self).spec_chat_id() == old(self).spec_chat_id(),
            final(self).spec_presentation_active() == old(self).spec_presentation_active(),
            final(self).subscriptions() == old(self).subscriptions(),
    {
        self.active_call = Some(call);
        self.state = CallState::Joined;
    }

    /// Leaving starts only from `Joined` (else `NotJoined`, unchanged): the
    /// call becomes `Leaving` and hands over its group call.
    pub fn begin_leave(&mut self) -> (r: Result<LeavePlan, TgCallsError>)
        requires
            old(self).inv(),
        ensures
            final(self).inv(),
            r is Ok <==> old(self).spec_state() == CallState::Joined,
            r matches Err(e) ==> e is NotJoined && *final(self) == *old(self),
            r matches Ok(plan) ==> {
                &&& plan.stop_presentation == old(self).spec_presentation_active()
                &&& plan.call == old(self).spec_active_call()
                &&& final(self).spec_state() == CallState::Leaving
                &&& final(self).spec_active_call() is None
                &&& final(self).spec_chat_id() == old(self).spec_chat_id()
                &&& final(self).spec_presentation_active() == old(self).spec_presentation_active()
                &&& final(self).subscriptions() == old(self).subscriptions()
            },
    {
        if self.state != CallState::Joined {
            return Err(TgCallsError::NotJoined);
        }
        self.state = CallState::Leaving;
        let call = self.active_call.take();
        Ok(LeavePlan { stop_presentation: self.presentation_active, call })
    }

    /// The leave is over, whatever Telegram answered: the subscriptions are
    /// dropped and the call is `Idle`, ready to join again.
    pub fn finish_leave(&mut self)
        requires
            old(self).inv(),
        ensures
            final(self).inv(),
            final(self).spec_state() == CallState::Idle,
            final(self).subscriptions() == Map::<i64, SubsView>::empty(),
            final(self).spec_chat_id() == old(self).spec_chat_id(),
            final(self).spec_active_call() == old(self).spec_active_call(),
            final(self).spec_presentation_active() == old(self).spec_presentation_active(),
    {
        self.video_subs.clear();
        self.state = CallState::Idle;
        assert(self.subscriptions() =~= Map::<i64, SubsView>::empty());
    }

    /// A screen share starts only on a joined call without one running:
    /// `NotJoined`, else `AlreadyJoined`, else the group call to present in.
    pub fn begin_presentation(&self) -> (r: Result<GroupCallRef, TgCallsError>)
        requires
            self.inv(),
        ensures
            self.spec_state() != CallState::Joined ==> (r matches Err(e) && e is NotJoined),
            self.spec_state() == CallState::Joined && self.spec_presentation_active() ==> (r matches Err(
                e,
            ) && e is AlreadyJoined),
            self.spec_state() == CallState::Joined && !self.spec_presentation_active() ==> (r
                matches Ok(c) && self.spec_active_call() == Some(c)),
    {
        self.require_joined()?;
        if self.presentation_active {
            return Err(TgCallsError::AlreadyJoined);
        }
        self.joined_call()
    }

    /// The screen share is running.
    pub fn presentation_started(&mut self)
        requires
            old(self).inv(),
        ensures
            final(self).inv(),
            final(self).spec_presentation_active(),
            final(self).spec_state() == old(self).spec_state(),
            final(self).spec_chat_id() == old(self).spec_chat_id(),
            final(self).spec_active_call() == old(self).spec_active_call(),
            final(self).subscriptions() == old(self).subscriptions(),
    {
        self.presentation_active = true;
    }

    /// Stopping a screen share needs a joined call (`NotJoined`); with none
    /// running there is nothing to do (`Ok(None)`); else the group call to
    /// stop presenting in.
    pub fn begin_stop_presentation(&self) -> (r: Result<Option<GroupCallRef>, TgCallsError>)
        requires
            self.inv(),
        ensures
            self.spec_state() != CallState::Joined ==> (r matches Err(e) && e is NotJoined),
            self.spec_state() == CallState::Joined && !self.spec_presentation_active() ==> r
                == Ok::<Option<GroupCallRef>, TgCallsError>(None),
            self.spec_state() == CallState::Joined && self.spec_presentation_active() ==> (r
                matches Ok(Some(c)) && self.spec_active_call() == Some(c)),
    {
        self.require_joined()?;
        if !self.presentation_active {
            return Ok(None);
        }
        let c = self.joined_call()?;
        Ok(Some(c))
    }

    /// The screen share is over, whatever Telegram answered.
    pub fn presentation_stopped(&mut self)
        requires
            old(self).inv(),
        ensures
            final(self).inv(),
            !final(self).spec_presentation_active(),
            final(self).spec_state() == old(self).spec_state(),
            final(self).spec_chat_id() == old(self).spec_chat_id(),
            final(self).spec_active_call() == old(self).spec_active_call(),
            final(self).subscriptions() == old(self).subscriptions(),
    {
        self.presentation_active = false;
    }

    /// The voice chat `discarded_id` was ended for everyone. When it is
    /// this call's, the answer is `Ended` and the call is reset to `Idle`;
    /// otherwise nothing changes.
    pub fn handle_call_ended(&mut self, discarded_id: i64) -> (r: Option<CallEvent>)
        requires
            old(self).inv(),
        ensures
            final(self).inv(),
            ({
                let mine = old(self).spec_active_call() matches Some(c) && c.spec_id() == Some(
                    discarded_id,
                );
                &&& mine ==> r == Some(CallEvent::Ended) && final(self).spec_state()
                    == CallState::Idle && final(self).spec_active_call() is None
                &&& !mine ==> r is None && *final(self) == *old(self)
            }),
            final(self).spec_chat_id() == old(self).spec_chat_id(),
            final(self).spec_presentation_active() == old(self).spec_presentation_active(),
            final(self).subscriptions() == old(self).subscriptions(),
    {
        if self.group_call_id() != Some(discarded_id) {
            return None;
        }
        self.state = CallState::Idle;
        self.active_call = None;
        Some(CallEvent::Ended)
    }

    /// Decides about one participant of an update (to be called while
    /// joined, participant by participant, stopping after `SelfLeft`).
    pub fn on_participant(&mut self, p: &Participant) -> (r: ParticipantStep)
        requires
            old(self).inv(),
        ensures
            final(self).inv(),
            final(self).spec_chat_id() == old(self).spec_chat_id(),
            final(self).spec_presentation_active() == old(self).spec_presentation_active(),
            final(self).subscriptions() == old(self).subscriptions(),
            step_matches(r, *p),
            ends_update(*p) ==> final(self).spec_state() == CallState::Idle
                && final(self).spec_active_call() is None,
            !ends_update(*p) ==> *final(self) == *old(self),
    {
        let uid = match p.user_id {
            Some(u) => u,
            None => return ParticipantStep::Skip,
        };
        let event = CallEvent::ParticipantUpdate {
            user_id: uid,
            action: participant_action(p),
            is_self: p.is_self,
        };
        if p.is_self {
            if p.left {
                self.state = CallState::Idle;
                self.active_call = None;
                return ParticipantStep::SelfLeft(event);
            }
            return ParticipantStep::Report(event);
        }
        let camera = if p.left {
            None
        } else {
            extract_video(&p.video)
        };
        let presentation = if p.left {
            None
        } else {
            extract_video(&p.presentation)
        };
        ParticipantStep::Sync { event, user_id: uid, camera, presentation }
    }

    /// The steps a participants update calls for. A call that is not joined
    /// takes none and does not change. A joined call takes one step per
    /// participant, in order, up to and including our own departure, which
    /// ends the update (later participants are not looked at) and returns
    /// the call to `Idle`.
    pub fn participants_update(&mut self, ps: &Vec<Participant>) -> (steps: Vec<ParticipantStep>)
        requires
            old(self).inv(),
        ensures
            final(self).inv(),
            final(self).spec_chat_id() == old(self).spec_chat_id(),
            final(self).spec_presentation_active() == old(self).spec_presentation_active(),
            final(self).subscriptions() == old(self).subscriptions(),
            old(self).spec_state() != CallState::Joined ==> steps@.len() == 0 && *final(self)
                == *old(self),
            old(self).spec_state() == CallState::Joined ==> {
                let end = first_end(ps@, 0);
                &&& steps@.len() == (if end < ps@.len() {
                    end + 1
                } else {
                    end
                })
                &&& forall|i: int| 0 <= i < steps@.len() ==> step_matches(#[trigger] steps@[i], ps@[i])
                &&& end < ps@.len() ==> final(self).spec_state() == CallState::Idle
                    && final(self).spec_active_call() is None
                &&& end == ps@.len() ==> *final(self) == *old(self)
            },
    {
        let mut steps: Vec<ParticipantStep> = Vec::new();
        if self.state != CallState::Joined {
            return steps;
        }
        let mut i: usize = 0;
        while i < ps.len()
            invariant
                i <= ps.len(),
                self.inv(),
                *self == *old(self),
                old(self).spec_state() == CallState::Joined,
                steps@.len() == i,
                forall|k: int| 0 <= k < i ==> step_matches(#[trigger] steps@[k], ps@[k]),
                first_end(ps@, 0) == first_end(ps@, i as int),
            decreases ps.len() - i,
        {
            let step = self.on_participant(&ps[i]);
            let done = match &step {
                ParticipantStep::SelfLeft(_) => true,
                _ => false,
            };
            steps.push(step);
            if done {
                assert(ends_update(ps@[i as int]));
                return steps;
            }
            assert(!ends_update(ps@[i as int]));
            i = i + 1;
        }
        steps
    }

    /// Compares what `user_id`'s `kind` of video is subscribed to with what
    /// is wanted: nothing to do when they agree, else replace.
    pub fn plan_video_sync(&self, user_id: i64, kind: VideoKind, wanted: &Option<VideoWant>) -> (r:
        VideoSyncPlan)
        ensures
            ({
                let current = subscribed(self.subscriptions(), user_id, kind);
                let want = match wanted {
                    Some(w) => Some(w.endpoint@),
                    None => None,
                };
                &&& current == want ==> r is Unchanged
                &&& current != want ==> (r matches VideoSyncPlan::Replace { remove } && opt_text(
                    remove,
                ) == current)
            }),
    {
        let current: Option<String> = match self.video_subs.get(&user_id) {
            Some(e) => match kind {
                VideoKind::Camera => copy_opt(&e.camera_endpoint),
                VideoKind::Presentation => copy_opt(&e.presentation_endpoint),
            },
            None => None,
        };
        let wanted_endpoint: Option<String> = match wanted {
            Some(w) => Some(w.endpoint.clone()),
            None => None,
        };
        if same_text(&current, &wanted_endpoint) {
            VideoSyncPlan::Unchanged
        } else {
            VideoSyncPlan::Replace { remove: current }
        }
    }

    /// `user_id`'s `kind` of video is now subscribed to `endpoint`.
    pub fn video_added(&mut self, user_id: i64, kind: VideoKind, endpoint: String)
        requires
            old(self).inv(),
        ensures
            final(self).inv(),
            ({
                let old_subs = old(self).subscriptions();
                let base = if old_subs.contains_key(user_id) {
                    old_subs[user_id]
                } else {
                    (None, None)
                };
                final(self).subscriptions() == old_subs.insert(
                    user_id,
                    with_endpoint(base, kind, Some(endpoint@)),
                )
            }),
            final(self).spec_state() == old(self).spec_state(),
            final(self).spec_chat_id() == old(self).spec_chat_id(),
            final(self).spec_active_call() == old(self).spec_active_call(),
            final(self).spec_presentation_active() == old(self).spec_presentation_active(),
    {
        let mut entry = match self.video_subs.get(&user_id) {
            Some(e) => VideoSubs {
                camera_endpoint: copy_opt(&e.camera_endpoint),
                presentation_endpoint: copy_opt(&e.presentation_endpoint),
            },
            None => VideoSubs { camera_endpoint: None, presentation_endpoint: None },
        };
        let ghost e_view = endpoint@;
        match kind {
            VideoKind::Camera => entry.camera_endpoint = Some(endpoint),
            VideoKind::Presentation => entry.presentation_endpoint = Some(endpoint),
        }
        let ghost old_subs = self.subscriptions();
        self.video_subs.insert(user_id, entry);
        proof {
            let base = if old_subs.contains_key(user_id) {
                old_subs[user_id]
            } else {
                (None, None)
            };
            assert(self.subscriptions() =~= old_subs.insert(
                user_id,
                with_endpoint(base, kind, Some(e_view)),
            ));
        }
    }

    /// `user_id`'s `kind` of video is no longer subscribed; a user left
    /// with no subscription at all is dropped from the table.
    pub fn video_cleared(&mut self, user_id: i64, kind: VideoKind)
        requires
            old(self).inv(),
        ensures
            final(self).inv(),
            ({
                let old_subs = old(self).subscriptions();
                if old_subs.contains_key(user_id) {
                    let cleared = with_endpoint(old_subs[user_id], kind, None);
                    if cleared.0 is None && cleared.1 is None {
                        final(self).subscriptions() == old_subs.remove(user_id)
                    } else {
                        final(self).subscriptions() == old_subs.insert(user_id, cleared)
                    }
                } else {
                    final(self).subscriptions() == old_subs
                }
            }),
            final(self).spec_state() == old(self).spec_state(),
            final(self).spec_chat_id() == old(self).spec_chat_id(),
            final(self).spec_active_call() == old(self).spec_active_call(),
            final(self).spec_presentation_active() == old(self).spec_presentation_active(),
    {
        let ghost old_subs = self.subscriptions();
        let entry = match self.video_subs.get(&user_id) {
            Some(e) => {
                let mut entry = VideoSubs {
                    camera_endpoint: copy_opt(&e.camera_endpoint),
                    presentation_endpoint: copy_opt(&e.presentation_endpoint),
                };
                match kind {
                    VideoKind::Camera => entry.camera_endpoint = None,
                    VideoKind::Presentation => entry.presentation_endpoint = None,
                }
                entry
            },
            None => return ,
        };
        if entry.camera_endpoint.is_none() && entry.presentation_endpoint.is_none() {
            self.video_subs.remove(&user_id);
            assert(self.subscriptions() =~= old_subs.remove(user_id));
        } else {
            self.video_subs.insert(user_id, entry);
            assert(self.subscriptions() =~= old_subs.insert(
                user_id,
                with_endpoint(old_subs[user_id], kind, None),
            ));
        }
    }
}

/// The subscription table never keeps a user with no subscribed endpoint.
pub proof fn subscriptions_hold_endpoints(c: &Call, user_id: i64)
    requires
        c.inv(),
        c.subscriptions().contains_key(user_id),
    ensures
        c.subscriptions()[user_id].0 is Some || c.subscriptions()[user_id].1 is Some,
{
}

/// A join is retried at most `JOIN_MAX_RETRIES` times, and each wait is
/// twice the one before.
pub proof fn join_retries_are_bounded(err: TgCallsError, retries_done: u32)
    ensures
        retries_done >= JOIN_MAX_RETRIES ==> spec_join_retry(err, retries_done) is None,
        backoff_ms((retries_done + 1) as nat) == 2 * backoff_ms(retries_done as nat),
        backoff_ms(0) == 500,
{
}

/// Once a subscription for an endpoint is recorded, planning the same
/// endpoint again changes nothing, and the other kind of video keeps its
/// subscription.
pub proof fn recorded_subscription_settles(
    subs: Map<i64, SubsView>,
    user_id: i64,
    kind: VideoKind,
    endpoint: Seq<char>,
)
    ensures
        ({
            let base = if subs.contains_key(user_id) {
                subs[user_id]
            } else {
                (None, None)
            };
            let after = subs.insert(user_id, with_endpoint(base, kind, Some(endpoint)));
            &&& subscribed(after, user_id, kind) == Some(endpoint)
            &&& forall|other: VideoKind| other != kind ==> subscribed(after, user_id, other)
                == subscribed(subs, user_id, other)
        }),
{
}

/// A joined call always knows the group call it is joined to.
pub proof fn joined_call_has_group_call(c: &Call)
    requires
        c.inv(),
        c.spec_state() == CallState::Joined,
    ensures
        c.spec_active_call() is Some,
{
}

/// Only a connection still being set up leaves a join waiting: an
/// established one lets the join go on, and one that timed out, failed or
/// closed fails the join with a connection error.
pub proof fn only_connecting_keeps_a_join_waiting(state: ConnectionState)
    ensures
        spec_connect_outcome(state) is None <==> state == ConnectionState::Connecting,
        state == ConnectionState::Connected ==> spec_connect_outcome(state) == Some(
            Ok::<(), CallError>(()),
        ),
        state == ConnectionState::Timeout || state == ConnectionState::Failed || state
            == ConnectionState::Closed ==> spec_connect_outcome(state) == Some(
            Err::<(), CallError>(CallError::Connection),
        ),
{
}

/// A participant is reported by its flags: one that just joined is
/// `Joined` whatever else it says, one that left is `Left`, and any other
/// change is `Updated`.
pub proof fn participant_action_follows_its_flags(p: Participant)
    ensures
        p.just_joined ==> spec_participant_action(p) == ParticipantAction::Joined,
        !p.just_joined && p.left ==> spec_participant_action(p) == ParticipantAction::Left,
        !p.just_joined && !p.left ==> spec_participant_action(p) == ParticipantAction::Updated,
{
}

/// A paused or absent video is never subscribed to; a live one is
/// subscribed to at its own endpoint, with one SSRC group per source group
/// and the same sources in each.
pub proof fn only_live_video_is_wanted(w: Option<VideoWant>, v: Option<ParticipantVideo>)
    requires
        want_matches(w, v),
    ensures
        w is None <==> (v is None || (v matches Some(video) && video.paused)),
        w matches Some(want) ==> (v matches Some(video) && want.endpoint@ == video.endpoint@
            && want.groups@.len() == video.source_groups@.len() && forall|i: int|
            0 <= i < want.groups@.len() ==> (#[trigger] want.groups@[i]).ssrcs@.len()
                == video.source_groups@[i].sources@.len()),
{
}

} // verus!
