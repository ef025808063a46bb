//! End-to-end encrypted conference calls: the conference's lifecycle, how
//! a start request identifies the conference, the key it needs, and the
//! invitations and migrations that lead into one.

use vstd::prelude::*;

use crate::call::{GroupCallRef, Participant};
use crate::enums::{StreamDevice, StreamMode, StreamType};
use crate::errors::TgCallsError;
use crate::media::{media_has_video, spec_has_video};
use crate::p2p::DiscardReason;
use crate::structures::{copy_bytes, Frame, MediaDescription, RemoteSource, SsrcMapping};
use crate::text::{decimal, push_decimal};

verus! {

#[derive(Debug, Clone, Copy, PartialEq, Eq, Structural)]
pub enum ConferenceState {
    Idle,
    Joining,
    Joined,
    Leaving,
}

/// Everything a client might want to react to about a conference.
#[derive(Debug, Clone)]
pub enum ConferenceEvent {
    /// A stream (or a recording target) reached its end.
    StreamEnded(StreamType, StreamDevice),
    /// The verification emoji fingerprint changed; compare it with the
    /// other participants out of band.
    FingerprintUpdated(String),
    /// You were removed from (or otherwise left) the conference.
    Left,
    /// The participant set changed.
    ParticipantsChanged,
    /// Raw decoded media frames (`Capture`: your own; `Playback`: others').
    Frames { mode: StreamMode, device: StreamDevice, frames: Vec<Frame> },
    /// A participant's media source appeared, changed state, or left.
    RemoteSourceChanged(RemoteSource),
}

/// What to do when starting a conference.
#[derive(Debug, Clone)]
pub enum ConferenceTarget {
    /// Start a new conference in this chat and ring everyone in `invite`.
    Create { invite: Vec<i64> },
    /// Join (or rejoin) the conference linked to this chat, resuming after
    /// `last_block` when given.
    Join { last_block: Option<Vec<u8>> },
    /// Join by a conference link's slug.
    JoinBySlug { slug: String, last_block: Option<Vec<u8>> },
    /// Join by the id of the message that invited us.
    JoinByInviteMessage { msg_id: i32, last_block: Option<Vec<u8>> },
}

/// The chain block a start resumes after: the one a join names; a new
/// conference has none.
pub open spec fn spec_last_block(t: ConferenceTarget) -> Option<Seq<u8>> {
    match t {
        ConferenceTarget::Create { .. } => None,
        ConferenceTarget::Join { last_block } | ConferenceTarget::JoinBySlug { last_block, .. }
        | ConferenceTarget::JoinByInviteMessage { last_block, .. } => match last_block {
            Some(b) => Some(b@),
            None => None,
        },
    }
}

fn copy_block(b: &Option<Vec<u8>>) -> (r: Option<Vec<u8>>)
    ensures
        match (r, *b) {
            (Some(x), Some(y)) => x@ == y@,
            (None, None) => true,
            _ => false,
        },
{
    match b {
        Some(v) => Some(copy_bytes(v)),
        None => None,
    }
}

pub fn last_block(t: &ConferenceTarget) -> (r: Option<Vec<u8>>)
    ensures
        match (r, spec_last_block(*t)) {
            (Some(x), Some(y)) => x@ == y,
            (None, None) => true,
            _ => false,
        },
{
    match t {
        ConferenceTarget::Create { .. } => None,
        ConferenceTarget::Join { last_block } | ConferenceTarget::JoinBySlug { last_block, .. }
        | ConferenceTarget::JoinByInviteMessage { last_block, .. } => copy_block(last_block),
    }
}

/// The bytes of an optional block.
pub open spec fn block_bytes(b: Option<Vec<u8>>) -> Option<Seq<u8>> {
    match b {
        Some(v) => Some(v@),
        None => None,
    }
}

/// Every join resumes after the chain block it names, whichever way it
/// names the conference, and creating one resumes after none; so joining an
/// invitation resumes after the block handed to `ConferenceInvite::target`.
pub proof fn joins_resume_after_their_block(
    t: ConferenceTarget,
    msg_id: i32,
    block: Option<Vec<u8>>,
)
    ensures
        t is Create ==> spec_last_block(t) is None,
        t matches ConferenceTarget::Join { last_block } ==> spec_last_block(t) == block_bytes(
            last_block,
        ),
        t matches ConferenceTarget::JoinBySlug { last_block, .. } ==> spec_last_block(t)
            == block_bytes(last_block),
        t matches ConferenceTarget::JoinByInviteMessage { last_block, .. } ==> spec_last_block(t)
            == block_bytes(last_block),
        spec_last_block(ConferenceTarget::JoinByInviteMessage { msg_id, last_block: block })
            == block_bytes(block),
{
}

/// How a join names the conference without a lookup: by slug or by invite
/// message. Creating, and joining by chat, name none.
pub open spec fn spec_named_call(t: ConferenceTarget) -> Option<GroupCallRef> {
    match t {
        ConferenceTarget::JoinBySlug { slug, .. } => Some(GroupCallRef::Slug(slug)),
        ConferenceTarget::JoinByInviteMessage { msg_id, .. } => Some(
            GroupCallRef::InviteMessage(msg_id),
        ),
        _ => None,
    }
}

pub fn named_call(t: &ConferenceTarget) -> (r: Option<GroupCallRef>)
    ensures
        r == spec_named_call(*t),
{
    match t {
        ConferenceTarget::JoinBySlug { slug, .. } => Some(GroupCallRef::Slug(slug.clone())),
        ConferenceTarget::JoinByInviteMessage { msg_id, .. } => Some(
            GroupCallRef::InviteMessage(*msg_id),
        ),
        _ => None,
    }
}

/// The error for a public key that is not 32 bytes long.
pub open spec fn key_length_error(len: nat) -> Seq<char> {
    "conference public key was "@ + decimal(len) + " bytes, expected 32"@
}

/// A conference public key must be exactly 32 bytes.
pub fn public_key_array(bytes: &[u8]) -> (r: Result<[u8; 32], TgCallsError>)
    ensures
        bytes@.len() == 32 <==> r is Ok,
        r matches Ok(key) ==> key@ == bytes@,
        r matches Err(e) ==> (e matches TgCallsError::TransportParse(m) && m@ == key_length_error(
            bytes@.len(),
        )),
{
    if bytes.len() != 32 {
        let mut m = String::from_str("conference public key was ");
        push_decimal(&mut m, bytes.len() as u64);
        m.append(" bytes, expected 32");
        assert(m@ =~= key_length_error(bytes@.len()));
        return Err(TgCallsError::TransportParse(m));
    }
    let mut key = [0u8; 32];
    let mut i: usize = 0;
    while i < 32
        invariant
            bytes@.len() == 32,
            i <= 32,
            key@.len() == 32,
            forall|k: int| 0 <= k < i ==> key@[k] == bytes@[k],
        decreases 32 - i,
    {
        key.set(i, bytes[i]);
        i = i + 1;
    }
    assert(key@ =~= bytes@);
    Ok(key)
}

/// The SSRC-to-user mapping of the participants that are users.
pub open spec fn mappings_match(ps: Seq<Participant>, ms: Seq<SsrcMapping>) -> bool
    decreases ps.len(),
{
    if ps.len() == 0 {
        ms.len() == 0
    } else {
        match ps.last().user_id {
            Some(u) => ms.len() > 0 && ms.last() == (SsrcMapping { user_id: u, ssrc: ps.last().source })
                && mappings_match(ps.drop_last(), ms.drop_last()),
            None => mappings_match(ps.drop_last(), ms),
        }
    }
}

pub fn ssrc_mappings(participants: &Vec<Participant>) -> (r: Vec<SsrcMapping>)
    ensures
        mappings_match(participants@, r@),
{
    let mut r: Vec<SsrcMapping> = Vec::new();
    let mut i: usize = 0;
    while i < participants.len()
        invariant
            i <= participants.len(),
            mappings_match(participants@.subrange(0, i as int), r@),
        decreases participants.len() - i,
    {
        let ghost before = r@;
        let p = &participants[i];
        match p.user_id {
            Some(u) => {
                r.push(SsrcMapping { user_id: u, ssrc: p.source });
                assert(r@.drop_last() =~= before);
            },
            None => {},
        }
        i = i + 1;
        assert(participants@.subrange(0, i as int).drop_last() =~= participants@.subrange(
            0,
            i - 1,
        ));
    }
    assert(participants@.subrange(0, i as int) =~= participants@);
    r
}

/// What an operation on a conference session does to its group call.
#[derive(Debug, Clone)]
pub enum SessionOp {
    /// A start begins (`begin_start`).
    BeginStart,
    /// A start succeeded on this call (`start_finished` with `Ok`).
    StartSucceeded(GroupCallRef),
    /// A start failed (`start_finished` with `Err`).
    StartFailed,
    /// New media plays (`playing`).
    Playing,
    /// The conference was left (`left`).
    Left,
}

/// The session's group call after one operation.
pub open spec fn call_after(call: Option<GroupCallRef>, op: SessionOp) -> Option<GroupCallRef> {
    match op {
        SessionOp::StartSucceeded(c) => Some(c),
        SessionOp::Left => None,
        _ => call,
    }
}

/// The session's group call after a run of operations, in order.
pub open spec fn call_after_run(call: Option<GroupCallRef>, ops: Seq<SessionOp>) -> Option<
    GroupCallRef,
>
    decreases ops.len(),
{
    if ops.len() == 0 {
        call
    } else {
        call_after(call_after_run(call, ops.drop_last()), ops.last())
    }
}

/// A conference can only be invited into after a start succeeded: from a
/// session with no call (a new one, or one just left), a run of operations
/// with no successful start still has no call, so `invite_plan` answers
/// `NotJoined`.
pub proof fn invite_needs_successful_start(call: Option<GroupCallRef>, ops: Seq<SessionOp>)
    requires
        call is None,
        forall|i: int| 0 <= i < ops.len() ==> !(#[trigger] ops[i] is StartSucceeded),
    ensures
        call_after_run(call, ops) is None,
    decreases ops.len(),
{
    if ops.len() > 0 {
        let rest = ops.drop_last();
        assert forall|i: int| 0 <= i < rest.len() implies !(#[trigger] rest[i] is StartSucceeded) by {
            assert(rest[i] == ops[i]);
        }
        invite_needs_successful_start(call, rest);
        assert(!(ops[ops.len() - 1] is StartSucceeded));
    }
}

/// One conference's state, kept by its worker.
pub struct ConferenceSession {
    state: ConferenceState,
    active_call: Option<GroupCallRef>,
    has_video: bool,
    invite_link: Option<String>,
    /// The start under way creates the conference (rather than joining).
    creating: bool,
}

/// What a start needs to hand Telegram and the engine.
#[derive(Debug)]
pub struct StartPlan {
    /// Join with video stopped (the media has no camera or screen).
    pub video_stopped: bool,
    /// The chain block to resume after.
    pub last_block: Option<Vec<u8>>,
}

impl ConferenceSession {
    pub closed spec fn spec_state(&self) -> ConferenceState {
        self.state
    }

    pub closed spec fn spec_active_call(&self) -> Option<GroupCallRef> {
        self.active_call
    }

    pub closed spec fn spec_has_video(&self) -> bool {
        self.has_video
    }

    /// The start under way (or the last one begun) creates the conference.
    pub closed spec fn spec_creating(&self) -> bool {
        self.creating
    }

    pub closed spec fn spec_invite_link(&self) -> Option<Seq<char>> {
        match self.invite_link {
            Some(l) => Some(l@),
            None => None,
        }
    }

    pub fn new() -> (r: ConferenceSession)
        ensures
            r.spec_state() == ConferenceState::Idle,
            r.spec_active_call() is None,
            !r.spec_has_video(),
            r.spec_invite_link() is None,
            !r.spec_creating(),
    {
        ConferenceSession {
            state: ConferenceState::Idle,
            active_call: None,
            has_video: false,
            invite_link: None,
            creating: false,
        }
    }

    /// A start begins: whether video is signaled follows the media, and
    /// the session notes whether this start creates the conference.
    pub fn begin_start(&mut self, target: &ConferenceTarget, media: &Option<MediaDescription>) -> (r:
        StartPlan)
        ensures
            final(self).spec_has_video() == spec_has_video(*media),
            r.video_stopped == !spec_has_video(*media),
            match (r.last_block, spec_last_block(*target)) {
                (Some(x), Some(y)) => x@ == y,
                (None, None) => true,
                _ => false,
            },
            final(self).spec_state() == old(self).spec_state(),
            final(self).spec_active_call() == old(self).spec_active_call(),
            final(self).spec_active_call() == call_after(old(self).spec_active_call(), SessionOp::BeginStart),
            final(self).spec_invite_link() == old(self).spec_invite_link(),
            final(self).spec_creating() == (*target is Create),
    {
        self.creating = match target {
            ConferenceTarget::Create { .. } => true,
            _ => false,
        };
        self.has_video = media_has_video(media);
        StartPlan { video_stopped: !self.has_video, last_block: last_block(target) }
    }

    /// The start finished: on success the conference is joined on `call`,
    /// with the invite link Telegram gave when the start created it (a join
    /// never hands one back, so after one there is none); on failure it is
    /// idle and keeps its call and link.
    pub fn start_finished(&mut self, result: Result<(GroupCallRef, Option<String>), TgCallsError>) -> (r:
        Result<(), TgCallsError>)
        ensures
            match result {
                Ok((call, link)) => {
                    &&& r is Ok
                    &&& final(self).spec_state() == ConferenceState::Joined
                    &&& final(self).spec_active_call() == Some(call)
                    &&& final(self).spec_invite_link() == if old(self).spec_creating() {
                        match link {
                            Some(l) => Some(l@),
                            None => None,
                        }
                    } else {
                        None
                    }
                },
                Err(e) => {
                    &&& r == Err::<(), TgCallsError>(e)
                    &&& final(self).spec_state() == ConferenceState::Idle
                    &&& final(self).spec_active_call() == old(self).spec_active_call()
                    &&& final(self).spec_invite_link() == old(self).spec_invite_link()
                },
            },
            final(self).spec_has_video() == old(self).spec_has_video(),
            final(self).spec_creating() == old(self).spec_creating(),
            final(self).spec_active_call() == call_after(
                old(self).spec_active_call(),
                match result {
                    Ok((call, _)) => SessionOp::StartSucceeded(call),
                    Err(_) => SessionOp::StartFailed,
                },
            ),
    {
        match result {
            Ok((call, link)) => {
                self.active_call = Some(call);
                self.invite_link = if self.creating {
                    link
                } else {
                    None
                };
                self.state = ConferenceState::Joined;
                Ok(())
            },
            Err(e) => {
                self.state = ConferenceState::Idle;
                Err(e)
            },
        }
    }

    /// The conference was left: no call, no link, idle.
    pub fn left(&mut self)
        ensures
            final(self).spec_state() == ConferenceState::Idle,
            final(self).spec_active_call() is None,
            final(self).spec_invite_link() is None,
            final(self).spec_has_video() == old(self).spec_has_video(),
            final(self).spec_active_call() == call_after(old(self).spec_active_call(), SessionOp::Left),
            final(self).spec_creating() == old(self).spec_creating(),
    {
        self.active_call = None;
        self.invite_link = None;
        self.state = ConferenceState::Idle;
    }

    pub fn is_joined(&self) -> (r: bool)
        ensures
            r == (self.spec_state() == ConferenceState::Joined),
    {
        self.state == ConferenceState::Joined
    }

    /// The invite link, if the conference was created here.
    pub fn invite_link(&self) -> (r: Option<String>)
        ensures
            match r {
                Some(l) => self.spec_invite_link() == Some(l@),
                None => self.spec_invite_link() is None,
            },
    {
        match &self.invite_link {
            Some(l) => Some(l.clone()),
            None => None,
        }
    }

    /// The conference's group call, if it is running.
    pub fn active_call(&self) -> (r: Option<GroupCallRef>)
        ensures
            r == self.spec_active_call(),
    {
        match &self.active_call {
            Some(c) => Some(c.duplicate()),
            None => None,
        }
    }

    /// Ringing someone needs a running conference (`NotJoined` otherwise);
    /// the ring signals video as asked, or as currently streamed.
    pub fn invite_plan(&self, video: Option<bool>) -> (r: Result<(GroupCallRef, bool), TgCallsError>)
        ensures
            match self.spec_active_call() {
                Some(c) => r == Ok::<(GroupCallRef, bool), TgCallsError>(
                    (
                        c,
                        match video {
                            Some(v) => v,
                            None => self.spec_has_video(),
                        },
                    ),
                ),
                None => r matches Err(e) && e is NotJoined,
            },
    {
        let v = match video {
            Some(v) => v,
            None => self.has_video,
        };
        match &self.active_call {
            Some(c) => Ok((c.duplicate(), v)),
            None => Err(TgCallsError::NotJoined),
        }
    }

    /// New media is playing; whether video is signaled follows it.
    pub fn playing(&mut self, media: &MediaDescription)
        ensures
            final(self).spec_has_video() == (media.camera is Some || media.screen is Some),
            final(self).spec_state() == old(self).spec_state(),
            final(self).spec_active_call() == old(self).spec_active_call(),
            final(self).spec_active_call() == call_after(old(self).spec_active_call(), SessionOp::Playing),
            final(self).spec_creating() == old(self).spec_creating(),
            final(self).spec_invite_link() == old(self).spec_invite_link(),
    {
        self.has_video = media.camera.is_some() || media.screen.is_some();
    }

    /// Whether chain blocks pushed for `call` belong to this conference:
    /// both must be references by id, with the same id.
    pub fn owns(&self, call: &GroupCallRef) -> (r: bool)
        ensures
            r == (self.spec_active_call() matches Some(GroupCallRef::Id { id: a, .. }) && call
                matches GroupCallRef::Id { id: b, .. } && a == b),
    {
        match (&self.active_call, call) {
            (Some(GroupCallRef::Id { id: a, .. }), GroupCallRef::Id { id: b, .. }) => *a == *b,
            _ => false,
        }
    }
}

/// Whether a private call was discarded because it moved to a conference.
pub fn is_migration(reason: &Option<DiscardReason>) -> (r: bool)
    ensures
        r == (*reason matches Some(DiscardReason::MigrateConferenceCall { .. })),
{
    match reason {
        Some(DiscardReason::MigrateConferenceCall { .. }) => true,
        _ => false,
    }
}

/// The last block of a chain fetch, to resume a join after.
pub fn last_chain_block(blocks: &Vec<Vec<u8>>) -> (r: Option<Vec<u8>>)
    ensures
        blocks@.len() == 0 ==> r is None,
        blocks@.len() > 0 ==> (r matches Some(b) && b@ == blocks@.last()@),
{
    if blocks.len() == 0 {
        None
    } else {
        Some(copy_bytes(&blocks[blocks.len() - 1]))
    }
}

/// A conference call announced in a chat's message history.
#[derive(Debug, Clone, Copy)]
pub struct ConferenceInvite {
    pub chat_id: i64,
    pub call_id: i64,
    /// The invite message's own id: what identifies the conference for
    /// joining.
    pub msg_id: i32,
    pub video: bool,
    /// The message reports a call that was already missed.
    pub missed: bool,
    /// The conference was still running when the message was sent.
    pub active: bool,
}

impl ConferenceInvite {
    /// There is something to join right now: active and not missed.
    pub fn should_join(&self) -> (r: bool)
        ensures
            r == (self.active && !self.missed),
    {
        self.active && !self.missed
    }

    /// The target that joins this invitation: by its message id.
    pub fn target(&self, last_block: Option<Vec<u8>>) -> (r: ConferenceTarget)
        ensures
            r == (ConferenceTarget::JoinByInviteMessage { msg_id: self.msg_id, last_block }),
    {
        ConferenceTarget::JoinByInviteMessage { msg_id: self.msg_id, last_block }
    }
}

/// The action of a service message.
#[derive(Debug, Clone)]
pub enum MessageAction {
    ConferenceCall { call_id: i64, video: bool, missed: bool, active: bool },
    Other,
}

/// A message, as far as conference announcements go.
#[derive(Debug, Clone)]
pub enum ChatMessage {
    Service { id: i32, action: MessageAction },
    Regular,
}

/// An update from Telegram, as far as conference announcements go.
#[derive(Debug, Clone)]
pub enum IncomingUpdate {
    NewMessage { chat_id: i64, message: ChatMessage },
    Other,
}

/// The invitation an update carries: only a new service message announcing
/// a conference call carries one.
pub fn incoming_conference_call(update: &IncomingUpdate) -> (r: Option<ConferenceInvite>)
    ensures
        match *update {
            IncomingUpdate::NewMessage {
                chat_id,
                message: ChatMessage::Service {
                    id,
                    action: MessageAction::ConferenceCall { call_id, video, missed, active },
                },
            } => r == Some(ConferenceInvite { chat_id, call_id, msg_id: id, video, missed, active }),
            _ => r is None,
        },
{
    match update {
        IncomingUpdate::NewMessage {
            chat_id,
            message: ChatMessage::Service {
                id,
                action: MessageAction::ConferenceCall { call_id, video, missed, active },
            },
        } => Some(
            ConferenceInvite {
                chat_id: *chat_id,
                call_id: *call_id,
                msg_id: *id,
                video: *video,
                missed: *missed,
                active: *active,
            },
        ),
        _ => None,
    }
}

} // verus!
