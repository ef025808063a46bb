//! What the library reads out of Telegram's answers: channel ids, access
//! hashes, the group call of a chat, and the transport parameters of a
//! join.

use vstd::prelude::*;

use crate::call::{spec_ntg_chat_id, GroupCallRef};
use crate::errors::TgCallsError;
use crate::text::{decimal, push_decimal, signed_decimal, push_signed_decimal};

verus! {

/// The channel id Telegram's channel requests take for a chat id:
/// supergroup ids (`-100xxxxxxxxxx`) lose their prefix, other ids their
/// sign.
pub open spec fn spec_channel_id(chat_id: int) -> int {
    if chat_id < -1_000_000_000_000 {
        -chat_id - 1_000_000_000_000
    } else {
        -chat_id
    }
}

pub fn channel_id(chat_id: i64) -> (r: i64)
    requires
        chat_id != i64::MIN,
    ensures
        r == spec_channel_id(chat_id as int),
{
    if chat_id < -1_000_000_000_000 {
        (-chat_id) - 1_000_000_000_000
    } else {
        -chat_id
    }
}

/// A chat in one of Telegram's chat lists.
/// For a group or channel (a negative chat id) the channel looked up on
/// Telegram is the one the engine keys the call by: a supergroup's
/// `-100` prefix is dropped, and the id is never negative.
pub proof fn channel_is_the_engines_chat(chat_id: int)
    requires
        chat_id < 0,
    ensures
        spec_channel_id(chat_id) == spec_ntg_chat_id(chat_id),
        spec_channel_id(chat_id) > 0,
        chat_id < -1_000_000_000_000 ==> spec_channel_id(chat_id) + 1_000_000_000_000 == -chat_id,
{
}

#[derive(Debug, Clone)]
pub enum ChatEntry {
    Channel { access_hash: Option<i64> },
    Other,
}

/// The access hash of the first channel in a chat list (zero when the
/// channel has none); `NoActiveGroupCall` when the list holds no channel.
pub open spec fn spec_channel_access_hash(chats: Seq<ChatEntry>) -> Option<i64>
    decreases chats.len(),
{
    if chats.len() == 0 {
        None
    } else {
        match chats[0] {
            ChatEntry::Channel { access_hash } => Some(
                match access_hash {
                    Some(h) => h,
                    None => 0,
                },
            ),
            ChatEntry::Other => spec_channel_access_hash(chats.drop_first()),
        }
    }
}

pub fn extract_access_hash(chats: &Vec<ChatEntry>) -> (r: Result<i64, TgCallsError>)
    ensures
        match spec_channel_access_hash(chats@) {
            Some(h) => r == Ok::<i64, TgCallsError>(h),
            None => r matches Err(e) && e is NoActiveGroupCall,
        },
{
    let mut i: usize = 0;
    assert(chats@.subrange(0, chats@.len() as int) =~= chats@);
    while i < chats.len()
        invariant
            i <= chats.len(),
            spec_channel_access_hash(chats@) == spec_channel_access_hash(chats@.subrange(i as int, chats@.len() as int)),
        decreases chats.len() - i,
    {
        let ghost rest = chats@.subrange(i as int, chats@.len() as int);
        assert(rest.drop_first() =~= chats@.subrange(i + 1, chats@.len() as int));
        assert(rest[0] == chats@[i as int]);
        match &chats[i] {
            ChatEntry::Channel { access_hash } => {
                return Ok(
                    match access_hash {
                        Some(h) => *h,
                        None => 0,
                    },
                );
            },
            ChatEntry::Other => {},
        }
        i = i + 1;
    }
    Err(TgCallsError::NoActiveGroupCall)
}

/// A chat's full description, as far as group calls go.
#[derive(Debug, Clone)]
pub enum FullChat {
    /// A channel (supergroup), with its group call if one is active.
    Channel { call: Option<GroupCallRef> },
    Other,
}

/// A chat's active group call; `NoActiveGroupCall` when it has none or is
/// not a channel.
pub fn active_group_call(full: FullChat) -> (r: Result<GroupCallRef, TgCallsError>)
    ensures
        match full {
            FullChat::Channel { call: Some(c) } => r == Ok::<GroupCallRef, TgCallsError>(c),
            _ => r matches Err(e) && e is NoActiveGroupCall,
        },
{
    match full {
        FullChat::Channel { call: Some(c) } => Ok(c),
        _ => Err(TgCallsError::NoActiveGroupCall),
    }
}

/// One update in an answer to a join.
#[derive(Debug, Clone)]
pub enum JoinUpdate {
    /// The group call connection, with its transport parameters (JSON).
    GroupCallConnection { presentation: bool, params: String },
    Other,
}

/// An answer to a join: a list of updates, or a form that carries none.
#[derive(Debug, Clone)]
pub enum JoinAnswer {
    Updates(Vec<JoinUpdate>),
    Other,
}

/// The transport parameters of the first connection of the wanted kind
/// (presentation or not) in a list of updates.
pub open spec fn spec_transport(updates: Seq<JoinUpdate>, presentation: bool) -> Option<Seq<char>>
    decreases updates.len(),
{
    if updates.len() == 0 {
        None
    } else {
        match updates[0] {
            JoinUpdate::GroupCallConnection { presentation: p, params } => if p == presentation {
                Some(params@)
            } else {
                spec_transport(updates.drop_first(), presentation)
            },
            JoinUpdate::Other => spec_transport(updates.drop_first(), presentation),
        }
    }
}

pub open spec fn spec_extract_transport(answer: JoinAnswer, presentation: bool) -> Option<Seq<char>> {
    match answer {
        JoinAnswer::Updates(list) => spec_transport(list@, presentation),
        JoinAnswer::Other => None,
    }
}

/// The transport parameters Telegram returned for a join (of the call, or
/// of its presentation), if the answer carries them.
pub fn extract_transport_json(answer: &JoinAnswer, presentation: bool) -> (r: Option<String>)
    ensures
        match r {
            Some(s) => spec_extract_transport(*answer, presentation) == Some(s@),
            None => spec_extract_transport(*answer, presentation) is None,
        },
{
    let list = match answer {
        JoinAnswer::Updates(list) => list,
        JoinAnswer::Other => return None,
    };
    let mut i: usize = 0;
    assert(list@.subrange(0, list@.len() as int) =~= list@);
    while i < list.len()
        invariant
            i <= list.len(),
            spec_transport(list@, presentation) == spec_transport(list@.subrange(i as int, list@.len() as int), presentation),
            spec_extract_transport(*answer, presentation) == spec_transport(list@, presentation),
        decreases list.len() - i,
    {
        let ghost rest = list@.subrange(i as int, list@.len() as int);
        assert(rest.drop_first() =~= list@.subrange(i + 1, list@.len() as int));
        assert(rest[0] == list@[i as int]);
        match &list[i] {
            JoinUpdate::GroupCallConnection { presentation: p, params } => {
                if *p == presentation {
                    let found = params.clone();
                    assert(rest.len() > 0);
                    assert(spec_transport(rest, presentation) == Some(found@));
                    return Some(found);
                }
            },
            JoinUpdate::Other => {},
        }
        i = i + 1;
    }
    None
}

/// The transport parameters of a join, or the error for an answer that
/// has none.
pub fn transport_or_error(answer: &JoinAnswer, presentation: bool) -> (r: Result<String, TgCallsError>)
    ensures
        match spec_extract_transport(*answer, presentation) {
            Some(t) => r matches Ok(s) && s@ == t,
            None => r matches Err(TgCallsError::TransportParse(m)) && m@ == if presentation {
                "no GroupCallConnection(presentation) in response"@
            } else {
                "no GroupCallConnection in response"@
            },
        },
{
    match extract_transport_json(answer, presentation) {
        Some(s) => Ok(s),
        None => {
            let m = if presentation {
                String::from_str("no GroupCallConnection(presentation) in response")
            } else {
                String::from_str("no GroupCallConnection in response")
            };
            Err(TgCallsError::TransportParse(m))
        },
    }
}

/// A user in one of Telegram's user lists.
#[derive(Debug, Clone)]
pub enum UserEntry {
    User { id: i64, access_hash: Option<i64> },
    Empty,
}

/// The access hash of the first user with id `user_id` (zero when it has
/// none).
pub open spec fn spec_user_access_hash(users: Seq<UserEntry>, user_id: i64) -> Option<i64>
    decreases users.len(),
{
    if users.len() == 0 {
        None
    } else {
        match users[0] {
            UserEntry::User { id, access_hash } => if id == user_id {
                Some(
                    match access_hash {
                        Some(h) => h,
                        None => 0,
                    },
                )
            } else {
                spec_user_access_hash(users.drop_first(), user_id)
            },
            UserEntry::Empty => spec_user_access_hash(users.drop_first(), user_id),
        }
    }
}

/// A user's access hash out of Telegram's answer; an error naming the user
/// when the answer does not hold it.
pub fn find_user_access_hash(users: &Vec<UserEntry>, user_id: i64) -> (r: Result<i64, TgCallsError>)
    ensures
        match spec_user_access_hash(users@, user_id) {
            Some(h) => r == Ok::<i64, TgCallsError>(h),
            None => r matches Err(TgCallsError::TransportParse(m)) && m@ == "user "@ + signed_decimal(
                user_id as int,
            ) + " not found"@,
        },
{
    let mut i: usize = 0;
    assert(users@.subrange(0, users@.len() as int) =~= users@);
    while i < users.len()
        invariant
            i <= users.len(),
            spec_user_access_hash(users@, user_id) == spec_user_access_hash(users@.subrange(i as int, users@.len() as int), user_id),
        decreases users.len() - i,
    {
        let ghost rest = users@.subrange(i as int, users@.len() as int);
        assert(rest.drop_first() =~= users@.subrange(i + 1, users@.len() as int));
        assert(rest[0] == users@[i as int]);
        match &users[i] {
            UserEntry::User { id, access_hash } => {
                if *id == user_id {
                    return Ok(
                        match access_hash {
                            Some(h) => *h,
                            None => 0,
                        },
                    );
                }
            },
            UserEntry::Empty => {},
        }
        i = i + 1;
    }
    let mut m = String::from_str("user ");
    push_signed_decimal(&mut m, user_id);
    m.append(" not found");
    assert(m@ =~= "user "@ + signed_decimal(user_id as int) + " not found"@);
    Err(TgCallsError::TransportParse(m))
}

/// The id of the first user in Telegram's answer about ourselves.
pub open spec fn spec_first_user_id(users: Seq<UserEntry>) -> Option<i64>
    decreases users.len(),
{
    if users.len() == 0 {
        None
    } else {
        match users[0] {
            UserEntry::User { id, .. } => Some(id),
            UserEntry::Empty => spec_first_user_id(users.drop_first()),
        }
    }
}

pub fn find_self_user_id(users: &Vec<UserEntry>) -> (r: Result<i64, TgCallsError>)
    ensures
        match spec_first_user_id(users@) {
            Some(id) => r == Ok::<i64, TgCallsError>(id),
            None => r matches Err(TgCallsError::TransportParse(m)) && m@
                == "could not resolve self user id"@,
        },
{
    let mut i: usize = 0;
    assert(users@.subrange(0, users@.len() as int) =~= users@);
    while i < users.len()
        invariant
            i <= users.len(),
            spec_first_user_id(users@) == spec_first_user_id(users@.subrange(i as int, users@.len() as int)),
        decreases users.len() - i,
    {
        let ghost rest = users@.subrange(i as int, users@.len() as int);
        assert(rest.drop_first() =~= users@.subrange(i + 1, users@.len() as int));
        assert(rest[0] == users@[i as int]);
        match &users[i] {
            UserEntry::User { id, .. } => {
                return Ok(*id);
            },
            UserEntry::Empty => {},
        }
        i = i + 1;
    }
    Err(TgCallsError::TransportParse(String::from_str("could not resolve self user id")))
}

} // verus!
