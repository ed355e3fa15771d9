//! The rules of the message endpoints: posting in channels and in direct
//! conversations, reading, editing, deleting and reacting.
use vstd::prelude::*;
use crate::application::dto::apperror::{AppError, Fault};
use crate::application::dto::message_dto::{DmItem, MessageItem, ReactionItem, SendMessageRequest};
use crate::application::events::Event;
use crate::application::services::access::{found, outcome, require_member};
use crate::application::utils::clock::{now_micros, time_in_range};
use crate::application::utils::ids::fresh_id;
use crate::domain::models::{channel, direct_message, message, message_reaction, user};
use crate::domain::models::server_member::{MemberRole, manages};
use crate::text::{blank, is_blank, same_text};

verus! {

// ---------------------------------------------------------------- posting

/// A message posted in a channel must say which server the channel is in.
pub fn required_server(server_id: Option<i32>) -> (r: Result<i32, AppError>)
    ensures
        match server_id {
            Some(s) => r == Ok::<i32, AppError>(s),
            None => outcome(r) == Err::<i32, Fault>(
                Fault::BadRequest("server_id is required for channel messages"@),
            ),
        },
{
    found(server_id, AppError::BadRequest("server_id is required for channel messages".to_owned()))
}

/// The channel must be in the server that the request names.
pub fn check_channel_server(c: &channel::Model, server_id: i32) -> (r: Result<(), AppError>)
    ensures
        outcome(r) == (if c.server_id == server_id {
            Ok::<(), Fault>(())
        } else {
            Err(Fault::BadRequest("Channel error"@))
        }),
{
    if c.server_id != server_id {
        Err(AppError::BadRequest("Channel error".to_owned()))
    } else {
        Ok(())
    }
}

/// Only members of a channel's server post or read there.
pub fn check_poster(is_member: bool) -> (r: Result<(), AppError>)
    ensures
        outcome(r) == (if is_member {
            Ok::<(), Fault>(())
        } else {
            Err(Fault::Forbidden("Not a member"@))
        }),
{
    require_member(is_member, "Not a member")
}

/// A message must say something besides whitespace.
pub fn check_content(content: &str) -> (r: Result<(), AppError>)
    ensures
        outcome(r) == (if blank(content@) {
            Err(Fault::BadRequest("Empty content"@))
        } else {
            Ok::<(), Fault>(())
        }),
{
    if is_blank(content) {
        Err(AppError::BadRequest("Empty content".to_owned()))
    } else {
        Ok(())
    }
}

/// The author of a message that was just stored must exist.
pub fn author_found(u: Option<user::Model>) -> (r: Result<user::Model, AppError>)
    ensures
        match u {
            Some(v) => r == Ok::<user::Model, AppError>(v),
            None => outcome(r) == Err::<user::Model, Fault>(Fault::InternalServerError("User not found"@)),
        },
{
    found(u, AppError::InternalServerError("User not found".to_owned()))
}

/// A message posted at time `now` in a channel, under a fresh id.
pub fn channel_message_at(channel_id: u128, server_id: i32, user_id: u128, content: String, now: i64) -> (r:
    message::Model)
    ensures
        r.channel_id == Some(channel_id),
        r.server_id == Some(server_id),
        r.user_id == user_id,
        r.content == content,
        r.direct_message == None::<u128>,
        r.created_at == now,
        r.id != 0,
{
    message::Model {
        id: fresh_id(),
        content,
        user_id,
        server_id: Some(server_id),
        channel_id: Some(channel_id),
        direct_message: None,
        created_at: now,
    }
}

/// A message posted now in a channel.
pub fn channel_message(channel_id: u128, server_id: i32, user_id: u128, content: String) -> (r: message::Model)
    ensures
        r.channel_id == Some(channel_id),
        r.server_id == Some(server_id),
        r.user_id == user_id,
        r.content == content,
        r.direct_message == None::<u128>,
        time_in_range(r.created_at as int),
        r.id != 0,
{
    channel_message_at(channel_id, server_id, user_id, content, now_micros())
}

/// The notice that a message was posted in a channel.
pub fn new_message_event(m: &message::Model, author: &user::Model) -> (e: Event)
    ensures
        e == (Event::NewMessage {
            id: m.id,
            content: m.content,
            user_id: m.user_id,
            author_username: author.username,
            server_id: m.server_id,
            channel_id: m.channel_id,
            created_at: m.created_at,
        }),
{
    Event::NewMessage {
        id: m.id,
        content: m.content.clone(),
        user_id: m.user_id,
        author_username: author.username.clone(),
        server_id: m.server_id,
        channel_id: m.channel_id,
        created_at: m.created_at,
    }
}

/// A message as clients see it, with its author's name and no reactions.
pub fn bare_item(m: message::Model, author: String) -> (r: MessageItem)
    ensures
        r.id == m.id,
        r.content == m.content,
        r.user_id == m.user_id,
        r.author == author,
        r.server_id == m.server_id,
        r.channel_id == m.channel_id,
        r.direct_message_id == m.direct_message,
        r.created_at == m.created_at,
        r.reactions@.len() == 0,
{
    MessageItem {
        id: m.id,
        content: m.content,
        user_id: m.user_id,
        author,
        server_id: m.server_id,
        channel_id: m.channel_id,
        direct_message_id: m.direct_message,
        created_at: m.created_at,
        reactions: Vec::new(),
    }
}

// ---------------------------------------------------------------- direct messages

/// The room of a conversation: the one found between the two users, or a new one.
#[derive(Debug)]
pub enum RoomChoice {
    Existing(u128),
    Create(direct_message::Model),
}

/// Whether a conversation joins two users, whichever of them opened it.
pub open spec fn joins(room: direct_message::Model, a: u128, b: u128) -> bool {
    (room.user1_id == a && room.user2_id == b) || (room.user1_id == b && room.user2_id == a)
}

/// The conversation between two users among the rooms read: the first that
/// joins them, if any.
pub open spec fn room_between(rooms: Seq<direct_message::Model>, a: u128, b: u128) -> Option<u128>
    decreases rooms.len(),
{
    if rooms.len() == 0 {
        None
    } else if joins(rooms[0], a, b) {
        Some(rooms[0].id)
    } else {
        room_between(rooms.drop_first(), a, b)
    }
}

/// The conversation between two users among the rooms read.
pub fn find_room(rooms: &Vec<direct_message::Model>, a: u128, b: u128) -> (r: Option<u128>)
    ensures
        r == room_between(rooms@, a, b),
{
    let n = rooms.len();
    let mut i: usize = 0;
    assert(rooms@.skip(0) =~= rooms@);
    while i < n
        invariant
            n == rooms@.len(),
            0 <= i <= n,
            room_between(rooms@, a, b) == room_between(rooms@.skip(i as int), a, b),
        decreases n - i,
    {
        assert(rooms@.skip(i as int).drop_first() =~= rooms@.skip(i + 1));
        let x = &rooms[i];
        if (x.user1_id == a && x.user2_id == b) || (x.user1_id == b && x.user2_id == a) {
            return Some(x.id);
        }
        i = i + 1;
    }
    assert(rooms@.skip(n as int) =~= Seq::<direct_message::Model>::empty());
    None
}

/// The room to post in: the room found between the two users, or else a new
/// room created at time `now` under a fresh id, opened by the sender.
pub fn choose_room_at(found_room: Option<u128>, sender: u128, target: u128, now: i64) -> (r: RoomChoice)
    ensures
        match found_room {
            Some(id) => r == RoomChoice::Existing(id),
            None => match r {
                RoomChoice::Create(room) => {
                    &&& room.user1_id == sender
                    &&& room.user2_id == target
                    &&& room.content@.len() == 0
                    &&& room.created_at == now
                    &&& room.id != 0
                },
                _ => false,
            },
        },
{
    match found_room {
        Some(id) => RoomChoice::Existing(id),
        None => RoomChoice::Create(
            direct_message::Model {
                id: fresh_id(),
                user1_id: sender,
                user2_id: target,
                content: String::new(),
                created_at: now,
            },
        ),
    }
}

/// The room to post in, created now if there is none.
pub fn choose_room(found_room: Option<u128>, sender: u128, target: u128) -> (r: RoomChoice)
    ensures
        match found_room {
            Some(id) => r == RoomChoice::Existing(id),
            None => match r {
                RoomChoice::Create(room) => {
                    &&& room.user1_id == sender
                    &&& room.user2_id == target
                    &&& room.content@.len() == 0
                    &&& time_in_range(room.created_at as int)
                    &&& room.id != 0
                },
                _ => false,
            },
        },
{
    choose_room_at(found_room, sender, target, now_micros())
}

/// A message posted at time `now` in a direct conversation, under a fresh id.
pub fn direct_message_at(room_id: u128, user_id: u128, content: String, now: i64) -> (r: message::Model)
    ensures
        r.direct_message == Some(room_id),
        r.channel_id == None::<u128>,
        r.server_id == None::<i32>,
        r.user_id == user_id,
        r.content == content,
        r.created_at == now,
        r.id != 0,
{
    message::Model {
        id: fresh_id(),
        content,
        user_id,
        server_id: None,
        channel_id: None,
        direct_message: Some(room_id),
        created_at: now,
    }
}

/// A message posted now in a direct conversation.
pub fn direct_message(room_id: u128, user_id: u128, content: String) -> (r: message::Model)
    ensures
        r.direct_message == Some(room_id),
        r.channel_id == None::<u128>,
        r.server_id == None::<i32>,
        r.user_id == user_id,
        r.content == content,
        time_in_range(r.created_at as int),
        r.id != 0,
{
    direct_message_at(room_id, user_id, content, now_micros())
}

/// The notice that a direct message was posted, naming both users.
pub fn new_dm_event(m: &message::Model, author: &user::Model, room_id: u128, sender: u128, target: u128) -> (e:
    Event)
    ensures
        e == (Event::NewDmMessage {
            id: m.id,
            content: m.content,
            user_id: m.user_id,
            author_username: author.username,
            direct_message_id: room_id,
            target_users: (sender, target),
            created_at: m.created_at,
        }),
{
    Event::NewDmMessage {
        id: m.id,
        content: m.content.clone(),
        user_id: m.user_id,
        author_username: author.username.clone(),
        direct_message_id: room_id,
        target_users: (sender, target),
        created_at: m.created_at,
    }
}


// ---------------------------------------------------------------- reading

/// The name shown for the author of a message: the user's name, or
/// "Utilisateur Inconnu" when the user is gone.
pub open spec fn author_name_ok(name: String, u: Option<user::Model>) -> bool {
    match u {
        Some(u) => name == u.username,
        None => name@ == "Utilisateur Inconnu"@,
    }
}

/// The name shown for the author of a message.
pub fn author_name(u: &Option<user::Model>) -> (r: String)
    ensures
        author_name_ok(r, *u),
{
    match u {
        Some(u) => u.username.clone(),
        None => "Utilisateur Inconnu".to_owned(),
    }
}

/// The emojis put on message `mid`, each once, in the order of their first use.
pub open spec fn emojis_on(rs: Seq<message_reaction::Model>, mid: u128) -> Seq<Seq<char>>
    decreases rs.len(),
{
    if rs.len() == 0 {
        Seq::empty()
    } else {
        let es = emojis_on(rs.drop_last(), mid);
        let r = rs.last();
        if r.message_id == mid && !es.contains(r.emoji@) {
            es.push(r.emoji@)
        } else {
            es
        }
    }
}

/// The users who put emoji `e` on message `mid`, in the order of the rows.
pub open spec fn users_with(rs: Seq<message_reaction::Model>, mid: u128, e: Seq<char>) -> Seq<u128>
    decreases rs.len(),
{
    if rs.len() == 0 {
        Seq::empty()
    } else {
        let us = users_with(rs.drop_last(), mid, e);
        let r = rs.last();
        if r.message_id == mid && r.emoji@ == e {
            us.push(r.user_id)
        } else {
            us
        }
    }
}

/// Whether `items` groups the reactions on message `mid` by emoji: one item
/// per emoji used, in the order of first use, with the users in row order.
pub open spec fn groups_reactions(items: Seq<ReactionItem>, rs: Seq<message_reaction::Model>, mid: u128) -> bool {
    &&& items.len() == emojis_on(rs, mid).len()
    &&& forall|k: int|
        0 <= k < items.len() ==> {
            &&& (#[trigger] items[k]).emoji@ == emojis_on(rs, mid)[k]
            &&& items[k].user_ids@ == users_with(rs, mid, emojis_on(rs, mid)[k])
        }
}

/// The distinct emojis put on a message, in the order of first use.
fn collect_emojis(rs: &Vec<message_reaction::Model>, mid: u128) -> (r: Vec<String>)
    ensures
        r@.len() == emojis_on(rs@, mid).len(),
        forall|k: int| 0 <= k < r@.len() ==> (#[trigger] r@[k])@ == emojis_on(rs@, mid)[k],
{
    let mut r: Vec<String> = Vec::new();
    let n = rs.len();
    for i in 0..n
        invariant
            n == rs@.len(),
            r@.len() == emojis_on(rs@.take(i as int), mid).len(),
            forall|k: int| 0 <= k < r@.len() ==> (#[trigger] r@[k])@ == emojis_on(rs@.take(i as int), mid)[k],
    {
        assert(rs@.take(i + 1).drop_last() =~= rs@.take(i as int));
        let ghost es = emojis_on(rs@.take(i as int), mid);
        let x = &rs[i];
        if x.message_id == mid {
            let mut seen = false;
            let m = r.len();
            for j in 0..m
                invariant
                    m == r@.len(),
                    r@.len() == es.len(),
                    forall|k: int| 0 <= k < r@.len() ==> (#[trigger] r@[k])@ == es[k],
                    seen <==> exists|k: int| 0 <= k < j && es[k] == x.emoji@,
            {
                if same_text(r[j].as_str(), x.emoji.as_str()) {
                    seen = true;
                }
            }
            assert(seen <==> es.contains(x.emoji@));
            if !seen {
                r.push(x.emoji.clone());
            }
        }
    }
    assert(rs@.take(n as int) =~= rs@);
    r
}

/// The users who put one emoji on a message.
fn collect_users(rs: &Vec<message_reaction::Model>, mid: u128, e: &String) -> (r: Vec<u128>)
    ensures
        r@ == users_with(rs@, mid, e@),
{
    let mut r: Vec<u128> = Vec::new();
    let n = rs.len();
    for i in 0..n
        invariant
            n == rs@.len(),
            r@ == users_with(rs@.take(i as int), mid, e@),
    {
        assert(rs@.take(i + 1).drop_last() =~= rs@.take(i as int));
        let x = &rs[i];
        if x.message_id == mid && same_text(x.emoji.as_str(), e.as_str()) {
            r.push(x.user_id);
        }
    }
    assert(rs@.take(n as int) =~= rs@);
    r
}

/// The reactions on a message, grouped by emoji.
pub fn reaction_items(rs: &Vec<message_reaction::Model>, mid: u128) -> (r: Vec<ReactionItem>)
    ensures
        groups_reactions(r@, rs@, mid),
{
    let emojis = collect_emojis(rs, mid);
    let mut r: Vec<ReactionItem> = Vec::new();
    let n = emojis.len();
    for k in 0..n
        invariant
            n == emojis@.len(),
            emojis@.len() == emojis_on(rs@, mid).len(),
            forall|q: int| 0 <= q < emojis@.len() ==> (#[trigger] emojis@[q])@ == emojis_on(rs@, mid)[q],
            r@.len() == k,
            forall|q: int|
                0 <= q < k ==> {
                    &&& (#[trigger] r@[q]).emoji@ == emojis_on(rs@, mid)[q]
                    &&& r@[q].user_ids@ == users_with(rs@, mid, emojis_on(rs@, mid)[q])
                },
    {
        let e = &emojis[k];
        let users = collect_users(rs, mid, e);
        r.push(ReactionItem { emoji: e.clone(), user_ids: users });
    }
    r
}

/// Whether `it` shows message `m` with its author's name and grouped reactions.
pub open spec fn is_message_item(
    it: MessageItem,
    m: message::Model,
    u: Option<user::Model>,
    rs: Seq<message_reaction::Model>,
) -> bool {
    &&& it.id == m.id
    &&& it.content == m.content
    &&& it.user_id == m.user_id
    &&& author_name_ok(it.author, u)
    &&& it.server_id == m.server_id
    &&& it.channel_id == m.channel_id
    &&& it.direct_message_id == m.direct_message
    &&& it.created_at == m.created_at
    &&& groups_reactions(it.reactions@, rs, m.id)
}

/// The messages as clients see them, in the order of the rows, each with
/// its author's name and its reactions grouped by emoji.
pub fn message_items(rows: &Vec<(message::Model, Option<user::Model>)>, rs: &Vec<message_reaction::Model>) -> (r:
    Vec<MessageItem>)
    ensures
        r@.len() == rows@.len(),
        forall|k: int| 0 <= k < r@.len() ==> is_message_item(#[trigger] r@[k], rows@[k].0, rows@[k].1, rs@),
{
    let mut r: Vec<MessageItem> = Vec::new();
    let n = rows.len();
    for i in 0..n
        invariant
            n == rows@.len(),
            r@.len() == i,
            forall|k: int| 0 <= k < i ==> is_message_item(#[trigger] r@[k], rows@[k].0, rows@[k].1, rs@),
    {
        let row = &rows[i];
        let m = &row.0;
        let it = MessageItem {
            id: m.id,
            content: m.content.clone(),
            user_id: m.user_id,
            author: author_name(&row.1),
            server_id: m.server_id,
            channel_id: m.channel_id,
            direct_message_id: m.direct_message,
            created_at: m.created_at,
            reactions: reaction_items(rs, m.id),
        };
        r.push(it);
    }
    r
}

/// The history of a direct conversation: nothing when the two users have no
/// room, its messages in the order of the rows otherwise, with their authors'
/// names and no reactions.
pub fn dm_history(room: Option<u128>, rows: &Vec<(message::Model, Option<user::Model>)>) -> (r: Vec<MessageItem>)
    ensures
        room is None ==> r@.len() == 0,
        room is Some ==> r@.len() == rows@.len() && forall|k: int|
            0 <= k < r@.len() ==> is_message_item(
                #[trigger] r@[k],
                rows@[k].0,
                rows@[k].1,
                Seq::<message_reaction::Model>::empty(),
            ),
{
    match room {
        None => Vec::new(),
        Some(_) => {
            let none: Vec<message_reaction::Model> = Vec::new();
            message_items(rows, &none)
        },
    }
}

/// The ids of the messages of the rows, in order (for fetching their reactions).
pub fn message_ids(rows: &Vec<(message::Model, Option<user::Model>)>) -> (r: Vec<u128>)
    ensures
        r@.len() == rows@.len(),
        forall|k: int| 0 <= k < r@.len() ==> #[trigger] r@[k] == rows@[k].0.id,
{
    let mut r: Vec<u128> = Vec::new();
    let n = rows.len();
    for i in 0..n
        invariant
            n == rows@.len(),
            r@.len() == i,
            forall|k: int| 0 <= k < i ==> #[trigger] r@[k] == rows@[k].0.id,
    {
        r.push(rows[i].0.id);
    }
    r
}

// ---------------------------------------------------------------- deleting and editing

/// The message that a lookup found, or "not found".
pub fn message_found(m: Option<message::Model>) -> (r: Result<message::Model, AppError>)
    ensures
        match m {
            Some(v) => r == Ok::<message::Model, AppError>(v),
            None => outcome(r) == Err::<message::Model, Fault>(Fault::NotFound("Message not found"@)),
        },
{
    found(m, AppError::NotFound("Message not found".to_owned()))
}

/// Who may delete a message, as far as the message alone tells.
#[derive(Debug, Clone, Copy, PartialEq, Eq, Structural)]
pub enum DeleteAccess {
    /// The requester wrote the message.
    Author,
    /// The rank of the requester in the server of this channel decides.
    ByRank(u128),
    /// Nobody but the author deletes a direct message.
    Denied,
}

/// The first look at a deletion: the author may; in a channel, the rank
/// decides; otherwise nobody may.
pub open spec fn delete_access(m: message::Model, requester: u128) -> DeleteAccess {
    if m.user_id == requester {
        DeleteAccess::Author
    } else {
        match m.channel_id {
            Some(c) => DeleteAccess::ByRank(c),
            None => DeleteAccess::Denied,
        }
    }
}

/// Who may delete a message, as far as the message alone tells.
pub fn check_delete_access(m: &message::Model, requester: u128) -> (r: DeleteAccess)
    ensures
        r == delete_access(*m, requester),
{
    if m.user_id == requester {
        DeleteAccess::Author
    } else {
        match m.channel_id {
            Some(c) => DeleteAccess::ByRank(c),
            None => DeleteAccess::Denied,
        }
    }
}

/// Whether a requester who is not the author may delete a message of a
/// channel: the requester must be a member, and an owner or admin.
pub open spec fn rank_allows_delete(role: Option<MemberRole>) -> Result<bool, Fault> {
    match role {
        None => Err(Fault::Forbidden("Not a member"@)),
        Some(r) => Ok(manages(r)),
    }
}

/// Whether the requester's rank in the channel's server allows the deletion.
pub fn check_delete_rank(role: Option<MemberRole>) -> (r: Result<bool, AppError>)
    ensures
        outcome(r) == rank_allows_delete(role),
{
    match role {
        None => Err(AppError::Forbidden("Not a member".to_owned())),
        Some(r) => Ok(r == MemberRole::Owner || r == MemberRole::Admin),
    }
}

/// The end of the permission check for a deletion.
pub fn check_delete_permission(authorized: bool) -> (r: Result<(), AppError>)
    ensures
        outcome(r) == (if authorized {
            Ok::<(), Fault>(())
        } else {
            Err(Fault::Forbidden("Permission denied"@))
        }),
{
    if authorized {
        Ok(())
    } else {
        Err(AppError::Forbidden("Permission denied".to_owned()))
    }
}

/// The notice that a message was deleted.
pub fn deleted_event(m: &message::Model) -> (e: Event)
    ensures
        e == (Event::DeleteMessage {
            server_id: m.server_id,
            channel_id: m.channel_id,
            direct_message: m.direct_message,
            message_id: m.id,
        }),
{
    Event::DeleteMessage {
        server_id: m.server_id,
        channel_id: m.channel_id,
        direct_message: m.direct_message,
        message_id: m.id,
    }
}

/// The answer to an edit: only the author edits, and the new content must
/// not be blank.
pub open spec fn edit_verdict(m: message::Model, requester: u128, new_content: Seq<char>) -> Result<(), Fault> {
    if m.user_id != requester {
        Err(Fault::Forbidden("You can only edit your own messages"@))
    } else if blank(new_content) {
        Err(Fault::BadRequest("Message content cannot be empty"@))
    } else {
        Ok(())
    }
}

/// Applies an edit to a message row, or refuses it; only the content changes.
pub fn apply_edit(m: message::Model, requester: u128, new_content: String) -> (r: Result<message::Model, AppError>)
    ensures
        match r {
            Ok(v) => edit_verdict(m, requester, new_content@) is Ok && v == (message::Model {
                content: new_content,
                ..m
            }),
            Err(e) => edit_verdict(m, requester, new_content@) == Err::<(), Fault>(e@),
        },
{
    if m.user_id != requester {
        return Err(AppError::Forbidden("You can only edit your own messages".to_owned()));
    }
    if is_blank(new_content.as_str()) {
        return Err(AppError::BadRequest("Message content cannot be empty".to_owned()));
    }
    Ok(message::Model { content: new_content, ..m })
}

/// The author of an edited message must exist.
pub fn edit_author_found(u: Option<user::Model>) -> (r: Result<user::Model, AppError>)
    ensures
        match u {
            Some(v) => r == Ok::<user::Model, AppError>(v),
            None => outcome(r) == Err::<user::Model, Fault>(
                Fault::InternalServerError("Author user not found"@),
            ),
        },
{
    found(u, AppError::InternalServerError("Author user not found".to_owned()))
}

/// The notice that a message was edited.
pub fn edited_event(m: &message::Model) -> (e: Event)
    ensures
        e == (Event::UpdateMessage {
            server_id: m.server_id,
            channel_id: m.channel_id,
            direct_message: m.direct_message,
            message_id: m.id,
            new_content: m.content,
        }),
{
    Event::UpdateMessage {
        server_id: m.server_id,
        channel_id: m.channel_id,
        direct_message: m.direct_message,
        message_id: m.id,
        new_content: m.content.clone(),
    }
}

// ---------------------------------------------------------------- conversations

/// Strictly increasing: each id once, in order.
pub open spec fn strictly_increasing(s: Seq<u128>) -> bool {
    forall|i: int, j: int| 0 <= i < j < s.len() ==> s[i] < s[j]
}

/// Whether a user takes part in one of the conversations.
pub open spec fn takes_part(dms: Seq<direct_message::Model>, x: u128) -> bool {
    exists|i: int| #![trigger dms[i]] 0 <= i < dms.len() && (dms[i].user1_id == x || dms[i].user2_id == x)
}

/// Adds an id to a strictly increasing list, keeping it so.
fn insert_sorted(v: &mut Vec<u128>, x: u128)
    requires
        strictly_increasing(old(v)@),
    ensures
        strictly_increasing(final(v)@),
        forall|y: u128| final(v)@.contains(y) <==> (old(v)@.contains(y) || y == x),
{
    let n = v.len();
    let mut i: usize = 0;
    let ghost start = v@;
    while i < n && v[i] < x
        invariant
            v@ == start,
            n == v@.len(),
            0 <= i <= n,
            strictly_increasing(v@),
            forall|k: int| 0 <= k < i ==> v@[k] < x,
        decreases n - i,
    {
        i = i + 1;
    }
    if i < n && v[i] == x {
        assert(v@[i as int] == x);
        return;
    }
    let ghost before = v@;
    assert(before == old(v)@);
    v.insert(i, x);
    assert forall|a: int, b: int| 0 <= a < b < v@.len() implies v@[a] < v@[b] by {
        if b < i {
            assert(v@[a] == before[a] && v@[b] == before[b]);
        } else if b == i {
            assert(v@[a] == before[a]);
        } else if a < i {
            assert(v@[a] == before[a] && v@[b] == before[b - 1]);
            assert(before[i as int] > x);
            if b - 1 > i {
                assert(before[i as int] < before[b - 1]);
            }
        } else if a == i {
            assert(v@[b] == before[b - 1]);
            assert(before[i as int] > x);
            if b - 1 > i {
                assert(before[i as int] < before[b - 1]);
            }
        } else {
            assert(v@[a] == before[a - 1] && v@[b] == before[b - 1]);
        }
    }
    proof {
        lemma_insert_contains(before, i as int, x);
    }
}

/// Inserting an element into a sequence adds that element and keeps the others.
proof fn lemma_insert_contains(before: Seq<u128>, i: int, x: u128)
    requires
        0 <= i <= before.len(),
    ensures
        forall|y: u128| before.insert(i, x).contains(y) <==> (before.contains(y) || y == x),
{
    let after = before.insert(i, x);
    assert forall|y: u128| after.contains(y) <==> (before.contains(y) || y == x) by {
        if after.contains(y) {
            let k = choose|k: int| 0 <= k < after.len() && after[k] == y;
            if k < i {
                assert(before[k] == y);
            } else if k > i {
                assert(before[k - 1] == y);
            }
        }
        if before.contains(y) {
            let k = choose|k: int| 0 <= k < before.len() && before[k] == y;
            if k < i {
                assert(after[k] == y);
            } else {
                assert(after[k + 1] == y);
            }
        }
        if y == x {
            assert(after[i] == x);
        }
    }
}

/// The users who take part in the conversations, each once, in increasing
/// order (for fetching their names).
pub fn participants(dms: &Vec<direct_message::Model>) -> (r: Vec<u128>)
    ensures
        strictly_increasing(r@),
        forall|x: u128| r@.contains(x) <==> takes_part(dms@, x),
{
    let mut r: Vec<u128> = Vec::new();
    let n = dms.len();
    for i in 0..n
        invariant
            n == dms@.len(),
            strictly_increasing(r@),
            forall|x: u128| r@.contains(x) <==> takes_part(dms@.take(i as int), x),
    {
        let d = &dms[i];
        insert_sorted(&mut r, d.user1_id);
        insert_sorted(&mut r, d.user2_id);
        assert forall|x: u128| r@.contains(x) <==> takes_part(dms@.take(i + 1), x) by {
            if takes_part(dms@.take(i + 1), x) {
                let k = choose|k: int|
                    #![trigger dms@.take(i + 1)[k]]
                    0 <= k < i + 1 && (dms@.take(i + 1)[k].user1_id == x || dms@.take(i + 1)[k].user2_id == x);
                if k < i {
                    assert(dms@.take(i as int)[k] == dms@.take(i + 1)[k]);
                }
            }
            if takes_part(dms@.take(i as int), x) {
                let k = choose|k: int|
                    #![trigger dms@.take(i as int)[k]]
                    0 <= k < i && (dms@.take(i as int)[k].user1_id == x || dms@.take(i as int)[k].user2_id == x);
                assert(dms@.take(i as int)[k] == dms@.take(i + 1)[k]);
            }
            if x == d.user1_id || x == d.user2_id {
                assert(dms@.take(i + 1)[i as int] == d);
            }
        }
    }
    assert(dms@.take(n as int) =~= dms@);
    r
}

/// The name of the user with id `x` among the users read: the last row with
/// that id wins.
pub open spec fn name_in(users: Seq<user::Model>, x: u128) -> Option<String>
    decreases users.len(),
{
    if users.len() == 0 {
        None
    } else if users.last().id == x {
        Some(users.last().username)
    } else {
        name_in(users.drop_last(), x)
    }
}

/// The name shown for a party of a conversation.
pub open spec fn party_name_ok(name: String, users: Seq<user::Model>, x: u128) -> bool {
    match name_in(users, x) {
        Some(n) => name == n,
        None => name@ == "Utilisateur Inconnu"@,
    }
}

/// The name shown for a party of a conversation.
fn party_name(users: &Vec<user::Model>, x: u128) -> (r: String)
    ensures
        party_name_ok(r, users@, x),
{
    let n = users.len();
    let mut i = n;
    assert(users@.take(n as int) =~= users@);
    while i > 0
        invariant
            n == users@.len(),
            0 <= i <= n,
            name_in(users@, x) == name_in(users@.take(i as int), x),
        decreases i,
    {
        assert(users@.take(i as int).drop_last() =~= users@.take(i - 1));
        if users[i - 1].id == x {
            return users[i - 1].username.clone();
        }
        i = i - 1;
    }
    assert(users@.take(0) =~= Seq::<user::Model>::empty());
    "Utilisateur Inconnu".to_owned()
}

/// The conversations as clients see them, with the names of both users.
pub fn dm_items(dms: &Vec<direct_message::Model>, users: &Vec<user::Model>) -> (r: Vec<DmItem>)
    ensures
        r@.len() == dms@.len(),
        forall|k: int|
            0 <= k < r@.len() ==> {
                &&& (#[trigger] r@[k]).id == dms@[k].id
                &&& r@[k].user1 == dms@[k].user1_id
                &&& r@[k].user2 == dms@[k].user2_id
                &&& party_name_ok(r@[k].user1_username, users@, dms@[k].user1_id)
                &&& party_name_ok(r@[k].user2_username, users@, dms@[k].user2_id)
            },
{
    assert(users@.take(users@.len() as int) =~= users@);
    let mut r: Vec<DmItem> = Vec::new();
    let n = dms.len();
    for i in 0..n
        invariant
            n == dms@.len(),
            r@.len() == i,
            forall|k: int|
                0 <= k < i ==> {
                    &&& (#[trigger] r@[k]).id == dms@[k].id
                    &&& r@[k].user1 == dms@[k].user1_id
                    &&& r@[k].user2 == dms@[k].user2_id
                    &&& party_name_ok(r@[k].user1_username, users@, dms@[k].user1_id)
                    &&& party_name_ok(r@[k].user2_username, users@, dms@[k].user2_id)
                },
    {
        let d = &dms[i];
        r.push(
            DmItem {
                id: d.id,
                user1: d.user1_id,
                user2: d.user2_id,
                user1_username: party_name(users, d.user1_id),
                user2_username: party_name(users, d.user2_id),
            },
        );
    }
    r
}

// ---------------------------------------------------------------- reactions

/// The six emojis that can be put on a message.
pub open spec fn allowed_emoji(e: Seq<char>) -> bool {
    ||| e == "\u{1F44D}"@
    ||| e == "\u{1F44E}"@
    ||| e == "\u{1F60A}"@
    ||| e == "\u{1F622}"@
    ||| e == "\u{2764}\u{FE0F}"@
    ||| e == "\u{1F602}"@
}

/// Only the six emojis can be put on a message.
pub fn check_emoji(e: &str) -> (r: Result<(), AppError>)
    ensures
        outcome(r) == (if allowed_emoji(e@) {
            Ok::<(), Fault>(())
        } else {
            Err(Fault::BadRequest("Invalid emoji"@))
        }),
{
    if same_text(e, "\u{1F44D}") || same_text(e, "\u{1F44E}") || same_text(e, "\u{1F60A}") || same_text(
        e,
        "\u{1F622}",
    ) || same_text(e, "\u{2764}\u{FE0F}") || same_text(e, "\u{1F602}") {
        Ok(())
    } else {
        Err(AppError::BadRequest("Invalid emoji".to_owned()))
    }
}

/// What a toggle does: remove the user's reaction with that emoji if there
/// is one, add it otherwise.
#[derive(Debug)]
pub enum Toggle {
    Remove(u128),
    Add(message_reaction::Model),
}

/// Whether `r` toggles the emoji of a user on a message given the user's
/// row with that emoji, if any: that row is removed, or else a row with the
/// message, the user and the emoji is added.
pub open spec fn toggle_outcome(
    existing: Option<message_reaction::Model>,
    message_id: u128,
    user_id: u128,
    emoji: String,
    r: Toggle,
) -> bool {
    match existing {
        Some(x) => r == Toggle::Remove(x.id),
        None => match r {
            Toggle::Add(n) => n.message_id == message_id && n.user_id == user_id && n.emoji == emoji,
            _ => false,
        },
    }
}

/// The toggle of a user's emoji on a message at time `now`, given the
/// user's reaction with that emoji, if any.
pub fn toggle_at(existing: Option<message_reaction::Model>, message_id: u128, user_id: u128, emoji: String, now: i64) -> (r:
    Toggle)
    ensures
        toggle_outcome(existing, message_id, user_id, emoji, r),
        match existing {
            Some(x) => r == Toggle::Remove(x.id),
            None => match r {
                Toggle::Add(n) => {
                    &&& n.message_id == message_id
                    &&& n.user_id == user_id
                    &&& n.emoji == emoji
                    &&& n.created_at == now
                    &&& n.id != 0
                },
                _ => false,
            },
        },
{
    match existing {
        Some(x) => Toggle::Remove(x.id),
        None => Toggle::Add(
            message_reaction::Model { id: fresh_id(), message_id, user_id, emoji, created_at: now },
        ),
    }
}

/// The toggle of a user's emoji on a message now.
pub fn toggle(existing: Option<message_reaction::Model>, message_id: u128, user_id: u128, emoji: String) -> (r:
    Toggle)
    ensures
        toggle_outcome(existing, message_id, user_id, emoji, r),
        match existing {
            Some(x) => r == Toggle::Remove(x.id),
            None => match r {
                Toggle::Add(n) => {
                    &&& n.message_id == message_id
                    &&& n.user_id == user_id
                    &&& n.emoji == emoji
                    &&& time_in_range(n.created_at as int)
                    &&& n.id != 0
                },
                _ => false,
            },
        },
{
    toggle_at(existing, message_id, user_id, emoji, now_micros())
}

/// The notice of a toggle on message `m`.
pub fn reaction_event(added: bool, m: &message::Model, user_id: u128, emoji: String) -> (e: Event)
    ensures
        e == (Event::Reaction {
            added,
            message_id: m.id,
            user_id,
            emoji,
            server_id: m.server_id,
            channel_id: m.channel_id,
        }),
{
    Event::Reaction { added, message_id: m.id, user_id, emoji, server_id: m.server_id, channel_id: m.channel_id }
}

} // verus!
