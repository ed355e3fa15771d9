//! Properties of the service rules that hold across requests: who can
//! remove whom, how a server keeps its single owner, how bans, sessions,
//! reactions and broadcasts behave.
use vstd::prelude::*;
use crate::application::dto::apperror::Fault;
use crate::application::events::{Event, event_server};
use crate::application::services::access::{Rank, authorization, has_rank};
use crate::application::services::auth_service::{SessionPlan, ban_active, login_verdict, refresh_verdict, session_plan};
use crate::application::services::message_service::{
    DeleteAccess, Toggle, delete_access, room_between, toggle_outcome, edit_verdict, rank_allows_delete,
};
use crate::application::services::roster::{is_member_item, is_server_item, lists_servers, member_rows, servers_of};
use crate::application::dto::server_dto::{MemberItem, ServerItem};
use crate::application::dto::channel_dto::ChannelItem;
use crate::application::services::server_service::{
    role_named,
    BanCheck, RankPlan, ban_end, rank_plan, ban_target_verdict, ban_verdict, kick_verdict, leave_verdict, new_server_verdict,
    rank_change_verdict, server_update_verdict, server_updated, with_role, channel_creation_verdict,
    join_verdict, new_channel_verdict, role_of_word,
};
use crate::application::services::channel_service::{channel_update_verdict, channel_updated};
use crate::application::dto::channel_dto::UpdateChannelRequest;
use crate::application::utils::passwords::argon2_verdict;
use crate::application::utils::jwt::{carries, token_lifetime, token_verdict};
use crate::application::dto::token_dto::Claims;
use crate::domain::models::{channel, direct_message, message, message_reaction, server_ban, server_member, server_model, user};
use crate::domain::models::server_member::{MemberRole, manages};
use crate::infrastructure::api::sockets::websocket::{ServerField, delivered, routed_server};
use crate::text::{blank, byte_len, trimmed, lemma_trimmed_empty_iff_blank};

verus! {

// ---------------------------------------------------------------- ranks and removals

/// A request that needs a rank passes exactly when the requester is a member
/// whose role has that rank.
pub proof fn rank_gate(role: Option<MemberRole>, rank: Rank, outsider: Seq<char>, denial: Seq<char>)
    ensures
        authorization(role, rank, outsider, denial) is Ok <==> (role matches Some(r) && has_rank(r, rank)),
{
}

/// The owner of a server can neither be kicked, nor banned, nor leave.
pub proof fn owner_stays(requester: MemberRole, owner: server_member::Model, requester_id: u128, target_id: u128)
    requires
        owner.role == MemberRole::Owner,
    ensures
        kick_verdict(requester, Some(owner), requester_id, target_id) is Err,
        ban_target_verdict(requester, Some(owner), requester_id, target_id) is Err,
        leave_verdict(Some(owner)) is Err,
{
}

/// An admin can neither kick nor ban another admin.
pub proof fn admins_spare_admins(target: server_member::Model, requester_id: u128, target_id: u128)
    requires
        target.role == MemberRole::Admin,
    ensures
        kick_verdict(MemberRole::Admin, Some(target), requester_id, target_id) is Err,
        ban_target_verdict(MemberRole::Admin, Some(target), requester_id, target_id) is Err,
{
}

/// Nobody kicks, bans or re-ranks themselves.
pub proof fn no_self_moderation(
    requester: MemberRole,
    target: Option<server_member::Model>,
    me: u128,
    new_role: Seq<char>,
)
    ensures
        kick_verdict(requester, target, me, me) is Err,
        ban_target_verdict(requester, target, me, me) is Err,
        rank_change_verdict(target, me, me, new_role) is Err,
{
}

/// Whatever a kick, a ban or a departure removes, it is never an owner's membership.
pub proof fn removals_spare_owner(
    requester: MemberRole,
    target: Option<server_member::Model>,
    requester_id: u128,
    target_id: u128,
)
    ensures
        kick_verdict(requester, target, requester_id, target_id) matches Ok(t) ==> t.role != MemberRole::Owner,
        ban_target_verdict(requester, target, requester_id, target_id) matches Ok(Some(t)) ==> t.role
            != MemberRole::Owner,
        leave_verdict(target) matches Ok(t) ==> t.role != MemberRole::Owner,
{
}

/// A kick goes through exactly when the target is a member who is not the
/// owner, is not an admin kicked by an admin, and is not the requester; what
/// it removes is the target's membership.  In particular the owner or an
/// admin kicks any plain member but themselves.
pub proof fn kicks_allowed(
    requester: MemberRole,
    target: Option<server_member::Model>,
    requester_id: u128,
    target_id: u128,
)
    ensures
        kick_verdict(requester, target, requester_id, target_id) is Ok <==> (target is Some && target.unwrap().role
            != MemberRole::Owner && !(requester == MemberRole::Admin && target.unwrap().role == MemberRole::Admin)
            && requester_id != target_id),
        kick_verdict(requester, target, requester_id, target_id) is Ok ==> kick_verdict(
            requester,
            target,
            requester_id,
            target_id,
        ) == Ok::<server_member::Model, Fault>(target.unwrap()),
        manages(requester) && target is Some && target.unwrap().role == MemberRole::Member && requester_id
            != target_id ==> kick_verdict(requester, target, requester_id, target_id) == Ok::<
            server_member::Model,
            Fault,
        >(target.unwrap()),
{
}

/// A ban goes through exactly when the requester is not the target and the
/// target is no member, or a member who is not the owner and is not an admin
/// banned by an admin; what it removes is the target's membership, if any.
/// In particular the owner or an admin bans any plain member but themselves.
pub proof fn bans_allowed(
    requester: MemberRole,
    target: Option<server_member::Model>,
    requester_id: u128,
    target_id: u128,
)
    ensures
        ban_target_verdict(requester, target, requester_id, target_id) is Ok <==> (requester_id != target_id && (
        target is None || (target.unwrap().role != MemberRole::Owner && !(requester == MemberRole::Admin
            && target.unwrap().role == MemberRole::Admin)))),
        ban_target_verdict(requester, target, requester_id, target_id) is Ok ==> ban_target_verdict(
            requester,
            target,
            requester_id,
            target_id,
        ) == Ok::<Option<server_member::Model>, Fault>(target),
        manages(requester) && target is Some && target.unwrap().role == MemberRole::Member && requester_id
            != target_id ==> ban_target_verdict(requester, target, requester_id, target_id) == Ok::<
            Option<server_member::Model>,
            Fault,
        >(target),
{
}

/// Every member but the owner may leave, and what leaves is that membership;
/// a non-member cannot leave.
pub proof fn members_may_leave(m: Option<server_member::Model>)
    ensures
        leave_verdict(m) is Ok <==> (m is Some && m.unwrap().role != MemberRole::Owner),
        m is Some && m.unwrap().role != MemberRole::Owner ==> leave_verdict(m) == Ok::<server_member::Model, Fault>(
            m.unwrap(),
        ),
{
}

/// The owner and the admins create channels; a plain member's request is a
/// bad request, an outsider's is forbidden.
pub proof fn managers_create_channels(role: Option<MemberRole>)
    ensures
        role is Some && manages(role.unwrap()) ==> channel_creation_verdict(role) == Ok::<MemberRole, Fault>(
            role.unwrap(),
        ),
        role == Some(MemberRole::Member) ==> channel_creation_verdict(role) is Err && channel_creation_verdict(
            role,
        )->Err_0 is BadRequest,
        role is None ==> channel_creation_verdict(role) is Err && channel_creation_verdict(role)->Err_0 is Forbidden,
{
}

/// A join goes through exactly for a user who is not a member yet and gives
/// the server's own code.
pub proof fn joins_need_code(already_member: bool, code: i32, server_code: i32)
    ensures
        join_verdict(already_member, code, server_code) is Ok <==> (!already_member && code == server_code),
{
}

/// The owner sets the rank of any other member to any of the three rank
/// words; the membership and the rank named are what the change applies.
pub proof fn owner_sets_ranks(target: server_member::Model, requester_id: u128, target_id: u128, word: Seq<char>)
    requires
        requester_id != target_id,
        role_named(word) is Some,
    ensures
        rank_change_verdict(Some(target), requester_id, target_id, word) == Ok::<
            (server_member::Model, MemberRole),
            Fault,
        >((target, role_named(word).unwrap())),
{
}

/// The three rank words name the three ranks.
pub proof fn rank_words()
    ensures
        role_of_word("admin"@) == Some(MemberRole::Admin),
        role_of_word("member"@) == Some(MemberRole::Member),
        role_of_word("owner"@) == Some(MemberRole::Owner),
{
    reveal_strlit("admin");
    reveal_strlit("member");
    reveal_strlit("owner");
    assert("member"@[0] != "admin"@[0]);
    assert("owner"@[0] != "admin"@[0]);
    assert("owner"@[0] != "member"@[0]);
}

/// A channel is created exactly under a name that is not blank.
pub proof fn channels_need_names(name: Seq<char>)
    ensures
        new_channel_verdict(name) is Ok <==> !blank(name),
{
}

// ---------------------------------------------------------------- the single owner

/// The ids of the memberships that own server `s`.
pub open spec fn owner_rows(table: Seq<server_member::Model>, s: i32) -> Set<u128> {
    Set::new(
        |id: u128|
            exists|i: int|
                #![trigger table[i]]
                0 <= i < table.len() && table[i].id == id && table[i].server_id == s && table[i].role
                    == MemberRole::Owner,
    )
}

/// The table with the membership of id `id` given rank `r`.
pub open spec fn set_rank(table: Seq<server_member::Model>, id: u128, r: MemberRole) -> Seq<server_member::Model> {
    Seq::new(table.len(), |i: int| if table[i].id == id { with_role(table[i], r) } else { table[i] })
}

/// The table without the membership of id `id`.
pub open spec fn drop_row(table: Seq<server_member::Model>, id: u128) -> Seq<server_member::Model> {
    table.filter(|m: server_member::Model| m.id != id)
}

/// Each membership has its own id.
pub open spec fn ids_unique(table: Seq<server_member::Model>) -> bool {
    forall|i: int, j: int| 0 <= i < table.len() && 0 <= j < table.len() && i != j ==> table[i].id != table[j].id
}

/// Handing a server over — the old owner made admin, the target made owner —
/// leaves the target's membership the only owner.
pub proof fn hand_over_keeps_one_owner(table: Seq<server_member::Model>, s: i32, qi: int, ti: int)
    requires
        ids_unique(table),
        0 <= qi < table.len(),
        0 <= ti < table.len(),
        qi != ti,
        table[qi].server_id == s,
        table[ti].server_id == s,
        owner_rows(table, s) == set![table[qi].id],
    ensures
        owner_rows(set_rank(set_rank(table, table[qi].id, MemberRole::Admin), table[ti].id, MemberRole::Owner), s)
            == set![table[ti].id],
{
    let q = table[qi];
    let t = table[ti];
    let mid = set_rank(table, q.id, MemberRole::Admin);
    let after = set_rank(mid, t.id, MemberRole::Owner);
    assert forall|id: u128| owner_rows(after, s).contains(id) <==> set![t.id].contains(id) by {
        if id == t.id {
            assert(after[ti].id == t.id && after[ti].server_id == s && after[ti].role == MemberRole::Owner);
        }
        if owner_rows(after, s).contains(id) {
            let i = choose|i: int|
                #![trigger after[i]]
                0 <= i < after.len() && after[i].id == id && after[i].server_id == s && after[i].role
                    == MemberRole::Owner;
            if table[i].id != t.id && table[i].id != q.id {
                assert(owner_rows(table, s).contains(table[i].id));
            }
        }
    }
    assert(owner_rows(after, s) =~= set![t.id]);
}

/// The memberships table once the writes of a change of rank are made.
pub open spec fn apply_plan(table: Seq<server_member::Model>, p: RankPlan) -> Seq<server_member::Model> {
    let t1 = match p.demoted {
        Some(d) => set_rank(table, d.id, d.role),
        None => table,
    };
    set_rank(t1, p.target.id, p.target.role)
}

/// A change of rank by the single owner of a server leaves one owner: the
/// target when the new rank is "owner", the requester otherwise.
pub proof fn rank_plan_keeps_one_owner(table: Seq<server_member::Model>, s: i32, qi: int, ti: int, r: MemberRole)
    requires
        ids_unique(table),
        0 <= qi < table.len(),
        0 <= ti < table.len(),
        qi != ti,
        table[qi].server_id == s,
        table[ti].server_id == s,
        owner_rows(table, s) == set![table[qi].id],
    ensures
        owner_rows(apply_plan(table, rank_plan(table[qi], table[ti], r)), s) == (if r == MemberRole::Owner {
            set![table[ti].id]
        } else {
            set![table[qi].id]
        }),
{
    if r == MemberRole::Owner {
        hand_over_keeps_one_owner(table, s, qi, ti);
    } else {
        assert(!set![table[qi].id].contains(table[ti].id));
        rank_change_keeps_owner(table, s, table[ti].id, r);
    }
}

/// Changing the rank of a membership that does not own the server to admin
/// or member leaves the owners as they were.
pub proof fn rank_change_keeps_owner(table: Seq<server_member::Model>, s: i32, id: u128, r: MemberRole)
    requires
        r != MemberRole::Owner,
        !owner_rows(table, s).contains(id),
    ensures
        owner_rows(set_rank(table, id, r), s) == owner_rows(table, s),
{
    let after = set_rank(table, id, r);
    assert forall|x: u128| owner_rows(after, s).contains(x) <==> owner_rows(table, s).contains(x) by {
        if owner_rows(after, s).contains(x) {
            let i = choose|i: int|
                #![trigger after[i]]
                0 <= i < after.len() && after[i].id == x && after[i].server_id == s && after[i].role
                    == MemberRole::Owner;
            assert(table[i].id != id);
        }
        if owner_rows(table, s).contains(x) {
            let i = choose|i: int|
                #![trigger table[i]]
                0 <= i < table.len() && table[i].id == x && table[i].server_id == s && table[i].role
                    == MemberRole::Owner;
            assert(after[i] == table[i]);
        }
    }
    assert(owner_rows(after, s) =~= owner_rows(table, s));
}

/// Deleting a membership that does not own the server leaves the owners as they were.
pub proof fn removal_keeps_owner(table: Seq<server_member::Model>, s: i32, gone: server_member::Model)
    requires
        ids_unique(table),
        table.contains(gone),
        gone.role != MemberRole::Owner,
    ensures
        owner_rows(drop_row(table, gone.id), s) == owner_rows(table, s),
{
    let after = drop_row(table, gone.id);
    assert forall|x: u128| owner_rows(after, s).contains(x) <==> owner_rows(table, s).contains(x) by {
        if owner_rows(after, s).contains(x) {
            let i = choose|i: int|
                #![trigger after[i]]
                0 <= i < after.len() && after[i].id == x && after[i].server_id == s && after[i].role
                    == MemberRole::Owner;
            assert(table.filter(|m: server_member::Model| m.id != gone.id).contains(after[i]));
            table.lemma_filter_contains_rev(|m: server_member::Model| m.id != gone.id, after[i]);
            let j = choose|j: int| 0 <= j < table.len() && table[j] == after[i];
            assert(table[j].id == x);
        }
        if owner_rows(table, s).contains(x) {
            let i = choose|i: int|
                #![trigger table[i]]
                0 <= i < table.len() && table[i].id == x && table[i].server_id == s && table[i].role
                    == MemberRole::Owner;
            let gi = choose|j: int| 0 <= j < table.len() && table[j] == gone;
            assert(table[i].id != gone.id);
            table.lemma_filter_contains(|m: server_member::Model| m.id != gone.id, i);
            let k = choose|k: int| 0 <= k < after.len() && after[k] == table[i];
            assert(after[k].id == x);
        }
    }
    assert(owner_rows(after, s) =~= owner_rows(table, s));
}

// ---------------------------------------------------------------- bans

/// A ban refuses a join exactly while it holds — the same bans that the
/// "me" summary lists as pending — and a ban that has run out is lifted.
pub proof fn bans_block_while_active(b: server_ban::Model, now: i64)
    ensures
        ban_verdict(Some(b), now) is Err <==> ban_active(b, now),
        !ban_active(b, now) ==> ban_verdict(Some(b), now) == Ok::<BanCheck, Fault>(BanCheck::Lift(b.id)),
        ban_verdict(None, now) == Ok::<BanCheck, Fault>(BanCheck::Clear),
{
}

/// A ban of `d` seconds given at `given` keeps the user out until `d`
/// seconds have passed; a ban without duration keeps the user out for ever.
pub proof fn ban_lasts(b: server_ban::Model, duration: Option<i32>, given: i64, now: i64)
    requires
        b.banned_until == ban_end(duration, given),
        match duration {
            Some(d) => given <= now < given + d * 1_000_000,
            None => true,
        },
        match duration {
            Some(d) => i64::MIN <= given + d * 1_000_000 <= i64::MAX,
            None => true,
        },
    ensures
        ban_verdict(Some(b), now) is Err,
{
}

// ---------------------------------------------------------------- accounts and sessions

/// A user logs in with the password their stored hash was made from.
pub proof fn signup_then_login(u: user::Model, password: Seq<char>)
    requires
        argon2_verdict(u.password_hash@, password) == Ok::<bool, Seq<char>>(true),
    ensures
        login_verdict(Some(u), password) == Ok::<user::Model, Fault>(u),
{
}

/// A session that a log-in at `now` reuses (it expires after `now`) is
/// accepted by a refresh at the same instant, for the same user.
pub proof fn reused_session_refreshes(t: crate::domain::models::refresh_token::Model, now: i64)
    requires
        session_plan(Some(t), now) is Reuse,
    ensures
        session_plan(Some(t), now) == SessionPlan::Reuse(t.token),
        refresh_verdict(Some(t), now) == Ok::<u128, Fault>(t.user_id),
{
}

/// A token issued for a user, once accepted under the same secret, carries
/// the claims it was issued with: the user, the name, the issue time and the
/// expiry 48 hours later.
pub proof fn issued_tokens_verify(
    user_id: u128,
    username: Seq<char>,
    secret: Seq<char>,
    now: i64,
    token: Seq<char>,
    c: Claims,
)
    requires
        token_verdict(user_id, username, Some(secret), now) == Ok::<Seq<char>, Fault>(token),
        carries(token, secret, c),
    ensures
        c.sub == user_id,
        c.username@ == username,
        c.exp == (now + token_lifetime()) as usize,
        c.iat == now as usize,
{
}

// ---------------------------------------------------------------- server names

/// A server is created only with a non-blank name of at most 20 bytes and a
/// non-blank description.
pub proof fn created_names_valid(taken: bool, name: Seq<char>, description: Seq<char>)
    ensures
        new_server_verdict(taken, name, description) is Ok ==> !taken && !blank(name) && byte_len(name) <= 20
            && !blank(description),
{
}

/// A change of a server's name or description stores a non-empty text with
/// no whitespace at either end.
pub proof fn updated_names_trimmed(s: server_model::Model, req: crate::application::dto::server_dto::UpdateServerRequest, r: server_model::Model)
    requires
        server_update_verdict(s, req) is Ok,
        server_updated(r, s, req),
    ensures
        req.name is Some ==> r.name@.len() > 0 && r.name@ == trimmed(r.name@),
        req.description is Some ==> r.description@.len() > 0 && r.description@ == trimmed(r.description@),
{
    match req.name {
        Some(n) => {
            lemma_trimmed_empty_iff_blank(n@);
            crate::text::lemma_trimmed_idempotent(n@);
        },
        None => {},
    }
    match req.description {
        Some(d) => {
            lemma_trimmed_empty_iff_blank(d@);
            crate::text::lemma_trimmed_idempotent(d@);
        },
        None => {},
    }
}

/// A change of a channel that goes through stores each field the request
/// gives, exactly as given, keeps each field it leaves out, and keeps the
/// channel's id and server.
pub proof fn channel_update_stores_fields(c: channel::Model, req: UpdateChannelRequest, v: channel::Model)
    requires
        channel_update_verdict(req) is Ok,
        channel_updated(v, c, req),
    ensures
        v.id == c.id,
        v.server_id == c.server_id,
        req.name is Some ==> v.name == req.name.unwrap(),
        req.name is None ==> v.name == c.name,
        req.description is Some ==> v.description == req.description.unwrap(),
        req.description is None ==> v.description == c.description,
        req.position is Some ==> v.position == req.position.unwrap(),
        req.position is None ==> v.position == c.position,
        req.name is Some ==> !blank(v.name@),
        req.description is Some ==> !blank(v.description@),
{
}

/// A change of a channel is refused exactly when it gives a blank name or a
/// blank description.
pub proof fn channel_update_refusals(req: UpdateChannelRequest)
    ensures
        channel_update_verdict(req) is Err <==> ((req.name is Some && blank(req.name.unwrap()@)) || (
        req.description is Some && blank(req.description.unwrap()@))),
{
}

/// A change of a server that goes through keeps its id, owner and code,
/// keeps each field the request leaves out and stores each one it gives (a
/// name or description trimmed, an icon as given).
pub proof fn server_update_stores_fields(s: server_model::Model, req: crate::application::dto::server_dto::UpdateServerRequest, r: server_model::Model)
    requires
        server_update_verdict(s, req) is Ok,
        server_updated(r, s, req),
    ensures
        r.id == s.id,
        r.owner_id == s.owner_id,
        r.invitcode == s.invitcode,
        req.name is Some ==> r.name@ == trimmed(req.name.unwrap()@),
        req.name is None ==> r.name == s.name,
        req.description is Some ==> r.description@ == trimmed(req.description.unwrap()@),
        req.description is None ==> r.description == s.description,
        req.icon_url is Some ==> r.icon_url == req.icon_url,
        req.icon_url is None ==> r.icon_url == s.icon_url,
{
}

/// A change of a server is refused exactly for a blank or over-long name or
/// a blank description.
pub proof fn server_update_refusals(s: server_model::Model, req: crate::application::dto::server_dto::UpdateServerRequest)
    ensures
        server_update_verdict(s, req) is Err <==> ((req.name is Some && (blank(req.name.unwrap()@) || byte_len(
            req.name.unwrap()@,
        ) > 20)) || (req.description is Some && blank(req.description.unwrap()@))),
{
}

/// A refresh at `now` goes through exactly for a stored session that has not
/// expired before `now`, and issues for that session's user.
pub proof fn refreshes_need_live_sessions(t: Option<crate::domain::models::refresh_token::Model>, now: i64)
    ensures
        refresh_verdict(t, now) is Ok <==> (t is Some && t.unwrap().expires_at >= now),
        refresh_verdict(t, now) is Ok ==> refresh_verdict(t, now) == Ok::<u128, Fault>(t.unwrap().user_id),
{
}

// ---------------------------------------------------------------- reactions

/// Whether user `u` has put emoji `e` on message `m`.
pub open spec fn reacted(table: Seq<message_reaction::Model>, m: u128, u: u128, e: Seq<char>) -> bool {
    exists|i: int|
        #![trigger table[i]]
        0 <= i < table.len() && table[i].message_id == m && table[i].user_id == u && table[i].emoji@ == e
}

/// The reactions table after a toggle.
pub open spec fn apply_toggle(table: Seq<message_reaction::Model>, t: Toggle) -> Seq<message_reaction::Model> {
    match t {
        Toggle::Remove(id) => table.filter(|r: message_reaction::Model| r.id != id),
        Toggle::Add(n) => table.push(n),
    }
}

/// At most one reaction per (message, user, emoji), and each row its own id.
pub open spec fn reactions_unique(table: Seq<message_reaction::Model>) -> bool {
    forall|i: int, j: int|
        0 <= i < table.len() && 0 <= j < table.len() && i != j ==> table[i].id != table[j].id && !(
        table[i].message_id == table[j].message_id && table[i].user_id == table[j].user_id && table[i].emoji@
            == table[j].emoji@)
}

/// A toggle adds the user's emoji when it is absent and removes it when it
/// is present: toggling twice puts the message back as it was.
pub proof fn toggle_flips(table: Seq<message_reaction::Model>, m: u128, u: u128, e: Seq<char>, t: Toggle)
    requires
        reactions_unique(table),
        match t {
            Toggle::Remove(id) => exists|i: int|
                #![trigger table[i]]
                0 <= i < table.len() && table[i].id == id && table[i].message_id == m && table[i].user_id == u
                    && table[i].emoji@ == e,
            Toggle::Add(n) => !reacted(table, m, u, e) && n.message_id == m && n.user_id == u && n.emoji@ == e,
        },
    ensures
        reacted(apply_toggle(table, t), m, u, e) == !reacted(table, m, u, e),
{
    match t {
        Toggle::Add(n) => {
            let after = table.push(n);
            assert(after[table.len() as int] == n);
        },
        Toggle::Remove(id) => {
            let k = choose|i: int|
                #![trigger table[i]]
                0 <= i < table.len() && table[i].id == id && table[i].message_id == m && table[i].user_id == u
                    && table[i].emoji@ == e;
            let after = table.filter(|r: message_reaction::Model| r.id != id);
            if reacted(after, m, u, e) {
                let i = choose|i: int|
                    #![trigger after[i]]
                    0 <= i < after.len() && after[i].message_id == m && after[i].user_id == u && after[i].emoji@ == e;
                assert(after.contains(after[i]));
                table.lemma_filter_contains_rev(|r: message_reaction::Model| r.id != id, after[i]);
                let j = choose|j: int| 0 <= j < table.len() && table[j] == after[i];
                assert(j != k);
            }
            assert(reacted(table, m, u, e));
        },
    }
}

/// The (message, user, emoji) triple of a reaction.
pub open spec fn reaction_key(r: message_reaction::Model) -> (u128, u128, Seq<char>) {
    (r.message_id, r.user_id, r.emoji@)
}

/// The triples of the reactions table.
pub open spec fn reaction_keys(table: Seq<message_reaction::Model>) -> Set<(u128, u128, Seq<char>)> {
    Set::new(
        |k: (u128, u128, Seq<char>)|
            exists|i: int| #![trigger table[i]] 0 <= i < table.len() && reaction_key(table[i]) == k,
    )
}

/// Whether `t` is what a toggle of emoji `e` by user `u` on message `m` does
/// to the table: remove the user's row with that emoji when there is one
/// (`toggle` is given that row), add a row with that triple otherwise.
pub open spec fn toggles(table: Seq<message_reaction::Model>, m: u128, u: u128, e: Seq<char>, t: Toggle) -> bool {
    match t {
        Toggle::Remove(id) => exists|i: int|
            #![trigger table[i]]
            0 <= i < table.len() && table[i].id == id && reaction_key(table[i]) == (m, u, e),
        Toggle::Add(n) => !reacted(table, m, u, e) && reaction_key(n) == (m, u, e),
    }
}

/// A toggle changes the triples of the table by exactly the toggled triple:
/// it is added when absent and removed when present, and no other changes.
pub proof fn toggle_flips_key(table: Seq<message_reaction::Model>, m: u128, u: u128, e: Seq<char>, t: Toggle)
    requires
        reactions_unique(table),
        toggles(table, m, u, e, t),
    ensures
        reaction_keys(apply_toggle(table, t)) == (if reaction_keys(table).contains((m, u, e)) {
            reaction_keys(table).remove((m, u, e))
        } else {
            reaction_keys(table).insert((m, u, e))
        }),
{
    let before = reaction_keys(table);
    let after = apply_toggle(table, t);
    match t {
        Toggle::Add(n) => {
            if before.contains((m, u, e)) {
                let i = choose|i: int| #![trigger table[i]] 0 <= i < table.len() && reaction_key(table[i]) == (m, u, e);
                assert(table[i].message_id == m && table[i].user_id == u && table[i].emoji@ == e);
            }
            assert forall|k: (u128, u128, Seq<char>)| reaction_keys(after).contains(k) <==> before.insert((m, u, e)).contains(k) by {
                if reaction_keys(after).contains(k) {
                    let i = choose|i: int| #![trigger after[i]] 0 <= i < after.len() && reaction_key(after[i]) == k;
                    if i < table.len() {
                        assert(after[i] == table[i]);
                    }
                }
                if k == (m, u, e) {
                    assert(after[table.len() as int] == n);
                } else if before.contains(k) {
                    let i = choose|i: int| #![trigger table[i]] 0 <= i < table.len() && reaction_key(table[i]) == k;
                    assert(after[i] == table[i]);
                }
            }
            assert(reaction_keys(after) =~= before.insert((m, u, e)));
        },
        Toggle::Remove(id) => {
            let pred = |r: message_reaction::Model| r.id != id;
            let k0 = choose|i: int| #![trigger table[i]] 0 <= i < table.len() && table[i].id == id && reaction_key(table[i]) == (m, u, e);
            assert(before.contains((m, u, e)));
            assert forall|k: (u128, u128, Seq<char>)| reaction_keys(after).contains(k) <==> before.remove((m, u, e)).contains(k) by {
                if reaction_keys(after).contains(k) {
                    let i = choose|i: int| #![trigger after[i]] 0 <= i < after.len() && reaction_key(after[i]) == k;
                    assert(after.contains(after[i]));
                    table.lemma_filter_contains_rev(pred, after[i]);
                    table.lemma_filter_pred(pred, i);
                    let j = choose|j: int| 0 <= j < table.len() && table[j] == after[i];
                    assert(reaction_key(table[j]) == k);
                    assert(j != k0);
                }
                if before.contains(k) && k != (m, u, e) {
                    let j = choose|j: int| #![trigger table[j]] 0 <= j < table.len() && reaction_key(table[j]) == k;
                    assert(j != k0);
                    assert(table[j].id != id);
                    table.lemma_filter_contains(pred, j);
                    let i = choose|i: int| 0 <= i < after.len() && after[i] == table[j];
                    assert(reaction_key(after[i]) == k);
                }
            }
            assert(reaction_keys(after) =~= before.remove((m, u, e)));
        },
    }
}

/// What `toggle` decides from the row that the table holds for the user's
/// emoji on the message (if any) is a flip of that triple in the table.
pub proof fn toggle_step_flips(
    table: Seq<message_reaction::Model>,
    existing: Option<message_reaction::Model>,
    m: u128,
    u: u128,
    e: String,
    t: Toggle,
)
    requires
        reactions_unique(table),
        match existing {
            Some(x) => table.contains(x) && reaction_key(x) == (m, u, e@),
            None => !reacted(table, m, u, e@),
        },
        toggle_outcome(existing, m, u, e, t),
    ensures
        toggles(table, m, u, e@, t),
        reaction_keys(apply_toggle(table, t)) == (if reaction_keys(table).contains((m, u, e@)) {
            reaction_keys(table).remove((m, u, e@))
        } else {
            reaction_keys(table).insert((m, u, e@))
        }),
{
    match existing {
        Some(x) => {
            let i = choose|i: int| 0 <= i < table.len() && table[i] == x;
            assert(table[i].id == x.id && reaction_key(table[i]) == (m, u, e@));
        },
        None => {},
    }
    toggle_flips_key(table, m, u, e@, t);
}

/// Toggling the same emoji twice puts the triples of the table back as they
/// were.
pub proof fn toggle_twice_restores(
    table: Seq<message_reaction::Model>,
    m: u128,
    u: u128,
    e: Seq<char>,
    first: Toggle,
    second: Toggle,
)
    requires
        reactions_unique(table),
        toggles(table, m, u, e, first),
        reactions_unique(apply_toggle(table, first)),
        toggles(apply_toggle(table, first), m, u, e, second),
    ensures
        reaction_keys(apply_toggle(apply_toggle(table, first), second)) == reaction_keys(table),
{
    let mid = apply_toggle(table, first);
    toggle_flips_key(table, m, u, e, first);
    toggle_flips_key(mid, m, u, e, second);
    let k = (m, u, e);
    if reaction_keys(table).contains(k) {
        assert(!reaction_keys(mid).contains(k));
        assert(reaction_keys(mid).insert(k) =~= reaction_keys(table));
    } else {
        assert(reaction_keys(mid).contains(k));
        assert(reaction_keys(mid).remove(k) =~= reaction_keys(table));
    }
}

// ---------------------------------------------------------------- deleting and editing

/// The answer of the two steps of a deletion: what the message tells, then,
/// for a channel message of someone else, the requester's role (`None` for no
/// membership) in the channel's server.
pub open spec fn deletion_answer(m: message::Model, requester: u128, role: Option<MemberRole>) -> Result<
    bool,
    Fault,
> {
    match delete_access(m, requester) {
        DeleteAccess::Author => Ok(true),
        DeleteAccess::ByRank(_) => rank_allows_delete(role),
        DeleteAccess::Denied => Ok(false),
    }
}

/// A message is deleted by its author, or, in a channel, by an owner or an
/// admin of the channel's server; by nobody else.
pub proof fn deletion_rights(m: message::Model, requester: u128, role: Option<MemberRole>)
    ensures
        deletion_answer(m, requester, role) == Ok::<bool, Fault>(true) <==> (m.user_id == requester || (
        m.channel_id is Some && role is Some && manages(role.unwrap()))),
{
}

/// Only the author of a message edits it, and never to blank text.
pub proof fn edits_by_author_only(m: message::Model, requester: u128, new_content: Seq<char>)
    ensures
        edit_verdict(m, requester, new_content) is Ok <==> (m.user_id == requester && !blank(new_content)),
{
}

// ---------------------------------------------------------------- conversations

/// The conversation between two users is the same whichever of them asks.
pub proof fn conversations_either_order(rooms: Seq<direct_message::Model>, a: u128, b: u128)
    ensures
        room_between(rooms, a, b) == room_between(rooms, b, a),
    decreases rooms.len(),
{
    if rooms.len() > 0 {
        conversations_either_order(rooms.drop_first(), a, b);
    }
}

// ---------------------------------------------------------------- server lists

/// What clients read of a member: every field, the rank and presence as text.
pub open spec fn member_text(m: MemberItem) -> (u128, u128, String, Option<String>, Option<String>, Seq<char>, Seq<char>) {
    (m.id, m.user_id, m.username, m.display_name, m.avatar_url, m.role@, m.status@)
}

/// What clients read of a server description.
pub open spec fn server_text(it: ServerItem) -> (
    (i32, String, String, Option<String>, u128, i32),
    (Seq<u128>, Seq<ChannelItem>, Seq<(u128, u128, String, Option<String>, Option<String>, Seq<char>, Seq<char>)>),
) {
    (
        (it.id, it.name, it.description, it.icon_url, it.owner_id, it.invitcode),
        (it.admins@, it.channels@, it.members@.map_values(|m: MemberItem| member_text(m))),
    )
}

/// Two lists that describe the servers of the same memberships, channels and
/// members read the same, item by item: the server list that "me" returns is
/// the one that the list of servers returns for the same rows.
pub proof fn server_lists_agree(
    r1: Seq<ServerItem>,
    r2: Seq<ServerItem>,
    ms: Seq<(server_member::Model, Option<server_model::Model>)>,
    cs: Seq<channel::Model>,
    rows: Seq<(server_member::Model, Option<user::Model>)>,
)
    requires
        lists_servers(r1, ms, cs, rows),
        lists_servers(r2, ms, cs, rows),
    ensures
        r1.map_values(|it: ServerItem| server_text(it)) == r2.map_values(|it: ServerItem| server_text(it)),
{
    assert forall|k: int| 0 <= k < r1.len() implies server_text(r1[k]) == server_text(r2[k]) by {
        let a = r1[k];
        let b = r2[k];
        assert(is_server_item(a, servers_of(ms)[k], cs, rows, Some(servers_of(ms)[k].id)));
        assert(is_server_item(b, servers_of(ms)[k], cs, rows, Some(servers_of(ms)[k].id)));
        let mr = member_rows(rows, Some(servers_of(ms)[k].id));
        assert forall|q: int| 0 <= q < a.members@.len() implies member_text(a.members@[q]) == member_text(b.members@[q]) by {
            assert(is_member_item(a.members@[q], mr[q].0, mr[q].1));
            assert(is_member_item(b.members@[q], mr[q].0, mr[q].1));
        }
        assert(a.members@.map_values(|m: MemberItem| member_text(m)) =~= b.members@.map_values(|m: MemberItem| member_text(m)));
    }
    assert(r1.map_values(|it: ServerItem| server_text(it)) =~= r2.map_values(|it: ServerItem| server_text(it)));
}

// ---------------------------------------------------------------- broadcasts

/// A client receives a broadcast only when it names one of the client's
/// servers; a server named as a number reaches exactly its members.
pub proof fn broadcasts_stay_in_server(f: ServerField, servers: Seq<i32>, s: i32)
    ensures
        delivered(f, servers) ==> (routed_server(f) matches Some(x) && servers.contains(x)),
        delivered(ServerField::Int(s as i64), servers) == servers.contains(s),
{
}

/// The members listed for a server belong to that server.
pub proof fn listed_members_belong(
    rows: Seq<(server_member::Model, Option<user::Model>)>,
    s: i32,
)
    ensures
        forall|k: int| 0 <= k < member_rows(rows, Some(s)).len() ==> (#[trigger] member_rows(rows, Some(s))[k]).0.server_id == s,
    decreases rows.len(),
{
    if rows.len() > 0 {
        listed_members_belong(rows.drop_last(), s);
    }
}

} // verus!
