use vstd::prelude::*;

use crate::codec::CallbackDataV;
use crate::room::{
    after_advance, after_deliver, after_finish, after_ready, fresh_room, Axis, Role, RoomV,
};
use crate::handlers::reentry_outcome;
use crate::store::StoreV;
use crate::structures::{rating_applies, rating_edge, store_after_callback};

verus! {

/// Roles are never reassigned: in every session that exists on both sides
/// of a step, the creator is unchanged and an assigned visitor stays.
pub open spec fn occupancy_preserved(
    pre: Map<Seq<char>, RoomV>,
    post: Map<Seq<char>, RoomV>,
) -> bool {
    forall|k: Seq<char>|
        pre.contains_key(k) && #[trigger] post.contains_key(k) ==> (post[k].creator_id
            == pre[k].creator_id && (pre[k].visitor_id is Some ==> post[k].visitor_id
            == pre[k].visitor_id))
}

/// No session's question index moves backwards across a step.
pub open spec fn index_monotone(pre: Map<Seq<char>, RoomV>, post: Map<Seq<char>, RoomV>) -> bool {
    forall|k: Seq<char>|
        pre.contains_key(k) && #[trigger] post.contains_key(k) ==> post[k].idx >= pre[k].idx
}

/// A readiness signal touches only one side's marker: every session keeps
/// its occupants and its question index, so a single-sided "ready" never
/// advances anything.
pub proof fn lemma_ready_never_advances(s: StoreV, rid: Seq<char>, role: Role, now: u64)
    ensures
        occupancy_preserved(s.rooms, after_ready(s, rid, role, now).rooms),
        index_monotone(s.rooms, after_ready(s, rid, role, now).rooms),
        forall|k: Seq<char>|
            s.rooms.contains_key(k) ==> #[trigger] after_ready(
                s,
                rid,
                role,
                now,
            ).rooms.contains_key(k) && after_ready(s, rid, role, now).rooms[k].idx
                == s.rooms[k].idx,
{
}

/// Advancing the shared index preserves occupancy and moves the index by
/// exactly one while the pack still has a prompt at the current position —
/// and never moves it backwards.
pub proof fn lemma_advance_exactly_one(s: StoreV, rid: Seq<char>)
    requires
        s.rooms.contains_key(rid) ==> s.packs[s.rooms[rid].pack].len() < u16::MAX,
    ensures
        occupancy_preserved(s.rooms, after_advance(s, rid).rooms),
        index_monotone(s.rooms, after_advance(s, rid).rooms),
        s.rooms.contains_key(rid) && s.rooms[rid].idx < s.packs[s.rooms[rid].pack].len()
            ==> after_advance(s, rid).rooms[rid].idx == s.rooms[rid].idx + 1,
        s.rooms.contains_key(rid) && s.rooms[rid].idx >= s.packs[s.rooms[rid].pack].len()
            ==> after_advance(s, rid).rooms[rid].idx == s.rooms[rid].idx,
{
}

/// The full two-sided barrier: one side's signal alone leaves every index
/// where it was; only the advance that follows a both-ready observation
/// moves the shared index, and then by exactly one.
pub proof fn lemma_barrier_step(s: StoreV, rid: Seq<char>, role: Role, now: u64)
    requires
        s.rooms.contains_key(rid),
        s.rooms[rid].idx < s.packs[s.rooms[rid].pack].len(),
        s.packs[s.rooms[rid].pack].len() < u16::MAX,
    ensures
        after_ready(s, rid, role, now).rooms[rid].idx == s.rooms[rid].idx,
        after_advance(after_ready(s, rid, role, now), rid).rooms[rid].idx == s.rooms[rid].idx
            + 1,
{
}

/// Delivering a question changes conversational phases only: the session
/// map is untouched.
pub proof fn lemma_deliver_preserves_rooms(s: StoreV, u1: i32, u2: i32)
    ensures
        after_deliver(s, u1, u2).rooms == s.rooms,
{
}

/// Recording a rating, or the whole button-press step, never touches a
/// session's occupants or its question index; and a press whose value lies
/// outside 0..=4 changes nothing at all.
pub proof fn lemma_callback_step_bounds(s: StoreV, uid: i32, d: CallbackDataV)
    ensures
        occupancy_preserved(s.rooms, store_after_callback(s, uid, d).rooms),
        index_monotone(s.rooms, store_after_callback(s, uid, d).rooms),
        forall|k: Seq<char>|
            s.rooms.contains_key(k) ==> #[trigger] store_after_callback(
                s,
                uid,
                d,
            ).rooms.contains_key(k) && store_after_callback(s, uid, d).rooms[k].idx
                == s.rooms[k].idx,
        d.idx >= 5 ==> store_after_callback(s, uid, d) == s,
{
}

/// A role's completion edge fires at most once per question: once a first
/// write has completed the pair of axes, no further write for the same role
/// at the same question index can produce the edge again.
pub proof fn lemma_completion_edge_at_most_once(
    pre: RoomV,
    role: Role,
    a1: Axis,
    v1: u8,
    a2: Axis,
    v2: u8,
)
    requires
        !pre.complete(role),
        pre.with_rating(role, a1, v1).complete(role),
    ensures
        ({
            let mid = pre.with_rating(role, a1, v1);
            !(!mid.complete(role) && mid.with_rating(role, a2, v2).complete(role))
        }),
{
}

/// At the store level: once a press has produced the completion edge for a
/// session, no further press by the same participant on that session can
/// produce it again — until the index advances and clears the ratings.
pub proof fn lemma_edge_once_per_question(s: StoreV, uid: i32, d1: CallbackDataV, d2: CallbackDataV)
    requires
        rating_applies(s, uid, d1),
        rating_edge(s, uid, d1),
        d2.room_id == d1.room_id,
    ensures
        !rating_edge(store_after_callback(s, uid, d1), uid, d2),
{
    let rid = d1.room_id;
    let post = store_after_callback(s, uid, d1);
    assert(post.rooms[rid].creator_id == s.rooms[rid].creator_id);
    assert(post.rooms[rid].visitor_id == s.rooms[rid].visitor_id);
    assert(crate::room::spec_role_for(post, uid, rid) == crate::room::spec_role_for(s, uid, rid));
}

/// One side's rating writes never complete or un-complete the other side.
pub proof fn lemma_rating_sides_independent(pre: RoomV, role: Role, axis: Axis, v: u8)
    ensures
        pre.with_rating(role, axis, v).complete(role.spec_opposite()) == pre.complete(
            role.spec_opposite(),
        ),
        pre.with_rating(role, axis, v).idx == pre.idx,
        pre.with_rating(role, axis, v).creator_id == pre.creator_id,
        pre.with_rating(role, axis, v).visitor_id == pre.visitor_id,
{
}

/// Creating a session under a fresh code disturbs no existing session.
pub proof fn lemma_create_preserves_occupancy(
    s: StoreV,
    code: Seq<char>,
    user_id: i32,
    pack: Seq<char>,
    now: u64,
)
    requires
        !s.rooms.contains_key(code),
    ensures
        occupancy_preserved(s.rooms, s.rooms.insert(code, fresh_room(code, user_id, pack, now))),
        s.rooms.insert(code, fresh_room(code, user_id, pack, now))[code].visitor_id is None,
        s.rooms.insert(code, fresh_room(code, user_id, pack, now))[code].idx == 0,
{
}

/// Admitting a visitor into a free slot keeps the creator and fills the
/// visitor slot once; with the slot already taken, re-entry leaves the
/// session map — occupancy included — exactly as it was, so no third
/// occupant can ever appear.
pub proof fn lemma_join_fills_slot_once(s: StoreV, rid: Seq<char>, uid: i32)
    requires
        s.rooms.contains_key(rid),
        s.rooms[rid].visitor_id is None,
    ensures
        occupancy_preserved(
            s.rooms,
            s.rooms.insert(rid, s.rooms[rid].with_visitor(uid)),
        ),
        s.rooms.insert(rid, s.rooms[rid].with_visitor(uid))[rid].creator_id
            == s.rooms[rid].creator_id,
        s.rooms.insert(rid, s.rooms[rid].with_visitor(uid))[rid].visitor_id == Some(uid),
{
}

/// Re-entry by an already-assigned participant never errors and never
/// touches the session map: no third occupant slot can appear, and every
/// role assignment stays exactly as it was.
pub proof fn lemma_reentry_changes_no_session(
    s: StoreV,
    post: StoreV,
    r: Result<
        (Option<crate::structures::OutgoingKeyboardMessage>, Vec<crate::messages::Effect>),
        crate::room::EngineError,
    >,
    user_id: i32,
    rid: Seq<char>,
    role: Role,
)
    requires
        reentry_outcome(s, post, r, user_id, rid, role),
    ensures
        post.rooms == s.rooms,
        r is Ok,
        occupancy_preserved(s.rooms, post.rooms),
{
}

/// Teardown is final: after a session finishes, its join code names
/// nothing, a readiness signal for it is a no-op, its index can never move
/// again, and nobody holds a role in it — so the report request that
/// teardown emits can never be emitted a second time for this session.
pub proof fn lemma_teardown_final(s: StoreV, rid: Seq<char>, u1: i32, u2: i32)
    ensures
        !after_finish(s, rid, u1, u2).rooms.contains_key(rid),
        forall|role: Role, now: u64| #[trigger] after_ready(
            after_finish(s, rid, u1, u2),
            rid,
            role,
            now,
        ) == after_finish(s, rid, u1, u2),
        after_advance(after_finish(s, rid, u1, u2), rid) == after_finish(s, rid, u1, u2),
        forall|uid: i32| crate::room::spec_role_for(after_finish(s, rid, u1, u2), uid, rid)
            is None,
        forall|k: Seq<char>|
            k != rid && s.rooms.contains_key(k) ==> #[trigger] after_finish(
                s,
                rid,
                u1,
                u2,
            ).rooms.contains_key(k) && after_finish(s, rid, u1, u2).rooms[k] == s.rooms[k],
{
}

/// Every session ever holds at most two occupants: the record has exactly
/// one creator slot and one visitor slot.
pub proof fn lemma_at_most_two_occupants(r: RoomV, role: Role)
    ensures
        r.occupant(role) is Some ==> r.occupant(role)->0 == r.creator_id || r.occupant(role)
            == r.visitor_id,
{
}

} // verus!
