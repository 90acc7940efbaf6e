use vstd::prelude::*;
use vstd::string::*;

use crate::numfmt::{dec_rep_signed, i32_to_string};
use crate::store::{Store, StoreV};
use crate::tools::{is_code_char, random_id};

verus! {

/// Why an engine operation refused to act. The first three are validation
/// failures that leave the store untouched and are surfaced to the user; the
/// last two stand for data that the store should have held but did not, and
/// are surfaced as a generic internal error.
#[derive(Clone, Copy, PartialEq, Eq, Structural, Debug)]
pub enum EngineError {
    InvalidPack,
    InvalidRatingValue,
    CodeCollision,
    UnknownRoom,
    MissingData,
}

/// One of the two fixed positions inside a session: the participant who
/// created the room, and the participant who joined it.
#[derive(Clone, Copy, PartialEq, Eq, Structural, Debug)]
pub enum Role {
    Creator,
    Visitor,
}

impl Role {
    /// The other side of a two-party session.
    pub open spec fn spec_opposite(self) -> Role {
        match self {
            Role::Creator => Role::Visitor,
            Role::Visitor => Role::Creator,
        }
    }

    /// Returns the opposite role.
    pub fn opposite(self) -> (r: Role)
        ensures
            r == self.spec_opposite(),
    {
        match self {
            Role::Creator => Role::Visitor,
            Role::Visitor => Role::Creator,
        }
    }
}

/// One of the two rating dimensions collected per prompt per participant.
#[derive(Clone, Copy, PartialEq, Eq, Structural, Debug)]
pub enum Axis {
    Importance,
    Evaluation,
}

/// A participant's conversational phase. Absence of a stored value is the
/// idle phase: a fresh or reset participant has no `Context` at all.
#[derive(Clone, Copy, PartialEq, Eq, Structural, Debug)]
pub enum Context {
    SelectPack,
    InsertId,
    WaitingForPartner,
    InRoom,
    WaitingForAnswer,
    WaitingForResults,
}

/// The record of one two-party session: its occupants, the pack in use, the
/// shared question index, and the per-role readiness markers and ratings for
/// the current question.
#[derive(Debug)]
pub struct Room {
    pub room_id: String,
    pub creator_id: i32,
    pub visitor_id: Option<i32>,
    pub pack: String,
    pub created_at: u64,
    pub idx: u16,
    pub creator_ready_at: Option<u64>,
    pub visitor_ready_at: Option<u64>,
    pub creator_importance: Option<u8>,
    pub creator_evaluation: Option<u8>,
    pub visitor_importance: Option<u8>,
    pub visitor_evaluation: Option<u8>,
}

/// The mathematical value of a `Room`.
pub ghost struct RoomV {
    pub room_id: Seq<char>,
    pub creator_id: i32,
    pub visitor_id: Option<i32>,
    pub pack: Seq<char>,
    pub created_at: u64,
    pub idx: u16,
    pub creator_ready_at: Option<u64>,
    pub visitor_ready_at: Option<u64>,
    pub creator_importance: Option<u8>,
    pub creator_evaluation: Option<u8>,
    pub visitor_importance: Option<u8>,
    pub visitor_evaluation: Option<u8>,
}

impl View for Room {
    type V = RoomV;

    open spec fn view(&self) -> RoomV {
        RoomV {
            room_id: self.room_id@,
            creator_id: self.creator_id,
            visitor_id: self.visitor_id,
            pack: self.pack@,
            created_at: self.created_at,
            idx: self.idx,
            creator_ready_at: self.creator_ready_at,
            visitor_ready_at: self.visitor_ready_at,
            creator_importance: self.creator_importance,
            creator_evaluation: self.creator_evaluation,
            visitor_importance: self.visitor_importance,
            visitor_evaluation: self.visitor_evaluation,
        }
    }
}

impl RoomV {
    /// The participant holding `role`, if that slot is occupied.
    pub open spec fn occupant(self, role: Role) -> Option<i32> {
        match role {
            Role::Creator => Some(self.creator_id),
            Role::Visitor => self.visitor_id,
        }
    }

    /// The readiness marker of `role` for the current question.
    pub open spec fn ready_at(self, role: Role) -> Option<u64> {
        match role {
            Role::Creator => self.creator_ready_at,
            Role::Visitor => self.visitor_ready_at,
        }
    }

    /// The rating `role` has recorded on `axis` for the current question.
    pub open spec fn rating(self, role: Role, axis: Axis) -> Option<u8> {
        match (role, axis) {
            (Role::Creator, Axis::Importance) => self.creator_importance,
            (Role::Creator, Axis::Evaluation) => self.creator_evaluation,
            (Role::Visitor, Axis::Importance) => self.visitor_importance,
            (Role::Visitor, Axis::Evaluation) => self.visitor_evaluation,
        }
    }

    /// Whether `role` has recorded both rating axes for the current question.
    pub open spec fn complete(self, role: Role) -> bool {
        self.rating(role, Axis::Importance) is Some && self.rating(role, Axis::Evaluation) is Some
    }

    /// This room with `uid` admitted as visitor.
    pub open spec fn with_visitor(self, uid: i32) -> RoomV {
        RoomV { visitor_id: Some(uid), ..self }
    }

    /// This room with the readiness marker of `role` set to `t`.
    pub open spec fn with_ready(self, role: Role, t: u64) -> RoomV {
        match role {
            Role::Creator => RoomV { creator_ready_at: Some(t), ..self },
            Role::Visitor => RoomV { visitor_ready_at: Some(t), ..self },
        }
    }

    /// This room with the rating of `role` on `axis` set to `v`.
    pub open spec fn with_rating(self, role: Role, axis: Axis, v: u8) -> RoomV {
        match (role, axis) {
            (Role::Creator, Axis::Importance) => RoomV { creator_importance: Some(v), ..self },
            (Role::Creator, Axis::Evaluation) => RoomV { creator_evaluation: Some(v), ..self },
            (Role::Visitor, Axis::Importance) => RoomV { visitor_importance: Some(v), ..self },
            (Role::Visitor, Axis::Evaluation) => RoomV { visitor_evaluation: Some(v), ..self },
        }
    }

    /// This room moved to question index `new_idx`, with both sides'
    /// readiness markers and ratings cleared.
    pub open spec fn advanced(self, new_idx: u16) -> RoomV {
        RoomV {
            idx: new_idx,
            creator_ready_at: None,
            visitor_ready_at: None,
            creator_importance: None,
            creator_evaluation: None,
            visitor_importance: None,
            visitor_evaluation: None,
            ..self
        }
    }
}

impl Room {
    /// The readiness marker of `role`.
    pub fn ready_at(&self, role: Role) -> (r: Option<u64>)
        ensures
            r == self@.ready_at(role),
    {
        match role {
            Role::Creator => self.creator_ready_at,
            Role::Visitor => self.visitor_ready_at,
        }
    }

    /// The rating of `role` on `axis`.
    pub fn rating(&self, role: Role, axis: Axis) -> (r: Option<u8>)
        ensures
            r == self@.rating(role, axis),
    {
        match (role, axis) {
            (Role::Creator, Axis::Importance) => self.creator_importance,
            (Role::Creator, Axis::Evaluation) => self.creator_evaluation,
            (Role::Visitor, Axis::Importance) => self.visitor_importance,
            (Role::Visitor, Axis::Evaluation) => self.visitor_evaluation,
        }
    }

    /// Whether `role` holds both rating axes for the current question.
    pub fn has_all_ratings(&self, role: Role) -> (r: bool)
        ensures
            r == self@.complete(role),
    {
        self.rating(role, Axis::Importance).is_some() && self.rating(
            role,
            Axis::Evaluation,
        ).is_some()
    }

    pub(crate) fn set_ready(&mut self, role: Role, t: u64)
        ensures
            final(self)@ == old(self)@.with_ready(role, t),
    {
        match role {
            Role::Creator => {
                self.creator_ready_at = Some(t);
            },
            Role::Visitor => {
                self.visitor_ready_at = Some(t);
            },
        }
    }

    pub(crate) fn set_rating(&mut self, role: Role, axis: Axis, v: u8)
        ensures
            final(self)@ == old(self)@.with_rating(role, axis, v),
    {
        match (role, axis) {
            (Role::Creator, Axis::Importance) => {
                self.creator_importance = Some(v);
            },
            (Role::Creator, Axis::Evaluation) => {
                self.creator_evaluation = Some(v);
            },
            (Role::Visitor, Axis::Importance) => {
                self.visitor_importance = Some(v);
            },
            (Role::Visitor, Axis::Evaluation) => {
                self.visitor_evaluation = Some(v);
            },
        }
    }
}

/// A participant's pointer to their current session: the room id and the
/// role they hold inside it.
#[derive(Debug)]
pub struct UserRoom {
    pub id: String,
    pub role: Role,
}

/// The mathematical value of a `UserRoom`.
pub ghost struct UserRoomV {
    pub id: Seq<char>,
    pub role: Role,
}

impl View for UserRoom {
    type V = UserRoomV;

    open spec fn view(&self) -> UserRoomV {
        UserRoomV { id: self.id@, role: self.role }
    }
}

/// A named, ordered sequence of discussion prompts.
#[derive(Debug)]
pub struct Pack {
    pub name: String,
    pub prompts: Vec<String>,
}

/// A freshly created session record: creator set, no visitor, index 0, no
/// markers and no ratings.
pub open spec fn fresh_room(code: Seq<char>, user_id: i32, pack: Seq<char>, now: u64) -> RoomV {
    RoomV {
        room_id: code,
        creator_id: user_id,
        visitor_id: None,
        pack: pack,
        created_at: now,
        idx: 0,
        creator_ready_at: None,
        visitor_ready_at: None,
        creator_importance: None,
        creator_evaluation: None,
        visitor_importance: None,
        visitor_evaluation: None,
    }
}

/// The store after `role` signals ready at `now`: the marker is written only
/// if it was absent (a repeated signal is a no-op), and nothing else moves.
pub open spec fn after_ready(s: StoreV, rid: Seq<char>, role: Role, now: u64) -> StoreV {
    if !s.rooms.contains_key(rid) {
        s
    } else {
        let room = s.rooms[rid];
        let room2 = if room.ready_at(role) is Some {
            room
        } else {
            room.with_ready(role, now)
        };
        StoreV { rooms: s.rooms.insert(rid, room2), ..s }
    }
}

/// The store after the shared index advances: both sides' markers and
/// ratings cleared, index one further (while the pack still has room).
pub open spec fn after_advance(s: StoreV, rid: Seq<char>) -> StoreV {
    if !s.rooms.contains_key(rid) {
        s
    } else {
        let room = s.rooms[rid];
        StoreV { rooms: s.rooms.insert(rid, room.advanced(Store::spec_next_idx(s.packs, room))), ..s }
    }
}

/// The store after the next prompt is delivered to both sides: both move to
/// the in-room phase.
pub open spec fn after_deliver(s: StoreV, u1: i32, u2: i32) -> StoreV {
    StoreV { contexts: s.contexts.insert(u1, Context::InRoom).insert(u2, Context::InRoom), ..s }
}

/// The store after session teardown: the session record, both participant
/// pointers, and both conversational phases are gone.
pub open spec fn after_finish(s: StoreV, rid: Seq<char>, u1: i32, u2: i32) -> StoreV {
    StoreV {
        rooms: s.rooms.remove(rid),
        pointers: s.pointers.remove(u1).remove(u2),
        contexts: s.contexts.remove(u1).remove(u2),
        ..s
    }
}

impl Role {
    /// Looks up which role `user_id` holds, from their pointer.
    pub fn get(user_id: i32, store: &Store) -> (r: Option<Role>)
        requires
            store.wf(),
        ensures
            r is Some <==> store@.pointers.contains_key(user_id),
            r matches Some(role) ==> role == store@.pointers[user_id].role,
    {
        match store.get_pointer(user_id) {
            Some(p) => Some(p.role),
            None => None,
        }
    }
}

impl Room {
    /// The store key of a session record.
    pub fn key(room_id: &String) -> (r: String)
        ensures
            r@ == "room:"@ + room_id@,
    {
        let mut r = String::from_str("room:");
        r.append(room_id.as_str());
        r
    }

    /// The store key of a participant's pointer.
    pub fn key_user(user_id: i32) -> (r: String)
        ensures
            r@ == "user:"@ + dec_rep_signed(user_id as int) + ":room"@,
    {
        let mut r = String::from_str("user:");
        let id = i32_to_string(user_id);
        r.append(id.as_str());
        r.append(":room");
        r
    }

    /// The occupants of a session: the creator and, if one has joined, the
    /// visitor.
    pub fn room_users(room_id: &str, store: &Store) -> (r: Option<(i32, Option<i32>)>)
        requires
            store.wf(),
        ensures
            r is Some <==> store@.rooms.contains_key(room_id@),
            r matches Some(p) ==> p.0 == store@.rooms[room_id@].creator_id && p.1
                == store@.rooms[room_id@].visitor_id,
    {
        match store.get_room(room_id) {
            Some(room) => Some((room.creator_id, room.visitor_id)),
            None => None,
        }
    }

    /// Creates a session under the given join code. Fails with `InvalidPack`
    /// when the pack is unknown and with `CodeCollision` when the code is
    /// already taken; on success the new record carries the creator, the
    /// pack, index 0, and the creation time.
    pub fn create_with_code(
        user_id: i32,
        pack: &String,
        code: &String,
        now: u64,
        store: &mut Store,
    ) -> (r: Result<(), EngineError>)
        requires
            old(store).wf(),
        ensures
            final(store).wf(),
            r == Ok::<(), EngineError>(()) <==> (old(store)@.packs.contains_key(pack@)
                && !old(store)@.rooms.contains_key(code@)),
            r == Ok::<(), EngineError>(()) ==> final(store)@ == (StoreV {
                rooms: old(store)@.rooms.insert(code@, fresh_room(code@, user_id, pack@, now)),
                ..old(store)@
            }),
            r == Err::<(), EngineError>(EngineError::InvalidPack)
                <==> !old(store)@.packs.contains_key(pack@),
            r == Err::<(), EngineError>(EngineError::CodeCollision)
                <==> (old(store)@.packs.contains_key(pack@)
                && old(store)@.rooms.contains_key(code@)),
            r is Err ==> *final(store) == *old(store),
    {
        if !store.has_pack(pack.as_str()) {
            return Err(EngineError::InvalidPack);
        }
        if store.get_room(code.as_str()).is_some() {
            return Err(EngineError::CodeCollision);
        }
        let room = Room {
            room_id: code.clone(),
            creator_id: user_id,
            visitor_id: None,
            pack: pack.clone(),
            created_at: now,
            idx: 0,
            creator_ready_at: None,
            visitor_ready_at: None,
            creator_importance: None,
            creator_evaluation: None,
            visitor_importance: None,
            visitor_evaluation: None,
        };
        store.insert_room(room);
        Ok(())
    }

    /// Creates a session under a fresh random join code and returns the
    /// code. The generated code is sixteen alphanumeric characters; in the
    /// vanishingly unlikely event that it collides with a live session, the
    /// store is left unchanged and `CodeCollision` is reported.
    pub fn create(user_id: i32, pack: &String, now: u64, store: &mut Store) -> (r: Result<
        String,
        EngineError,
    >)
        requires
            old(store).wf(),
        ensures
            final(store).wf(),
            r matches Ok(code) ==> code@.len() == 16 && (forall|i: int|
                0 <= i < 16 ==> is_code_char(#[trigger] code@[i]))
                && old(store)@.packs.contains_key(pack@)
                && !old(store)@.rooms.contains_key(code@)
                && final(store)@ == (StoreV {
                rooms: old(store)@.rooms.insert(code@, fresh_room(code@, user_id, pack@, now)),
                ..old(store)@
            }),
            r == Err::<String, EngineError>(EngineError::InvalidPack)
                <==> !old(store)@.packs.contains_key(pack@),
            r matches Err(e) ==> (e == EngineError::InvalidPack || e == EngineError::CodeCollision)
                && *final(store) == *old(store),
            r == Err::<String, EngineError>(EngineError::CodeCollision) ==> (exists|k: Seq<char>|
                old(store)@.rooms.contains_key(k)),
    {
        let code = random_id();
        match Room::create_with_code(user_id, pack, &code, now, store) {
            Ok(()) => Ok(code),
            Err(e) => {
                proof {
                    if e == EngineError::CodeCollision {
                        assert(old(store)@.rooms.contains_key(code@));
                    }
                }
                Err(e)
            },
        }
    }

    /// Admits `user_id` as the session's visitor.
    pub(crate) fn enter(room_id: &str, user_id: i32, store: &mut Store)
        requires
            old(store).wf(),
            old(store)@.rooms.contains_key(room_id@),
        ensures
            final(store).wf(),
            final(store)@ == (StoreV {
                rooms: old(store)@.rooms.insert(
                    room_id@,
                    old(store)@.rooms[room_id@].with_visitor(user_id),
                ),
                ..old(store)@
            }),
    {
        store.set_room_visitor(room_id, user_id);
    }

    /// Clears both sides' markers and ratings for the finished question and
    /// advances the shared index by one (while the pack still has room).
    /// Returns the new index.
    pub(crate) fn prepare_for_next_question(room_id: &str, store: &mut Store) -> (r: u16)
        requires
            old(store).wf(),
            old(store)@.rooms.contains_key(room_id@),
        ensures
            final(store).wf(),
            r == Store::spec_next_idx(old(store)@.packs, old(store)@.rooms[room_id@]),
            final(store)@ == after_advance(old(store)@, room_id@),
    {
        store.advance_room(room_id)
    }

    /// Records that `user_id` now sits in `room_id` under `role`.
    pub(crate) fn set_current_room(user_id: i32, room_id: &String, role: Role, store: &mut Store)
        requires
            old(store).wf(),
        ensures
            final(store).wf(),
            final(store)@ == (StoreV {
                pointers: old(store)@.pointers.insert(
                    user_id,
                    UserRoomV { id: room_id@, role: role },
                ),
                ..old(store)@
            }),
    {
        store.set_pointer(user_id, UserRoom { id: room_id.clone(), role });
    }

    /// Which role `user_id` holds in the given session, if any: the creator
    /// slot is checked first, then the visitor slot.
    pub fn get_role_for_user(user_id: i32, room_id: &str, store: &Store) -> (r: Option<Role>)
        requires
            store.wf(),
        ensures
            r == spec_role_for(store@, user_id, room_id@),
    {
        match Room::room_users(room_id, store) {
            Some((creator_id, visitor_id)) => {
                if creator_id == user_id {
                    Some(Role::Creator)
                } else {
                    match visitor_id {
                        Some(v) if v == user_id => Some(Role::Visitor),
                        _ => None,
                    }
                }
            },
            None => None,
        }
    }

    /// Deletes the session record.
    pub(crate) fn clear(room_id: &str, store: &mut Store)
        requires
            old(store).wf(),
        ensures
            final(store).wf(),
            final(store)@ == (StoreV { rooms: old(store)@.rooms.remove(room_id@), ..old(store)@ }),
    {
        store.remove_room(room_id);
    }
}

/// Which role `user_id` holds in session `rid` of store `s`.
pub open spec fn spec_role_for(s: StoreV, user_id: i32, rid: Seq<char>) -> Option<Role> {
    if !s.rooms.contains_key(rid) {
        None
    } else if s.rooms[rid].creator_id == user_id {
        Some(Role::Creator)
    } else if s.rooms[rid].visitor_id == Some(user_id) {
        Some(Role::Visitor)
    } else {
        None
    }
}

/// One completed question's full row, as handed to the analytics sink:
/// every optional field flattened with 0 standing for "absent".
#[derive(Debug)]
pub struct RoundSnapshot {
    pub room_id: String,
    pub creator_id: i32,
    pub visitor_id: i32,
    pub pack: String,
    pub created_at: u64,
    pub idx: u16,
    pub creator_importance: u8,
    pub creator_evaluation: u8,
    pub visitor_importance: u8,
    pub visitor_evaluation: u8,
    pub creator_ready_at: u64,
    pub visitor_ready_at: u64,
}

/// The value 0 stands for an absent optional field in an analytics row.
pub open spec fn or_zero_u8(v: Option<u8>) -> u8 {
    match v {
        Some(x) => x,
        None => 0,
    }
}

/// The value 0 stands for an absent optional field in an analytics row.
pub open spec fn or_zero_u64(v: Option<u64>) -> u64 {
    match v {
        Some(x) => x,
        None => 0,
    }
}

/// Whether `s` is the flattened analytics row of session record `r`.
pub open spec fn snapshot_matches(s: RoundSnapshot, r: RoomV) -> bool {
    &&& s.room_id@ == r.room_id
    &&& s.creator_id == r.creator_id
    &&& s.visitor_id == (match r.visitor_id {
        Some(v) => v,
        None => 0,
    })
    &&& s.pack@ == r.pack
    &&& s.created_at == r.created_at
    &&& s.idx == r.idx
    &&& s.creator_importance == or_zero_u8(r.creator_importance)
    &&& s.creator_evaluation == or_zero_u8(r.creator_evaluation)
    &&& s.visitor_importance == or_zero_u8(r.visitor_importance)
    &&& s.visitor_evaluation == or_zero_u8(r.visitor_evaluation)
    &&& s.creator_ready_at == or_zero_u64(r.creator_ready_at)
    &&& s.visitor_ready_at == or_zero_u64(r.visitor_ready_at)
}

impl Room {
    /// Flattens this record into one analytics row, with 0 for every field
    /// not yet set.
    pub fn snapshot(&self) -> (r: RoundSnapshot)
        ensures
            snapshot_matches(r, self@),
    {
        RoundSnapshot {
            room_id: self.room_id.clone(),
            creator_id: self.creator_id,
            visitor_id: match self.visitor_id {
                Some(v) => v,
                None => 0,
            },
            pack: self.pack.clone(),
            created_at: self.created_at,
            idx: self.idx,
            creator_importance: match self.creator_importance {
                Some(v) => v,
                None => 0,
            },
            creator_evaluation: match self.creator_evaluation {
                Some(v) => v,
                None => 0,
            },
            visitor_importance: match self.visitor_importance {
                Some(v) => v,
                None => 0,
            },
            visitor_evaluation: match self.visitor_evaluation {
                Some(v) => v,
                None => 0,
            },
            creator_ready_at: match self.creator_ready_at {
                Some(v) => v,
                None => 0,
            },
            visitor_ready_at: match self.visitor_ready_at {
                Some(v) => v,
                None => 0,
            },
        }
    }
}

impl UserRoom {
    /// Reads `user_id`'s pointer, failing when the participant is not
    /// inside a session.
    pub fn get(user_id: i32, store: &Store) -> (r: Result<UserRoom, EngineError>)
        requires
            store.wf(),
        ensures
            r is Ok <==> store@.pointers.contains_key(user_id),
            r matches Ok(ur) ==> ur@ == store@.pointers[user_id],
            r is Err ==> r == Err::<UserRoom, EngineError>(EngineError::MissingData),
    {
        match store.get_pointer(user_id) {
            Some(p) => Ok(UserRoom { id: p.id.clone(), role: p.role }),
            None => Err(EngineError::MissingData),
        }
    }

    /// The two-sided readiness barrier (one side's half): writes this role's
    /// readiness marker if it is absent — a repeated signal changes nothing —
    /// and reports whether the opposite side's marker is present, i.e.
    /// whether both sides are now ready. The shared question index never
    /// moves here.
    pub fn set_ready_time(&self, now: u64, store: &mut Store) -> (r: Result<bool, EngineError>)
        requires
            old(store).wf(),
        ensures
            final(store).wf(),
            r is Ok <==> old(store)@.rooms.contains_key(self.id@),
            r is Err ==> r == Err::<bool, EngineError>(EngineError::UnknownRoom) && *final(store)
                == *old(store),
            r matches Ok(both) ==> final(store)@ == after_ready(
                old(store)@,
                self.id@,
                self.role,
                now,
            ) && both == (old(store)@.rooms[self.id@].ready_at(self.role.spec_opposite())
                is Some),
    {
        let room = match store.get_room(self.id.as_str()) {
            Some(room) => room,
            None => {
                return Err(EngineError::UnknownRoom);
            },
        };
        let already = room.ready_at(self.role).is_some();
        let both = room.ready_at(self.role.opposite()).is_some();
        if !already {
            store.set_room_ready(self.id.as_str(), self.role, now);
        } else {
            proof {
                assert(old(store)@.rooms.insert(self.id@, old(store)@.rooms[self.id@]) =~= old(
                    store,
                )@.rooms);
                assert(store@ =~= after_ready(old(store)@, self.id@, self.role, now));
            }
        }
        Ok(both)
    }
}

impl Context {
    /// Reads a participant's conversational phase; a fresh or reset
    /// participant has none.
    pub fn get(user_id: i32, store: &Store) -> (r: Option<Context>)
        requires
            store.wf(),
        ensures
            r is Some <==> store@.contexts.contains_key(user_id),
            r matches Some(c) ==> c == store@.contexts[user_id],
    {
        store.get_context(user_id)
    }

    /// Moves a participant to the given phase.
    pub(crate) fn set_context(user_id: i32, context: Context, store: &mut Store)
        requires
            old(store).wf(),
        ensures
            final(store).wf(),
            final(store)@ == (StoreV {
                contexts: old(store)@.contexts.insert(user_id, context),
                ..old(store)@
            }),
    {
        store.set_context(user_id, context);
    }

    /// Clears a participant's phase back to idle.
    pub(crate) fn reset(user_id: i32, store: &mut Store)
        requires
            old(store).wf(),
        ensures
            final(store).wf(),
            final(store)@ == (StoreV {
                contexts: old(store)@.contexts.remove(user_id),
                ..old(store)@
            }),
    {
        store.remove_context(user_id);
    }

    /// The store key of a participant's phase value.
    pub fn key(user_id: i32) -> (r: String)
        ensures
            r@ == "user:"@ + dec_rep_signed(user_id as int) + ":context"@,
    {
        let mut r = String::from_str("user:");
        let id = i32_to_string(user_id);
        r.append(id.as_str());
        r.append(":context");
        r
    }
}

impl Pack {
    /// The mathematical value of this pack's prompt list.
    pub open spec fn prompts_view(&self) -> Seq<Seq<char>> {
        self.prompts.deep_view()
    }
}

} // verus!
