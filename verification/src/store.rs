use vstd::prelude::*;

use crate::numfmt::str_eq;
use crate::room::{Axis, Context, Pack, Role, Room, RoomV, UserRoom, UserRoomV};

verus! {

/// One participant's pointer entry: participant id to current room and role.
pub struct PointerEntry {
    pub user_id: i32,
    pub target: UserRoom,
}

/// One participant's conversational-phase entry.
pub struct ContextEntry {
    pub user_id: i32,
    pub context: Context,
}

/// The session store: every session record, participant pointer,
/// conversational phase, and known prompt pack. This is the typed model of
/// the shared key-value store the engine runs against.
pub struct Store {
    pub rooms: Vec<Room>,
    pub pointers: Vec<PointerEntry>,
    pub contexts: Vec<ContextEntry>,
    pub packs: Vec<Pack>,
}

/// The mathematical value of a `Store`: four maps.
#[verifier::ext_equal]
pub ghost struct StoreV {
    pub rooms: Map<Seq<char>, RoomV>,
    pub pointers: Map<i32, UserRoomV>,
    pub contexts: Map<i32, Context>,
    pub packs: Map<Seq<char>, Seq<Seq<char>>>,
}

pub open spec fn rooms_map(s: Seq<Room>) -> Map<Seq<char>, RoomV>
    decreases s.len(),
{
    if s.len() == 0 {
        Map::empty()
    } else {
        rooms_map(s.drop_last()).insert(s.last()@.room_id, s.last()@)
    }
}

pub open spec fn pointers_map(s: Seq<PointerEntry>) -> Map<i32, UserRoomV>
    decreases s.len(),
{
    if s.len() == 0 {
        Map::empty()
    } else {
        pointers_map(s.drop_last()).insert(s.last().user_id, s.last().target@)
    }
}

pub open spec fn contexts_map(s: Seq<ContextEntry>) -> Map<i32, Context>
    decreases s.len(),
{
    if s.len() == 0 {
        Map::empty()
    } else {
        contexts_map(s.drop_last()).insert(s.last().user_id, s.last().context)
    }
}

pub open spec fn packs_map(s: Seq<Pack>) -> Map<Seq<char>, Seq<Seq<char>>>
    decreases s.len(),
{
    if s.len() == 0 {
        Map::empty()
    } else {
        packs_map(s.drop_last()).insert(s.last().name@, s.last().prompts.deep_view())
    }
}

pub open spec fn unique_room_ids(s: Seq<Room>) -> bool {
    forall|i: int, j: int|
        0 <= i < j < s.len() ==> (#[trigger] s[i])@.room_id != (#[trigger] s[j])@.room_id
}

pub open spec fn unique_pointer_ids(s: Seq<PointerEntry>) -> bool {
    forall|i: int, j: int|
        0 <= i < j < s.len() ==> (#[trigger] s[i]).user_id != (#[trigger] s[j]).user_id
}

pub open spec fn unique_context_ids(s: Seq<ContextEntry>) -> bool {
    forall|i: int, j: int|
        0 <= i < j < s.len() ==> (#[trigger] s[i]).user_id != (#[trigger] s[j]).user_id
}

pub open spec fn unique_pack_names(s: Seq<Pack>) -> bool {
    forall|i: int, j: int| 0 <= i < j < s.len() ==> (#[trigger] s[i]).name@ != (#[trigger] s[j]).name@
}

/// Every pack's prompt list leaves room for a one-past-the-end index in u16.
pub open spec fn packs_bounded(s: Seq<Pack>) -> bool {
    forall|i: int| 0 <= i < s.len() ==> (#[trigger] s[i]).prompts@.len() < u16::MAX
}

/// A session record is consistent with the pack table: its pack exists and
/// its question index never runs past the end of the pack.
pub open spec fn room_ok(packs: Map<Seq<char>, Seq<Seq<char>>>, r: RoomV) -> bool {
    packs.contains_key(r.pack) && r.idx <= packs[r.pack].len()
}

impl View for Store {
    type V = StoreV;

    open spec fn view(&self) -> StoreV {
        StoreV {
            rooms: rooms_map(self.rooms@),
            pointers: pointers_map(self.pointers@),
            contexts: contexts_map(self.contexts@),
            packs: packs_map(self.packs@),
        }
    }
}

impl Store {
    /// Well-formedness: unique keys in every table, bounded packs, and every
    /// session consistent with the pack table.
    pub open spec fn wf(self) -> bool {
        &&& unique_room_ids(self.rooms@)
        &&& unique_pointer_ids(self.pointers@)
        &&& unique_context_ids(self.contexts@)
        &&& unique_pack_names(self.packs@)
        &&& packs_bounded(self.packs@)
        &&& forall|i: int|
            0 <= i < self.rooms@.len() ==> room_ok(self@.packs, (#[trigger] self.rooms@[i])@)
    }

    /// An empty store.
    pub fn new() -> (r: Store)
        ensures
            r.wf(),
            r@.rooms == Map::<Seq<char>, RoomV>::empty(),
            r@.pointers == Map::<i32, UserRoomV>::empty(),
            r@.contexts == Map::<i32, Context>::empty(),
            r@.packs == Map::<Seq<char>, Seq<Seq<char>>>::empty(),
    {
        Store { rooms: Vec::new(), pointers: Vec::new(), contexts: Vec::new(), packs: Vec::new() }
    }
}

// ---------------------------------------------------------------------------
// Lemmas connecting each association list to its map view.
// ---------------------------------------------------------------------------

impl Store {
    fn room_index(&self, room_id: &str) -> (r: Option<usize>)
        requires
            self.wf(),
        ensures
            match r {
                Some(i) => i < self.rooms@.len() && self.rooms@[i as int]@.room_id == room_id@
                    && self@.rooms.contains_key(room_id@) && self@.rooms[room_id@]
                    == self.rooms@[i as int]@,
                None => !self@.rooms.contains_key(room_id@),
            },
    {
        let mut i: usize = 0;
        while i < self.rooms.len()
            invariant
                self.wf(),
                0 <= i <= self.rooms@.len(),
                forall|j: int| 0 <= j < i ==> (#[trigger] self.rooms@[j])@.room_id != room_id@,
            decreases self.rooms@.len() - i,
        {
            if str_eq(self.rooms[i].room_id.as_str(), room_id) {
                proof {
                    lemma_rooms_index(self.rooms@, i as int);
                }
                return Some(i);
            }
            i = i + 1;
        }
        proof {
            lemma_rooms_absent(self.rooms@, room_id@);
        }
        None
    }

    /// Looks a session up by its join code.
    pub fn get_room(&self, room_id: &str) -> (r: Option<&Room>)
        requires
            self.wf(),
        ensures
            r is Some <==> self@.rooms.contains_key(room_id@),
            r matches Some(room) ==> room@ == self@.rooms[room_id@] && room_ok(
                self@.packs,
                room@,
            ),
    {
        match self.room_index(room_id) {
            Some(i) => Some(&self.rooms[i]),
            None => None,
        }
    }

    /// Adds a fresh session record.
    pub(crate) fn insert_room(&mut self, room: Room)
        requires
            old(self).wf(),
            !old(self)@.rooms.contains_key(room@.room_id),
            room_ok(old(self)@.packs, room@),
        ensures
            final(self).wf(),
            final(self)@ == (StoreV {
                rooms: old(self)@.rooms.insert(room@.room_id, room@),
                ..old(self)@
            }),
    {
        proof {
            lemma_rooms_push(self.rooms@, room);
        }
        self.rooms.push(room);
        proof {
            assert(forall|j: int|
                0 <= j < old(self).rooms@.len() ==> self.rooms@[j] == old(self).rooms@[j]);
        }
    }

    /// Records `uid` as the session's visitor.
    pub(crate) fn set_room_visitor(&mut self, room_id: &str, uid: i32)
        requires
            old(self).wf(),
            old(self)@.rooms.contains_key(room_id@),
        ensures
            final(self).wf(),
            final(self)@ == (StoreV {
                rooms: old(self)@.rooms.insert(
                    room_id@,
                    old(self)@.rooms[room_id@].with_visitor(uid),
                ),
                ..old(self)@
            }),
    {
        match self.room_index(room_id) {
            Some(i) => {
                let mut room = self.rooms.remove(i);
                room.visitor_id = Some(uid);
                self.rooms.insert(i, room);
                proof {
                    assert(self.rooms@ =~= old(self).rooms@.update(
                        i as int,
                        self.rooms@[i as int],
                    ));
                    lemma_rooms_update(old(self).rooms@, i as int, self.rooms@[i as int]);
                    assert(forall|j: int|
                        0 <= j < self.rooms@.len() && j != i ==> self.rooms@[j] == old(
                            self,
                        ).rooms@[j]);
                }
            },
            None => {
                // unreachable: the session exists by precondition
                proof {
                    assert(false);
                }
            },
        }
    }

    /// Sets the readiness marker of `role` to `t`.
    pub(crate) fn set_room_ready(&mut self, room_id: &str, role: Role, t: u64)
        requires
            old(self).wf(),
            old(self)@.rooms.contains_key(room_id@),
        ensures
            final(self).wf(),
            final(self)@ == (StoreV {
                rooms: old(self)@.rooms.insert(
                    room_id@,
                    old(self)@.rooms[room_id@].with_ready(role, t),
                ),
                ..old(self)@
            }),
    {
        match self.room_index(room_id) {
            Some(i) => {
                let mut room = self.rooms.remove(i);
                room.set_ready(role, t);
                self.rooms.insert(i, room);
                proof {
                    assert(self.rooms@ =~= old(self).rooms@.update(
                        i as int,
                        self.rooms@[i as int],
                    ));
                    lemma_rooms_update(old(self).rooms@, i as int, self.rooms@[i as int]);
                    assert(forall|j: int|
                        0 <= j < self.rooms@.len() && j != i ==> self.rooms@[j] == old(
                            self,
                        ).rooms@[j]);
                }
            },
            None => {
                // unreachable: the session exists by precondition
                proof {
                    assert(false);
                }
            },
        }
    }

    /// Sets the rating of `role` on `axis` to `v`.
    pub(crate) fn set_room_rating(&mut self, room_id: &str, role: Role, axis: Axis, v: u8)
        requires
            old(self).wf(),
            old(self)@.rooms.contains_key(room_id@),
        ensures
            final(self).wf(),
            final(self)@ == (StoreV {
                rooms: old(self)@.rooms.insert(
                    room_id@,
                    old(self)@.rooms[room_id@].with_rating(role, axis, v),
                ),
                ..old(self)@
            }),
    {
        match self.room_index(room_id) {
            Some(i) => {
                let mut room = self.rooms.remove(i);
                room.set_rating(role, axis, v);
                self.rooms.insert(i, room);
                proof {
                    assert(self.rooms@ =~= old(self).rooms@.update(
                        i as int,
                        self.rooms@[i as int],
                    ));
                    lemma_rooms_update(old(self).rooms@, i as int, self.rooms@[i as int]);
                    assert(forall|j: int|
                        0 <= j < self.rooms@.len() && j != i ==> self.rooms@[j] == old(
                            self,
                        ).rooms@[j]);
                }
            },
            None => {
                // unreachable: the session exists by precondition
                proof {
                    assert(false);
                }
            },
        }
    }

    /// The question index the session would advance to: one further while a
    /// prompt at the next position can exist, else unchanged.
    pub open spec fn spec_next_idx(packs: Map<Seq<char>, Seq<Seq<char>>>, r: RoomV) -> u16 {
        if r.idx < packs[r.pack].len() {
            (r.idx + 1) as u16
        } else {
            r.idx
        }
    }

    /// Clears both sides' readiness markers and ratings and advances the
    /// shared question index. Returns the new index.
    pub(crate) fn advance_room(&mut self, room_id: &str) -> (r: u16)
        requires
            old(self).wf(),
            old(self)@.rooms.contains_key(room_id@),
        ensures
            final(self).wf(),
            r == Self::spec_next_idx(old(self)@.packs, old(self)@.rooms[room_id@]),
            final(self)@ == (StoreV {
                rooms: old(self)@.rooms.insert(
                    room_id@,
                    old(self)@.rooms[room_id@].advanced(r),
                ),
                ..old(self)@
            }),
    {
        match self.room_index(room_id) {
            Some(i) => {
                let pack_name = self.rooms[i].pack.clone();
                let plen = self.pack_len(pack_name.as_str());
                let mut room = self.rooms.remove(i);
                proof {
                    assert(old(self).rooms@[i as int] == room);
                }
                let new_idx: u16 = if (room.idx as usize) < plen {
                    room.idx + 1
                } else {
                    room.idx
                };
                room.idx = new_idx;
                room.creator_ready_at = None;
                room.visitor_ready_at = None;
                room.creator_importance = None;
                room.creator_evaluation = None;
                room.visitor_importance = None;
                room.visitor_evaluation = None;
                self.rooms.insert(i, room);
                proof {
                    assert(self.rooms@ =~= old(self).rooms@.update(
                        i as int,
                        self.rooms@[i as int],
                    ));
                    lemma_rooms_update(old(self).rooms@, i as int, self.rooms@[i as int]);
                    assert(forall|j: int|
                        0 <= j < self.rooms@.len() && j != i ==> self.rooms@[j] == old(
                            self,
                        ).rooms@[j]);
                }
                new_idx
            },
            None => {
                // unreachable: the session exists by precondition
                proof {
                    assert(false);
                }
                0
            },
        }
    }

    /// Deletes the session record, if present.
    pub(crate) fn remove_room(&mut self, room_id: &str)
        requires
            old(self).wf(),
        ensures
            final(self).wf(),
            final(self)@ == (StoreV { rooms: old(self)@.rooms.remove(room_id@), ..old(self)@ }),
    {
        match self.room_index(room_id) {
            Some(i) => {
                proof {
                    lemma_rooms_remove(self.rooms@, i as int);
                }
                let _ = self.rooms.remove(i);
                proof {
                    assert(forall|j: int|
                        0 <= j < self.rooms@.len() ==> self.rooms@[j] == old(self).rooms@[j] || self.rooms@[j]
                            == old(self).rooms@[j + 1]);
                }
            },
            None => {
                proof {
                    assert(old(self)@.rooms =~= old(self)@.rooms.remove(room_id@));
                }
            },
        }
    }
}

impl Store {
    fn pointer_index(&self, user_id: i32) -> (r: Option<usize>)
        requires
            self.wf(),
        ensures
            match r {
                Some(i) => i < self.pointers@.len() && self.pointers@[i as int].user_id == user_id
                    && self@.pointers.contains_key(user_id) && self@.pointers[user_id]
                    == self.pointers@[i as int].target@,
                None => !self@.pointers.contains_key(user_id),
            },
    {
        let mut i: usize = 0;
        while i < self.pointers.len()
            invariant
                self.wf(),
                0 <= i <= self.pointers@.len(),
                forall|j: int| 0 <= j < i ==> (#[trigger] self.pointers@[j]).user_id != user_id,
            decreases self.pointers@.len() - i,
        {
            if self.pointers[i].user_id == user_id {
                proof {
                    lemma_pointers_index(self.pointers@, i as int);
                }
                return Some(i);
            }
            i = i + 1;
        }
        proof {
            lemma_pointers_absent(self.pointers@, user_id);
        }
        None
    }

    /// Looks a participant's pointer up.
    pub fn get_pointer(&self, user_id: i32) -> (r: Option<&UserRoom>)
        requires
            self.wf(),
        ensures
            r is Some <==> self@.pointers.contains_key(user_id),
            r matches Some(p) ==> p@ == self@.pointers[user_id],
    {
        match self.pointer_index(user_id) {
            Some(i) => Some(&self.pointers[i].target),
            None => None,
        }
    }

    /// Records that `user_id` now sits in `target`'s room under `target`'s
    /// role, replacing any earlier pointer.
    pub(crate) fn set_pointer(&mut self, user_id: i32, target: UserRoom)
        requires
            old(self).wf(),
        ensures
            final(self).wf(),
            final(self)@ == (StoreV {
                pointers: old(self)@.pointers.insert(user_id, target@),
                ..old(self)@
            }),
    {
        match self.pointer_index(user_id) {
            Some(i) => {
                let mut e = self.pointers.remove(i);
                e.target = target;
                self.pointers.insert(i, e);
                proof {
                    assert(self.pointers@ =~= old(self).pointers@.update(
                        i as int,
                        self.pointers@[i as int],
                    ));
                    lemma_pointers_update(old(self).pointers@, i as int, self.pointers@[i as int]);
                }
            },
            None => {
                let e = PointerEntry { user_id, target };
                proof {
                    lemma_pointers_push(self.pointers@, e);
                }
                self.pointers.push(e);
            },
        }
        proof {
            assert(forall|j: int|
                0 <= j < old(self).rooms@.len() ==> self.rooms@[j] == old(self).rooms@[j]);
        }
    }

    /// Deletes a participant's pointer, if present.
    pub(crate) fn remove_pointer(&mut self, user_id: i32)
        requires
            old(self).wf(),
        ensures
            final(self).wf(),
            final(self)@ == (StoreV {
                pointers: old(self)@.pointers.remove(user_id),
                ..old(self)@
            }),
    {
        match self.pointer_index(user_id) {
            Some(i) => {
                proof {
                    lemma_pointers_remove(self.pointers@, i as int);
                }
                let _ = self.pointers.remove(i);
            },
            None => {
                proof {
                    assert(old(self)@.pointers =~= old(self)@.pointers.remove(user_id));
                }
            },
        }
    }

    fn context_index(&self, user_id: i32) -> (r: Option<usize>)
        requires
            self.wf(),
        ensures
            match r {
                Some(i) => i < self.contexts@.len() && self.contexts@[i as int].user_id == user_id
                    && self@.contexts.contains_key(user_id) && self@.contexts[user_id]
                    == self.contexts@[i as int].context,
                None => !self@.contexts.contains_key(user_id),
            },
    {
        let mut i: usize = 0;
        while i < self.contexts.len()
            invariant
                self.wf(),
                0 <= i <= self.contexts@.len(),
                forall|j: int| 0 <= j < i ==> (#[trigger] self.contexts@[j]).user_id != user_id,
            decreases self.contexts@.len() - i,
        {
            if self.contexts[i].user_id == user_id {
                proof {
                    lemma_contexts_index(self.contexts@, i as int);
                }
                return Some(i);
            }
            i = i + 1;
        }
        proof {
            lemma_contexts_absent(self.contexts@, user_id);
        }
        None
    }

    /// Reads a participant's conversational phase; absence is the idle phase.
    pub fn get_context(&self, user_id: i32) -> (r: Option<Context>)
        requires
            self.wf(),
        ensures
            r is Some <==> self@.contexts.contains_key(user_id),
            r matches Some(c) ==> c == self@.contexts[user_id],
    {
        match self.context_index(user_id) {
            Some(i) => Some(self.contexts[i].context),
            None => None,
        }
    }

    /// Moves a participant to the given conversational phase.
    pub(crate) fn set_context(&mut self, user_id: i32, context: Context)
        requires
            old(self).wf(),
        ensures
            final(self).wf(),
            final(self)@ == (StoreV {
                contexts: old(self)@.contexts.insert(user_id, context),
                ..old(self)@
            }),
    {
        match self.context_index(user_id) {
            Some(i) => {
                let mut e = self.contexts.remove(i);
                e.context = context;
                self.contexts.insert(i, e);
                proof {
                    assert(self.contexts@ =~= old(self).contexts@.update(
                        i as int,
                        self.contexts@[i as int],
                    ));
                    lemma_contexts_update(old(self).contexts@, i as int, self.contexts@[i as int]);
                }
            },
            None => {
                let e = ContextEntry { user_id, context };
                proof {
                    lemma_contexts_push(self.contexts@, e);
                }
                self.contexts.push(e);
            },
        }
        proof {
            assert(forall|j: int|
                0 <= j < old(self).rooms@.len() ==> self.rooms@[j] == old(self).rooms@[j]);
        }
    }

    /// Clears a participant's conversational phase back to idle.
    pub(crate) fn remove_context(&mut self, user_id: i32)
        requires
            old(self).wf(),
        ensures
            final(self).wf(),
            final(self)@ == (StoreV {
                contexts: old(self)@.contexts.remove(user_id),
                ..old(self)@
            }),
    {
        match self.context_index(user_id) {
            Some(i) => {
                proof {
                    lemma_contexts_remove(self.contexts@, i as int);
                }
                let _ = self.contexts.remove(i);
            },
            None => {
                proof {
                    assert(old(self)@.contexts =~= old(self)@.contexts.remove(user_id));
                }
            },
        }
    }

    fn pack_index(&self, name: &str) -> (r: Option<usize>)
        requires
            self.wf(),
        ensures
            match r {
                Some(i) => i < self.packs@.len() && self.packs@[i as int].name@ == name@
                    && self@.packs.contains_key(name@) && self@.packs[name@]
                    == self.packs@[i as int].prompts.deep_view(),
                None => !self@.packs.contains_key(name@),
            },
    {
        let mut i: usize = 0;
        while i < self.packs.len()
            invariant
                self.wf(),
                0 <= i <= self.packs@.len(),
                forall|j: int| 0 <= j < i ==> (#[trigger] self.packs@[j]).name@ != name@,
            decreases self.packs@.len() - i,
        {
            if str_eq(self.packs[i].name.as_str(), name) {
                proof {
                    lemma_packs_index(self.packs@, i as int);
                }
                return Some(i);
            }
            i = i + 1;
        }
        proof {
            lemma_packs_absent(self.packs@, name@);
        }
        None
    }

    /// Whether a pack of this name is known.
    pub fn has_pack(&self, name: &str) -> (r: bool)
        requires
            self.wf(),
        ensures
            r == self@.packs.contains_key(name@),
    {
        self.pack_index(name).is_some()
    }

    /// The number of prompts in the named pack, or 0 for an unknown pack.
    pub fn pack_len(&self, name: &str) -> (r: usize)
        requires
            self.wf(),
        ensures
            self@.packs.contains_key(name@) ==> r == self@.packs[name@].len() && r < u16::MAX,
            !self@.packs.contains_key(name@) ==> r == 0,
    {
        match self.pack_index(name) {
            Some(i) => self.packs[i].prompts.len(),
            None => 0,
        }
    }

    /// The prompt at position `idx` of the named pack: present exactly when
    /// the pack exists and has an entry there.
    pub fn pack_prompt(&self, name: &str, idx: u16) -> (r: Option<String>)
        requires
            self.wf(),
        ensures
            r is Some <==> (self@.packs.contains_key(name@) && idx < self@.packs[name@].len()),
            r matches Some(p) ==> p@ == self@.packs[name@][idx as int],
    {
        match self.pack_index(name) {
            Some(i) => {
                if (idx as usize) < self.packs[i].prompts.len() {
                    Some(self.packs[i].prompts[idx as usize].clone())
                } else {
                    None
                }
            },
            None => None,
        }
    }

    /// The known pack names, in table order.
    pub fn pack_names(&self) -> (r: Vec<String>)
        ensures
            r@.len() == self.packs@.len(),
            forall|i: int| 0 <= i < r@.len() ==> (#[trigger] r@[i])@ == self.packs@[i].name@,
    {
        let mut r: Vec<String> = Vec::new();
        let mut i: usize = 0;
        while i < self.packs.len()
            invariant
                0 <= i <= self.packs@.len(),
                r@.len() == i,
                forall|j: int| 0 <= j < i ==> (#[trigger] r@[j])@ == self.packs@[j].name@,
            decreases self.packs@.len() - i,
        {
            r.push(self.packs[i].name.clone());
            i = i + 1;
        }
        r
    }

    /// Registers a pack. Succeeds exactly when the name is fresh and the
    /// prompt list leaves room for a one-past-the-end index; a duplicate or
    /// oversized pack is rejected and the store is left unchanged.
    pub fn add_pack(&mut self, pack: Pack) -> (r: bool)
        requires
            old(self).wf(),
        ensures
            final(self).wf(),
            r == (!old(self)@.packs.contains_key(pack.name@) && pack.prompts@.len()
                < u16::MAX),
            r ==> final(self)@ == (StoreV {
                packs: old(self)@.packs.insert(pack.name@, pack.prompts.deep_view()),
                ..old(self)@
            }),
            !r ==> final(self)@ == old(self)@,
    {
        if self.pack_index(pack.name.as_str()).is_some() {
            return false;
        }
        if pack.prompts.len() >= (u16::MAX as usize) {
            return false;
        }
        proof {
            lemma_packs_push(self.packs@, pack);
        }
        self.packs.push(pack);
        proof {
            assert(forall|j: int|
                0 <= j < old(self).rooms@.len() ==> self.rooms@[j] == old(self).rooms@[j]);
        }
        true
    }
}

proof fn lemma_rooms_absent(s: Seq<Room>, k: Seq<char>)
    requires
        forall|i: int| 0 <= i < s.len() ==> (#[trigger] s[i])@.room_id != k,
    ensures
        !rooms_map(s).contains_key(k),
    decreases s.len(),
{
    if s.len() > 0 {
        lemma_rooms_absent(s.drop_last(), k);
    }
}

proof fn lemma_rooms_index(s: Seq<Room>, i: int)
    requires
        unique_room_ids(s),
        0 <= i < s.len(),
    ensures
        rooms_map(s).contains_key(s[i]@.room_id),
        rooms_map(s)[s[i]@.room_id] == s[i]@,
    decreases s.len(),
{
    if i < s.len() - 1 {
        lemma_rooms_index(s.drop_last(), i);
        assert(s[s.len() - 1]@.room_id != s[i]@.room_id);
    }
}

proof fn lemma_rooms_push(s: Seq<Room>, r: Room)
    requires
        unique_room_ids(s),
        !rooms_map(s).contains_key(r@.room_id),
    ensures
        rooms_map(s.push(r)) == rooms_map(s).insert(r@.room_id, r@),
        unique_room_ids(s.push(r)),
    decreases s.len(),
{
    assert(s.push(r).drop_last() =~= s);
    assert forall|i: int| 0 <= i < s.len() implies (#[trigger] s[i])@.room_id != r@.room_id by {
        lemma_rooms_index(s, i);
    }
}

proof fn lemma_rooms_update(s: Seq<Room>, i: int, r: Room)
    requires
        unique_room_ids(s),
        0 <= i < s.len(),
        r@.room_id == s[i]@.room_id,
    ensures
        rooms_map(s.update(i, r)) == rooms_map(s).insert(r@.room_id, r@),
        unique_room_ids(s.update(i, r)),
    decreases s.len(),
{
    let t = s.update(i, r);
    if i == s.len() - 1 {
        assert(t.drop_last() =~= s.drop_last());
        assert(t.last() == r);
        assert(rooms_map(t) =~= rooms_map(s).insert(r@.room_id, r@));
    } else {
        assert(unique_room_ids(s.drop_last()));
        lemma_rooms_update(s.drop_last(), i, r);
        assert(t.drop_last() =~= s.drop_last().update(i, r));
        assert(t.last() == s.last());
        assert(r@.room_id != s.last()@.room_id);
        assert(rooms_map(t) =~= rooms_map(s).insert(r@.room_id, r@));
    }
}

proof fn lemma_rooms_remove(s: Seq<Room>, i: int)
    requires
        unique_room_ids(s),
        0 <= i < s.len(),
    ensures
        rooms_map(s.remove(i)) == rooms_map(s).remove(s[i]@.room_id),
        unique_room_ids(s.remove(i)),
    decreases s.len(),
{
    let t = s.remove(i);
    assert(forall|a: int| 0 <= a < i ==> t[a] == s[a]);
    assert(forall|a: int| i <= a < t.len() ==> t[a] == s[a + 1]);
    if i == s.len() - 1 {
        assert(t =~= s.drop_last());
        lemma_rooms_absent_from_unique(s, i);
        assert(rooms_map(t) =~= rooms_map(s).remove(s[i]@.room_id));
    } else {
        assert(unique_room_ids(s.drop_last()));
        lemma_rooms_remove(s.drop_last(), i);
        assert(t.drop_last() =~= s.drop_last().remove(i));
        assert(t.last() == s.last());
        assert(s[i]@.room_id != s.last()@.room_id);
        assert(rooms_map(t) =~= rooms_map(s).remove(s[i]@.room_id));
    }
}

/// In a unique list, dropping entry `i` leaves its key absent from the rest.
proof fn lemma_rooms_absent_from_unique(s: Seq<Room>, i: int)
    requires
        unique_room_ids(s),
        0 <= i < s.len(),
    ensures
        !rooms_map(s.drop_last()).contains_key(s[s.len() - 1]@.room_id),
{
    lemma_rooms_absent(s.drop_last(), s[s.len() - 1]@.room_id);
}

proof fn lemma_pointers_absent(s: Seq<PointerEntry>, k: i32)
    requires
        forall|i: int| 0 <= i < s.len() ==> (#[trigger] s[i]).user_id != k,
    ensures
        !pointers_map(s).contains_key(k),
    decreases s.len(),
{
    if s.len() > 0 {
        lemma_pointers_absent(s.drop_last(), k);
    }
}

proof fn lemma_pointers_index(s: Seq<PointerEntry>, i: int)
    requires
        unique_pointer_ids(s),
        0 <= i < s.len(),
    ensures
        pointers_map(s).contains_key(s[i].user_id),
        pointers_map(s)[s[i].user_id] == s[i].target@,
    decreases s.len(),
{
    if i < s.len() - 1 {
        lemma_pointers_index(s.drop_last(), i);
        assert(s[s.len() - 1].user_id != s[i].user_id);
    }
}

proof fn lemma_pointers_push(s: Seq<PointerEntry>, e: PointerEntry)
    requires
        unique_pointer_ids(s),
        !pointers_map(s).contains_key(e.user_id),
    ensures
        pointers_map(s.push(e)) == pointers_map(s).insert(e.user_id, e.target@),
        unique_pointer_ids(s.push(e)),
{
    assert(s.push(e).drop_last() =~= s);
    assert forall|i: int| 0 <= i < s.len() implies (#[trigger] s[i]).user_id != e.user_id by {
        lemma_pointers_index(s, i);
    }
}

proof fn lemma_pointers_update(s: Seq<PointerEntry>, i: int, e: PointerEntry)
    requires
        unique_pointer_ids(s),
        0 <= i < s.len(),
        e.user_id == s[i].user_id,
    ensures
        pointers_map(s.update(i, e)) == pointers_map(s).insert(e.user_id, e.target@),
        unique_pointer_ids(s.update(i, e)),
    decreases s.len(),
{
    let t = s.update(i, e);
    if i == s.len() - 1 {
        assert(t.drop_last() =~= s.drop_last());
        assert(t.last() == e);
        assert(pointers_map(t) =~= pointers_map(s).insert(e.user_id, e.target@));
    } else {
        assert(unique_pointer_ids(s.drop_last()));
        lemma_pointers_update(s.drop_last(), i, e);
        assert(t.drop_last() =~= s.drop_last().update(i, e));
        assert(t.last() == s.last());
        assert(e.user_id != s.last().user_id);
        assert(pointers_map(t) =~= pointers_map(s).insert(e.user_id, e.target@));
    }
}

proof fn lemma_pointers_remove(s: Seq<PointerEntry>, i: int)
    requires
        unique_pointer_ids(s),
        0 <= i < s.len(),
    ensures
        pointers_map(s.remove(i)) == pointers_map(s).remove(s[i].user_id),
        unique_pointer_ids(s.remove(i)),
    decreases s.len(),
{
    let t = s.remove(i);
    assert(forall|a: int| 0 <= a < i ==> t[a] == s[a]);
    assert(forall|a: int| i <= a < t.len() ==> t[a] == s[a + 1]);
    if i == s.len() - 1 {
        assert(t =~= s.drop_last());
        lemma_pointers_absent_from_unique(s, i);
        assert(pointers_map(t) =~= pointers_map(s).remove(s[i].user_id));
    } else {
        assert(unique_pointer_ids(s.drop_last()));
        lemma_pointers_remove(s.drop_last(), i);
        assert(t.drop_last() =~= s.drop_last().remove(i));
        assert(t.last() == s.last());
        assert(s[i].user_id != s.last().user_id);
        assert(pointers_map(t) =~= pointers_map(s).remove(s[i].user_id));
    }
}

proof fn lemma_pointers_absent_from_unique(s: Seq<PointerEntry>, i: int)
    requires
        unique_pointer_ids(s),
        0 <= i < s.len(),
    ensures
        !pointers_map(s.drop_last()).contains_key(s[s.len() - 1].user_id),
{
    lemma_pointers_absent(s.drop_last(), s[s.len() - 1].user_id);
}

proof fn lemma_contexts_absent(s: Seq<ContextEntry>, k: i32)
    requires
        forall|i: int| 0 <= i < s.len() ==> (#[trigger] s[i]).user_id != k,
    ensures
        !contexts_map(s).contains_key(k),
    decreases s.len(),
{
    if s.len() > 0 {
        lemma_contexts_absent(s.drop_last(), k);
    }
}

proof fn lemma_contexts_index(s: Seq<ContextEntry>, i: int)
    requires
        unique_context_ids(s),
        0 <= i < s.len(),
    ensures
        contexts_map(s).contains_key(s[i].user_id),
        contexts_map(s)[s[i].user_id] == s[i].context,
    decreases s.len(),
{
    if i < s.len() - 1 {
        lemma_contexts_index(s.drop_last(), i);
        assert(s[s.len() - 1].user_id != s[i].user_id);
    }
}

proof fn lemma_contexts_push(s: Seq<ContextEntry>, e: ContextEntry)
    requires
        unique_context_ids(s),
        !contexts_map(s).contains_key(e.user_id),
    ensures
        contexts_map(s.push(e)) == contexts_map(s).insert(e.user_id, e.context),
        unique_context_ids(s.push(e)),
{
    assert(s.push(e).drop_last() =~= s);
    assert forall|i: int| 0 <= i < s.len() implies (#[trigger] s[i]).user_id != e.user_id by {
        lemma_contexts_index(s, i);
    }
}

proof fn lemma_contexts_update(s: Seq<ContextEntry>, i: int, e: ContextEntry)
    requires
        unique_context_ids(s),
        0 <= i < s.len(),
        e.user_id == s[i].user_id,
    ensures
        contexts_map(s.update(i, e)) == contexts_map(s).insert(e.user_id, e.context),
        unique_context_ids(s.update(i, e)),
    decreases s.len(),
{
    let t = s.update(i, e);
    if i == s.len() - 1 {
        assert(t.drop_last() =~= s.drop_last());
        assert(t.last() == e);
        assert(contexts_map(t) =~= contexts_map(s).insert(e.user_id, e.context));
    } else {
        assert(unique_context_ids(s.drop_last()));
        lemma_contexts_update(s.drop_last(), i, e);
        assert(t.drop_last() =~= s.drop_last().update(i, e));
        assert(t.last() == s.last());
        assert(e.user_id != s.last().user_id);
        assert(contexts_map(t) =~= contexts_map(s).insert(e.user_id, e.context));
    }
}

proof fn lemma_contexts_remove(s: Seq<ContextEntry>, i: int)
    requires
        unique_context_ids(s),
        0 <= i < s.len(),
    ensures
        contexts_map(s.remove(i)) == contexts_map(s).remove(s[i].user_id),
        unique_context_ids(s.remove(i)),
    decreases s.len(),
{
    let t = s.remove(i);
    assert(forall|a: int| 0 <= a < i ==> t[a] == s[a]);
    assert(forall|a: int| i <= a < t.len() ==> t[a] == s[a + 1]);
    if i == s.len() - 1 {
        assert(t =~= s.drop_last());
        lemma_contexts_absent(s.drop_last(), s[s.len() - 1].user_id);
        assert(contexts_map(t) =~= contexts_map(s).remove(s[i].user_id));
    } else {
        assert(unique_context_ids(s.drop_last()));
        lemma_contexts_remove(s.drop_last(), i);
        assert(t.drop_last() =~= s.drop_last().remove(i));
        assert(t.last() == s.last());
        assert(s[i].user_id != s.last().user_id);
        assert(contexts_map(t) =~= contexts_map(s).remove(s[i].user_id));
    }
}

proof fn lemma_packs_absent(s: Seq<Pack>, k: Seq<char>)
    requires
        forall|i: int| 0 <= i < s.len() ==> (#[trigger] s[i]).name@ != k,
    ensures
        !packs_map(s).contains_key(k),
    decreases s.len(),
{
    if s.len() > 0 {
        lemma_packs_absent(s.drop_last(), k);
    }
}

proof fn lemma_packs_index(s: Seq<Pack>, i: int)
    requires
        unique_pack_names(s),
        0 <= i < s.len(),
    ensures
        packs_map(s).contains_key(s[i].name@),
        packs_map(s)[s[i].name@] == s[i].prompts.deep_view(),
    decreases s.len(),
{
    if i < s.len() - 1 {
        lemma_packs_index(s.drop_last(), i);
        assert(s[s.len() - 1].name@ != s[i].name@);
    }
}

proof fn lemma_packs_push(s: Seq<Pack>, p: Pack)
    requires
        unique_pack_names(s),
        !packs_map(s).contains_key(p.name@),
    ensures
        packs_map(s.push(p)) == packs_map(s).insert(p.name@, p.prompts.deep_view()),
        unique_pack_names(s.push(p)),
{
    assert(s.push(p).drop_last() =~= s);
    assert forall|i: int| 0 <= i < s.len() implies (#[trigger] s[i]).name@ != p.name@ by {
        lemma_packs_index(s, i);
    }
}

} // verus!
