use vstd::prelude::*;
use vstd::string::*;

use crate::constants::Messages;
use crate::numfmt::{dec_rep, u64_to_string};
use crate::room::{
    after_deliver, after_finish, Context, EngineError, Role, Room, UserRoomV,
};
use crate::store::{Store, StoreV};
use crate::structures::{
    eval_row_ok, CallbackQueryAnswer, EditedReplyInlineMarkup, OutgoingInlineKeyboardMessage,
    OutgoingKeyboardMessage,
};

verus! {

/// Everything the report deliverer needs: the room id whose aggregate to
/// fetch, and the two recipients with their roles, so that each side
/// receives the summary phrased for their own role.
#[derive(Debug)]
pub struct ReportRequest {
    pub room_id: String,
    pub user_a: i32,
    pub role_a: Role,
    pub user_b: i32,
    pub role_b: Role,
}

/// One outbound action the engine asks its driver to perform, in order:
/// sends to the messaging platform, one analytics row, or the one-time
/// report fetch-and-delivery at session end.
#[derive(Debug)]
pub enum Effect {
    SendKeyboard(OutgoingKeyboardMessage),
    SendInline(OutgoingInlineKeyboardMessage),
    EditMarkup(EditedReplyInlineMarkup),
    AnswerCallback(CallbackQueryAnswer),
    RecordRound(crate::room::RoundSnapshot),
    FetchAndDeliverReport(ReportRequest),
}

/// A plain text send to `chat`.
pub open spec fn eff_text(e: Effect, chat: i32, text: Seq<char>) -> bool {
    &&& e matches Effect::SendKeyboard(m)
    &&& m.chat_id == chat
    &&& m.text@ == text
    &&& m.reply_markup is None
    &&& m.parse_mode is None
}

/// An HTML-formatted text send to `chat`.
pub open spec fn eff_html(e: Effect, chat: i32, text: Seq<char>) -> bool {
    &&& e matches Effect::SendKeyboard(m)
    &&& m.chat_id == chat
    &&& m.text@ == text
    &&& m.reply_markup is None
    &&& (m.parse_mode matches Some(p) && p@ == "HTML"@)
}

/// A send of one fresh five-button rating keyboard for the axis named by
/// `typ`, bound to room `rid`.
pub open spec fn eff_inline(e: Effect, chat: i32, text: Seq<char>, typ: u8, rid: Seq<char>) -> bool {
    &&& e matches Effect::SendInline(m)
    &&& m.chat_id == chat
    &&& m.text@ == text
    &&& (m.reply_markup matches Some(k) && k.inline_keyboard@.len() == 1 && eval_row_ok(
        k.inline_keyboard@[0]@,
        typ,
        None,
        rid,
    ))
}

/// The three sends that deliver one question to one participant: the prompt
/// itself, then the two rating keyboards.
pub open spec fn question_effects(es: Seq<Effect>, chat: i32, qtext: Seq<char>, rid: Seq<char>) -> bool {
    &&& es.len() == 3
    &&& eff_html(es[0], chat, qtext)
    &&& eff_inline(es[1], chat, Messages::ANSWER_IMPORTANCE@, 1, rid)
    &&& eff_inline(es[2], chat, Messages::ANSWER_EVALUATION@, 2, rid)
}

/// The header above a delivered prompt: its 1-based position and the pack
/// length.
pub open spec fn header_of(idx: u16, total: int) -> Seq<char> {
    "<b>📒Вопрос "@ + dec_rep((idx + 1) as nat)
        + " из "@ + dec_rep(total as nat) + ":</b>\n"@
}

/// Whether the pack has an entry at position `idx`.
pub open spec fn has_question(s: StoreV, pack: Seq<char>, idx: u16) -> bool {
    s.packs.contains_key(pack) && idx < s.packs[pack].len()
}

/// One prompt ready for delivery: the position header and the prompt text.
#[derive(Debug)]
pub struct QuestionMessage {
    pub header: String,
    pub message: String,
}

impl QuestionMessage {
    /// The full message text: header then prompt.
    pub fn create_text(&self) -> (r: String)
        ensures
            r@ == self.header@ + self.message@,
    {
        let mut r = self.header.clone();
        r.append(self.message.as_str());
        r
    }

    /// Looks the prompt at position `idx` of `pack` up, framed with its
    /// position header; absent when the pack has no entry there.
    pub fn get(pack: &String, idx: u16, store: &Store) -> (r: Option<QuestionMessage>)
        requires
            store.wf(),
        ensures
            r is Some <==> has_question(store@, pack@, idx),
            r matches Some(q) ==> q.header@ == header_of(idx, store@.packs[pack@].len() as int)
                && q.message@ == store@.packs[pack@][idx as int],
    {
        match store.pack_prompt(pack.as_str(), idx) {
            Some(prompt) => {
                let total = store.pack_len(pack.as_str());
                let mut header = String::from_str(
                    "<b>📒Вопрос ",
                );
                let pos = u64_to_string((idx as u64) + 1);
                header.append(pos.as_str());
                header.append(" из ");
                let tot = u64_to_string(total as u64);
                header.append(tot.as_str());
                header.append(":</b>\n");
                proof {
                    assert(header@ =~= header_of(idx, store@.packs[pack@].len() as int));
                }
                Some(QuestionMessage { header, message: prompt })
            },
            None => None,
        }
    }

    /// The non-mutating re-delivery lookup: the current question of the
    /// session, absent when the session is gone or its pack is exhausted.
    pub fn get_by_room_id(room_id: &str, store: &Store) -> (r: Option<QuestionMessage>)
        requires
            store.wf(),
        ensures
            r is Some <==> (store@.rooms.contains_key(room_id@) && has_question(
                store@,
                store@.rooms[room_id@].pack,
                store@.rooms[room_id@].idx,
            )),
            r matches Some(q) ==> ({
                let room = store@.rooms[room_id@];
                q.header@ == header_of(room.idx, store@.packs[room.pack].len() as int)
                    && q.message@ == store@.packs[room.pack][room.idx as int]
            }),
    {
        let (pack, idx) = match store.get_room(room_id) {
            Some(room) => (room.pack.clone(), room.idx),
            None => {
                return None;
            },
        };
        QuestionMessage::get(&pack, idx, store)
    }

    /// Delivers this question to one participant: moves them to the in-room
    /// phase and emits the prompt and the two rating keyboards.
    pub fn send(&self, user_id: i32, room_id: &String, store: &mut Store) -> (es: Vec<Effect>)
        requires
            old(store).wf(),
        ensures
            final(store).wf(),
            final(store)@ == (StoreV {
                contexts: old(store)@.contexts.insert(user_id, Context::InRoom),
                ..old(store)@
            }),
            question_effects(es@, user_id, self.header@ + self.message@, room_id@),
    {
        Context::set_context(user_id, Context::InRoom, store);
        let mut es: Vec<Effect> = Vec::new();
        let text = self.create_text();
        let mut html = OutgoingKeyboardMessage::with_text(user_id, text.as_str());
        html.parse_mode = Some(String::from_str("HTML"));
        es.push(Effect::SendKeyboard(html));
        es.push(
            Effect::SendInline(
                OutgoingInlineKeyboardMessage::with_eval_keys(
                    user_id,
                    Messages::ANSWER_IMPORTANCE,
                    1,
                    room_id,
                ),
            ),
        );
        es.push(
            Effect::SendInline(
                OutgoingInlineKeyboardMessage::with_eval_keys(
                    user_id,
                    Messages::ANSWER_EVALUATION,
                    2,
                    room_id,
                ),
            ),
        );
        es
    }
}

/// The end-of-pack effect list: an "evaluating" notice to each side, then
/// the one-time report request carrying both recipients and their roles.
pub open spec fn finish_effects(
    es: Seq<Effect>,
    u1: i32,
    u2: i32,
    rid: Seq<char>,
    role_a: Role,
    role_b: Role,
) -> bool {
    &&& es.len() == 3
    &&& eff_text(es[0], u1, Messages::EVALUATING_RESULTS@)
    &&& eff_text(es[1], u2, Messages::EVALUATING_RESULTS@)
    &&& (es[2] matches Effect::FetchAndDeliverReport(rq) && rq.room_id@ == rid && rq.user_a == u1
        && rq.role_a == role_a && rq.user_b == u2 && rq.role_b == role_b)
}

/// Hands the question at `idx` of `pack` to both participants, or — when
/// the pack is exhausted — runs the end-of-sequence path: "evaluating"
/// notices, the one-time report request, and full session teardown.
pub(crate) fn send_question_messages(
    u1: i32,
    u2: i32,
    pack: &String,
    idx: u16,
    room_id: &String,
    store: &mut Store,
) -> (r: Result<Vec<Effect>, EngineError>)
    requires
        old(store).wf(),
    ensures
        final(store).wf(),
        has_question(old(store)@, pack@, idx) ==> (r matches Ok(es) && ({
            let qtext = header_of(idx, old(store)@.packs[pack@].len() as int)
                + old(store)@.packs[pack@][idx as int];
            &&& es@.len() == 6
            &&& question_effects(es@.subrange(0, 3), u1, qtext, room_id@)
            &&& question_effects(es@.subrange(3, 6), u2, qtext, room_id@)
        }) && final(store)@ == after_deliver(old(store)@, u1, u2)),
        !has_question(old(store)@, pack@, idx) ==> ({
            if old(store)@.pointers.contains_key(u1) && old(store)@.pointers.contains_key(u2) {
                &&& r matches Ok(es) && finish_effects(
                    es@,
                    u1,
                    u2,
                    room_id@,
                    old(store)@.pointers[u1].role,
                    old(store)@.pointers[u2].role,
                )
                &&& final(store)@ == after_finish(old(store)@, room_id@, u1, u2)
            } else {
                r == Err::<Vec<Effect>, EngineError>(EngineError::MissingData) && *final(store)
                    == *old(store)
            }
        }),
{
    match QuestionMessage::get(pack, idx, store) {
        Some(q) => {
            let mut es = q.send(u1, room_id, store);
            let ghost es1 = es@;
            let mut es2 = q.send(u2, room_id, store);
            let ghost es2v = es2@;
            es.append(&mut es2);
            proof {
                assert(es@.subrange(0, 3) =~= es1);
                assert(es@.subrange(3, 6) =~= es2v);
            }
            Ok(es)
        },
        None => {
            let role_a = match Role::get(u1, store) {
                Some(r) => r,
                None => {
                    return Err(EngineError::MissingData);
                },
            };
            let role_b = match Role::get(u2, store) {
                Some(r) => r,
                None => {
                    return Err(EngineError::MissingData);
                },
            };
            Context::set_context(u1, Context::WaitingForResults, store);
            Context::set_context(u2, Context::WaitingForResults, store);
            let mut es: Vec<Effect> = Vec::new();
            es.push(
                Effect::SendKeyboard(
                    OutgoingKeyboardMessage::with_text(u1, Messages::EVALUATING_RESULTS),
                ),
            );
            es.push(
                Effect::SendKeyboard(
                    OutgoingKeyboardMessage::with_text(u2, Messages::EVALUATING_RESULTS),
                ),
            );
            es.push(
                Effect::FetchAndDeliverReport(
                    ReportRequest {
                        room_id: room_id.clone(),
                        user_a: u1,
                        role_a,
                        user_b: u2,
                        role_b,
                    },
                ),
            );
            Context::reset(u1, store);
            store.remove_pointer(u1);
            Context::reset(u2, store);
            store.remove_pointer(u2);
            Room::clear(room_id.as_str(), store);
            proof {
                assert(old(store)@.contexts.insert(u1, Context::WaitingForResults).insert(
                    u2,
                    Context::WaitingForResults,
                ).remove(u1).remove(u2) =~= old(store)@.contexts.remove(u1).remove(u2));
                assert(store@ =~= after_finish(old(store)@, room_id@, u1, u2));
            }
            Ok(es)
        },
    }
}

impl Room {
    /// Starts a freshly filled session: both occupants move in, both
    /// pointers are recorded, and question 0 is delivered to both — or,
    /// for an empty pack, the end-of-sequence path runs at once.
    pub(crate) fn start(room_id: &String, store: &mut Store) -> (r: Result<Vec<Effect>, EngineError>)
        requires
            old(store).wf(),
            old(store)@.rooms.contains_key(room_id@),
            old(store)@.rooms[room_id@].visitor_id is Some,
        ensures
            final(store).wf(),
            r is Ok,
            ({
                let c = old(store)@.rooms[room_id@].creator_id;
                let v = old(store)@.rooms[room_id@].visitor_id->0;
                let pk = old(store)@.rooms[room_id@].pack;
                let mid = StoreV {
                    contexts: old(store)@.contexts.insert(c, Context::InRoom).insert(
                        v,
                        Context::InRoom,
                    ),
                    pointers: old(store)@.pointers.insert(
                        c,
                        UserRoomV { id: room_id@, role: Role::Creator },
                    ).insert(v, UserRoomV { id: room_id@, role: Role::Visitor }),
                    ..old(store)@
                };
                let plen = old(store)@.packs[pk].len();
                if plen > 0 {
                    r matches Ok(es) && ({
                        let qtext = header_of(0, plen as int) + old(store)@.packs[pk][0];
                        &&& es@.len() == 6
                        &&& question_effects(es@.subrange(0, 3), c, qtext, room_id@)
                        &&& question_effects(es@.subrange(3, 6), v, qtext, room_id@)
                    }) && final(store)@ == after_deliver(mid, c, v)
                } else {
                    r matches Ok(es) && finish_effects(
                        es@,
                        c,
                        v,
                        room_id@,
                        mid.pointers[c].role,
                        mid.pointers[v].role,
                    ) && final(store)@ == after_finish(mid, room_id@, c, v)
                }
            }),
    {
        let (c, v, pack) = match store.get_room(room_id.as_str()) {
            Some(room) => {
                let v = match room.visitor_id {
                    Some(v) => v,
                    None => {
                        // unreachable: the visitor slot is filled by precondition
                        proof {
                            assert(false);
                        }
                        0
                    },
                };
                (room.creator_id, v, room.pack.clone())
            },
            None => {
                // unreachable: the session exists by precondition
                proof {
                    assert(false);
                }
                return Err(EngineError::MissingData);
            },
        };
        Context::set_context(c, Context::InRoom, store);
        Context::set_context(v, Context::InRoom, store);
        Room::set_current_room(c, room_id, Role::Creator, store);
        Room::set_current_room(v, room_id, Role::Visitor, store);
        send_question_messages(c, v, &pack, 0, room_id, store)
    }

    /// Re-entry by an already-assigned participant: re-records their
    /// pointer and phase and re-delivers the current question if there is
    /// one. Occupancy is untouched and nothing fails.
    pub(crate) fn enter_return(
        user_id: i32,
        room_id: &String,
        role: Role,
        store: &mut Store,
    ) -> (es: Vec<Effect>)
        requires
            old(store).wf(),
        ensures
            final(store).wf(),
            final(store)@ == (StoreV {
                pointers: old(store)@.pointers.insert(
                    user_id,
                    UserRoomV { id: room_id@, role: role },
                ),
                contexts: old(store)@.contexts.insert(user_id, Context::InRoom),
                ..old(store)@
            }),
            ({
                let s = old(store)@;
                if s.rooms.contains_key(room_id@) && has_question(
                    s,
                    s.rooms[room_id@].pack,
                    s.rooms[room_id@].idx,
                ) {
                    question_effects(
                        es@,
                        user_id,
                        header_of(
                            s.rooms[room_id@].idx,
                            s.packs[s.rooms[room_id@].pack].len() as int,
                        ) + s.packs[s.rooms[room_id@].pack][s.rooms[room_id@].idx as int],
                        room_id@,
                    )
                } else {
                    es@.len() == 0
                }
            }),
    {
        let repeat = QuestionMessage::get_by_room_id(room_id.as_str(), store);
        Room::set_current_room(user_id, room_id, role, store);
        let es: Vec<Effect> = match repeat {
            Some(q) => q.send(user_id, room_id, store),
            None => Vec::new(),
        };
        Context::set_context(user_id, Context::InRoom, store);
        proof {
            assert(old(store)@.contexts.insert(user_id, Context::InRoom).insert(
                user_id,
                Context::InRoom,
            ) =~= old(store)@.contexts.insert(user_id, Context::InRoom));
        }
        es
    }
}

} // verus!
