use vstd::prelude::*;

use crate::constants::{Keys, Messages};
use crate::messages::{
    finish_effects, has_question, header_of, question_effects, send_question_messages, Effect,
};
use crate::room::{
    after_advance, after_deliver, after_finish, after_ready, fresh_room, snapshot_matches,
    Context, EngineError, Role, Room, UserRoom, UserRoomV,
};
use crate::store::{Store, StoreV};
use crate::codec::CallbackDataV;
use crate::helpers::UpdateType;
use crate::structures::{
    callback_ok_outcome, spec_msg_text, spec_starts_with, OutgoingKeyboardMessage, TgMessage,
    TgUpdate,
};

verus! {

/// A bare text reply to `chat`.
pub open spec fn plain_msg(m: OutgoingKeyboardMessage, chat: i32, text: Seq<char>) -> bool {
    m.chat_id == chat && m.text@ == text && m.reply_markup is None && m.parse_mode is None
}

/// The outcome of the create flow's second step: an error reply with the
/// store untouched when the text is missing or names no pack; otherwise a
/// fresh sixteen-character join code whose session carries the creator, the
/// pack and index 0, with the creator waiting for a partner — or, against
/// all odds, a code collision reported with the store untouched.
pub open spec fn new_room_outcome(
    s: StoreV,
    post: StoreV,
    r: Result<Option<OutgoingKeyboardMessage>, EngineError>,
    user_id: i32,
    message: Option<TgMessage>,
    now: u64,
) -> bool {
    &&& (spec_msg_text(message) is None ==> (r matches Ok(o) && (o matches Some(m) && plain_msg(
        m,
        user_id,
        Messages::ERROR@,
    )) && post == s))
    &&& (spec_msg_text(message) matches Some(pk) && !s.packs.contains_key(pk) ==> (r matches Ok(o)
        && (o matches Some(m) && plain_msg(m, user_id, Messages::ERROR_PACK_DOES_NOT_EXIST@))
        && post == s))
    &&& ({
        let pk = spec_msg_text(message)->0;
        spec_msg_text(message) is Some && s.packs.contains_key(pk) ==> ({
            ||| (r matches Ok(o) && (o matches Some(m) && m.chat_id == user_id
                && m.reply_markup is None && m.parse_mode is None) && (exists|code: Seq<char>|
                {
                    &&& code.len() == 16
                    &&& !s.rooms.contains_key(code)
                    &&& (o->0).text@ == Messages::WAITING_FOR_PARTNER@ + "\nID комнаты: "@
                        + code
                    &&& post == (StoreV {
                        rooms: s.rooms.insert(code, fresh_room(code, user_id, pk, now)),
                        contexts: s.contexts.insert(user_id, Context::WaitingForPartner),
                        ..s
                    })
                }))
            ||| (r == Err::<Option<OutgoingKeyboardMessage>, EngineError>(
                EngineError::CodeCollision,
            ) && post == s)
        })
    })
}

/// The conversational entry points, one per decided update kind.
pub struct Handlers;

impl Handlers {
    /// The join flow's first step: ask for a join code and move the
    /// participant to the code-entry phase.
    pub fn join_existing(user_id: i32, store: &mut Store) -> (r: Option<OutgoingKeyboardMessage>)
        requires
            old(store).wf(),
        ensures
            final(store).wf(),
            r matches Some(m) && plain_msg(m, user_id, Messages::INSERT_ROOM_ID@),
            final(store)@ == (StoreV {
                contexts: old(store)@.contexts.insert(user_id, Context::InsertId),
                ..old(store)@
            }),
    {
        let msg = OutgoingKeyboardMessage::join_room(user_id);
        Context::set_context(user_id, Context::InsertId, store);
        Some(msg)
    }

    /// The create flow's first step: offer the known packs and move the
    /// participant to the pack-selection phase.
    pub fn create(user_id: i32, store: &mut Store) -> (r: Option<OutgoingKeyboardMessage>)
        requires
            old(store).wf(),
        ensures
            final(store).wf(),
            r matches Some(m) && m.chat_id == user_id && m.text@ == Messages::CHOOSE_PACK@ && (
            m.reply_markup matches Some(k) && k.keyboard@.len() == old(store).packs@.len() && (
            forall|i: int|
                0 <= i < k.keyboard@.len() ==> (#[trigger] k.keyboard@[i])@.len() == 1
                    && k.keyboard@[i]@[0]@ == old(store).packs@[i].name@) && k.one_time_keyboard
                == true) && m.parse_mode is None,
            final(store)@ == (StoreV {
                contexts: old(store)@.contexts.insert(user_id, Context::SelectPack),
                ..old(store)@
            }),
    {
        let packs = store.pack_names();
        let msg = OutgoingKeyboardMessage::create_select_pack(user_id, packs);
        Context::set_context(user_id, Context::SelectPack, store);
        Some(msg)
    }

    /// The create flow's second step: the message text names the pack. A
    /// missing text or an unknown pack is answered with an error message
    /// and changes nothing; otherwise a session is created under a fresh
    /// join code, the code is handed back, and the creator waits for a
    /// partner.
    pub fn new_room(
        user_id: i32,
        message: &Option<TgMessage>,
        now: u64,
        store: &mut Store,
    ) -> (r: Result<Option<OutgoingKeyboardMessage>, EngineError>)
        requires
            old(store).wf(),
        ensures
            final(store).wf(),
            new_room_outcome(old(store)@, final(store)@, r, user_id, *message, now),
    {
        let pack = match message {
            Some(m) => match &m.text {
                Some(t) => t,
                None => {
                    return Ok(Some(OutgoingKeyboardMessage::with_text(user_id, Messages::ERROR)));
                },
            },
            None => {
                return Ok(Some(OutgoingKeyboardMessage::with_text(user_id, Messages::ERROR)));
            },
        };
        match Room::create(user_id, pack, now, store) {
            Ok(room_id) => {
                let msg = OutgoingKeyboardMessage::room_id_message(user_id, &room_id);
                Context::set_context(user_id, Context::WaitingForPartner, store);
                proof {
                    assert(exists|code: Seq<char>|
                        {
                            &&& code.len() == 16
                            &&& !old(store)@.rooms.contains_key(code)
                            &&& msg.text@ == Messages::WAITING_FOR_PARTNER@
                                + "\nID комнаты: "@ + code
                            &&& final(store)@ == (StoreV {
                                rooms: old(store)@.rooms.insert(
                                    code,
                                    fresh_room(code, user_id, pack@, now),
                                ),
                                contexts: old(store)@.contexts.insert(
                                    user_id,
                                    Context::WaitingForPartner,
                                ),
                                ..old(store)@
                            })
                        }) by {
                        assert(room_id@.len() == 16);
                    }
                }
                Ok(Some(msg))
            },
            Err(EngineError::InvalidPack) => {
                Ok(
                    Some(
                        OutgoingKeyboardMessage::with_text(
                            user_id,
                            Messages::ERROR_PACK_DOES_NOT_EXIST,
                        ),
                    ),
                )
            },
            Err(e) => Err(e),
        }
    }

    /// The join flow's second step: the message text is the join code. An
    /// unknown code is answered without touching anything; a code naming a
    /// session with a free visitor slot admits the sender and starts the
    /// session; a code naming a session the sender already occupies
    /// re-delivers the current question without touching occupancy; a full
    /// session occupied by others is silently ignored.
    pub fn insert_id(
        user_id: i32,
        message: &Option<TgMessage>,
        store: &mut Store,
    ) -> (r: Result<(Option<OutgoingKeyboardMessage>, Vec<Effect>), EngineError>)
        requires
            old(store).wf(),
        ensures
            final(store).wf(),
            r is Ok,
            insert_id_outcome(old(store)@, final(store)@, r, user_id, *message),
    {
        let room_id = match message {
            Some(m) => match &m.text {
                Some(t) => t,
                None => {
                    return Ok((Some(OutgoingKeyboardMessage::no_room_id_in_message(user_id)), Vec::new()));
                },
            },
            None => {
                return Ok((Some(OutgoingKeyboardMessage::no_room_id_in_message(user_id)), Vec::new()));
            },
        };
        let (creator_id, visitor_id) = match Room::room_users(room_id.as_str(), store) {
            Some(p) => p,
            None => {
                return Ok((Some(OutgoingKeyboardMessage::wrong_room_id(user_id)), Vec::new()));
            },
        };
        if creator_id == user_id && visitor_id.is_some() {
            let es = Room::enter_return(user_id, room_id, Role::Creator, store);
            Ok((None, es))
        } else if visitor_id.is_some() && visitor_id.unwrap() == user_id {
            let es = Room::enter_return(user_id, room_id, Role::Visitor, store);
            Ok((None, es))
        } else if visitor_id.is_none() {
            Room::enter(room_id.as_str(), user_id, store);
            let es = match Room::start(room_id, store) {
                Ok(es) => es,
                Err(e) => {
                    // unreachable: starting a filled session cannot fail
                    proof {
                        assert(false);
                    }
                    return Err(e);
                },
            };
            Ok((None, es))
        } else {
            Ok((None, Vec::new()))
        }
    }

    /// One side's "ready" signal. With the partner not yet ready, the
    /// marker is stored and the side is told to wait; once both sides are
    /// ready, the finished question's row goes to analytics, the shared
    /// index advances by one, and the next question is delivered — or the
    /// end-of-sequence path tears the session down.
    pub fn waiting_for_answer(
        user_id: i32,
        now: u64,
        store: &mut Store,
    ) -> (r: Result<(Option<OutgoingKeyboardMessage>, Vec<Effect>), EngineError>)
        requires
            old(store).wf(),
        ensures
            final(store).wf(),
            waiting_outcome(old(store)@, final(store)@, r, user_id, now),
    {
        let user_room = match UserRoom::get(user_id, store) {
            Ok(u) => u,
            Err(e) => {
                return Err(e);
            },
        };
        let both = match user_room.set_ready_time(now, store) {
            Ok(b) => b,
            Err(e) => {
                return Err(e);
            },
        };
        if both {
            let (snap, creator_id, visitor_opt, pack) = match store.get_room(
                user_room.id.as_str(),
            ) {
                Some(room) => (room.snapshot(), room.creator_id, room.visitor_id, room.pack.clone()),
                None => {
                    // unreachable: the barrier succeeded, so the session exists
                    proof {
                        assert(false);
                    }
                    return Err(EngineError::UnknownRoom);
                },
            };
            let visitor_id = match visitor_opt {
                Some(v) => v,
                None => {
                    return Err(EngineError::MissingData);
                },
            };
            let mut es: Vec<Effect> = Vec::new();
            es.push(Effect::RecordRound(snap));
            let ghost es1 = es@;
            let idx = Room::prepare_for_next_question(user_room.id.as_str(), store);
            let mut es2 = match send_question_messages(
                creator_id,
                visitor_id,
                &pack,
                idx,
                &user_room.id,
                store,
            ) {
                Ok(es2) => es2,
                Err(e) => {
                    return Err(e);
                },
            };
            let ghost es2v = es2@;
            es.append(&mut es2);
            proof {
                assert(es@.subrange(0, 1) =~= es1);
                assert(es@.subrange(1, es@.len() as int) =~= es2v);
            }
            Ok((None, es))
        } else {
            Ok(
                (
                    Some(
                        OutgoingKeyboardMessage::with_text(
                            user_id,
                            Messages::WAITING_FOR_PARTNER_EVAL,
                        ),
                    ),
                    Vec::new(),
                ),
            )
        }
    }
}

/// The outcome of the join flow's second step: a complaint when the text
/// is missing or the code unknown (store untouched); re-entry for an
/// already-assigned occupant; admission into a free visitor slot; and
/// silence for a full session occupied by others.
pub open spec fn insert_id_outcome(
    s: StoreV,
    post: StoreV,
    r: Result<(Option<OutgoingKeyboardMessage>, Vec<Effect>), EngineError>,
    user_id: i32,
    message: Option<TgMessage>,
) -> bool {
    &&& (spec_msg_text(message) is None ==> (r matches Ok(p) && (p.0 matches Some(m) && plain_msg(
        m,
        user_id,
        Messages::NO_ROOM_ID_IN_MESSAGE@,
    )) && p.1@.len() == 0 && post == s))
    &&& (spec_msg_text(message) matches Some(rid) && !s.rooms.contains_key(rid) ==> (r matches Ok(
        p,
    ) && (p.0 matches Some(m) && plain_msg(m, user_id, Messages::WRONG_ROOM_ID@)) && p.1@.len()
        == 0 && post == s))
    &&& ({
        let rid = spec_msg_text(message)->0;
        spec_msg_text(message) is Some && s.rooms.contains_key(rid) ==> ({
            let room = s.rooms[rid];
            if room.creator_id == user_id && room.visitor_id is Some {
                reentry_outcome(s, post, r, user_id, rid, Role::Creator)
            } else if room.visitor_id == Some(user_id) {
                reentry_outcome(s, post, r, user_id, rid, Role::Visitor)
            } else if room.visitor_id is None {
                join_outcome(s, post, r, user_id, rid)
            } else {
                r matches Ok(p) && p.0 is None && p.1@.len() == 0 && post == s
            }
        })
    })
}

/// The outcome of one "ready" signal: an internal failure with the store
/// untouched when the sender holds no pointer or their session is gone; a
/// "waiting on partner" reply with only the marker written while the other
/// side is not yet ready; and the full barrier step once both sides are.
pub open spec fn waiting_outcome(
    s: StoreV,
    post: StoreV,
    r: Result<(Option<OutgoingKeyboardMessage>, Vec<Effect>), EngineError>,
    user_id: i32,
    now: u64,
) -> bool {
    &&& (!s.pointers.contains_key(user_id) ==> r == Err::<
        (Option<OutgoingKeyboardMessage>, Vec<Effect>),
        EngineError,
    >(EngineError::MissingData) && post == s)
    &&& (s.pointers.contains_key(user_id) ==> ({
        let p = s.pointers[user_id];
        if !s.rooms.contains_key(p.id) {
            r == Err::<(Option<OutgoingKeyboardMessage>, Vec<Effect>), EngineError>(
                EngineError::UnknownRoom,
            ) && post == s
        } else {
            let both = s.rooms[p.id].ready_at(p.role.spec_opposite()) is Some;
            let s1 = after_ready(s, p.id, p.role, now);
            if !both {
                r matches Ok(pr) && (pr.0 matches Some(m) && plain_msg(
                    m,
                    user_id,
                    Messages::WAITING_FOR_PARTNER_EVAL@,
                )) && pr.1@.len() == 0 && post == s1
            } else {
                barrier_outcome(s, s1, post, r, user_id)
            }
        }
    }))
}

/// The outcome of the join flow's first step: the code prompt, and the
/// sender moved to the code-entry phase.
pub open spec fn join_existing_outcome(
    s: StoreV,
    post: StoreV,
    o: Option<OutgoingKeyboardMessage>,
    user_id: i32,
) -> bool {
    &&& o matches Some(m) && plain_msg(m, user_id, Messages::INSERT_ROOM_ID@)
    &&& post == (StoreV { contexts: s.contexts.insert(user_id, Context::InsertId), ..s })
}

/// The outcome of the create flow's first step: the pack chooser listing
/// every known pack, and the sender moved to the pack-selection phase.
pub open spec fn create_outcome(
    pre: Store,
    post: StoreV,
    o: Option<OutgoingKeyboardMessage>,
    user_id: i32,
) -> bool {
    &&& o matches Some(m) && m.chat_id == user_id && m.text@ == Messages::CHOOSE_PACK@ && (
    m.reply_markup matches Some(k) && k.keyboard@.len() == pre.packs@.len() && (forall|i: int|
        0 <= i < k.keyboard@.len() ==> (#[trigger] k.keyboard@[i])@.len() == 1 && k.keyboard@[i]@[0]@
            == pre.packs@[i].name@) && k.one_time_keyboard == true) && m.parse_mode is None
    &&& post == (StoreV { contexts: pre@.contexts.insert(user_id, Context::SelectPack), ..pre@ })
}

/// The full decision for one inbound update: what the dispatcher decides,
/// what the decided handler does to the store, which outbound effects are
/// emitted, and which direct reply the sender receives.
pub fn handle_update(update: &TgUpdate, now: u64, store: &mut Store) -> (r: Result<
    (Option<OutgoingKeyboardMessage>, Vec<Effect>),
    EngineError,
>)
    requires
        old(store).wf(),
    ensures
        final(store).wf(),
        update.callback_query matches Some(q) ==> ({
            if q.message is Some && q.data is Some && crate::codec::is_canonical_json(
                q.data->0@,
            ) {
                let chat = q.message->0.chat.id;
                let mid = q.message->0.message_id;
                &&& (r is Err <==> !old(store)@.contexts.contains_key(chat as i32))
                &&& (r is Err ==> r == Err::<
                    (Option<OutgoingKeyboardMessage>, Vec<Effect>),
                    EngineError,
                >(EngineError::MissingData) && final(store)@ == old(store)@)
                &&& (r matches Ok(p) ==> (exists|d: CallbackDataV|
                    crate::codec::clean(d) && crate::codec::json_of(d) == q.data->0@
                        && callback_ok_outcome(
                        old(store)@,
                        final(store)@,
                        p.1@,
                        q.id@,
                        chat,
                        mid,
                        d,
                    )) && (match update.message {
                    Some(m) => p.0 matches Some(e) && plain_msg(e, m.from.id, Messages::ERROR@),
                    None => p.0 is None,
                }))
            } else {
                r matches Ok(p) && p.1@.len() == 0 && final(store)@ == old(store)@ && (
                match update.message {
                    Some(m) => p.0 matches Some(e) && plain_msg(e, m.from.id, Messages::ERROR@),
                    None => p.0 is None,
                })
            }
        }),
        update.callback_query is None && update.spec_has_bot_command() ==> ({
            let uid = update.spec_user()->0;
            match spec_msg_text(update.message) {
                Some(t) => {
                    if spec_starts_with(t, "/start"@) {
                        r matches Ok(p) && p.1@.len() == 0 && (p.0 matches Some(m) && m.chat_id
                            == uid && m.text@ == Messages::WELCOME@) && final(store)@ == (StoreV {
                            contexts: old(store)@.contexts.remove(uid),
                            pointers: old(store)@.pointers.remove(uid),
                            ..old(store)@
                        })
                    } else if spec_starts_with(t, "/help"@) {
                        r matches Ok(p) && p.1@.len() == 0 && (p.0 matches Some(m) && plain_msg(
                            m,
                            uid,
                            Messages::HELP@,
                        )) && final(store)@ == old(store)@
                    } else {
                        r matches Ok(p) && p.1@.len() == 0 && (p.0 matches Some(m) && plain_msg(
                            m,
                            uid,
                            Messages::ERROR_UNKNOWN_COMMAND@,
                        )) && final(store)@ == old(store)@
                    }
                },
                None => r matches Ok(p) && p.1@.len() == 0 && (p.0 matches Some(m) && plain_msg(
                    m,
                    uid,
                    Messages::ERROR@,
                )) && final(store)@ == old(store)@,
            }
        }),
        update.callback_query is None && !update.spec_has_bot_command() ==> ({
            let text = spec_msg_text(update.message);
            if update.message is None {
                r matches Ok(p) && p.0 is None && p.1@.len() == 0 && final(store)@ == old(
                    store,
                )@
            } else {
                let uid = update.message->0.from.id;
                if text == Some(Keys::JOIN@) {
                    r matches Ok(p) && p.1@.len() == 0 && join_existing_outcome(
                        old(store)@,
                        final(store)@,
                        p.0,
                        uid,
                    )
                } else if text == Some(Keys::CREATE@) {
                    r matches Ok(p) && p.1@.len() == 0 && create_outcome(
                        *old(store),
                        final(store)@,
                        p.0,
                        uid,
                    )
                } else if !old(store)@.contexts.contains_key(uid) {
                    r == Err::<(Option<OutgoingKeyboardMessage>, Vec<Effect>), EngineError>(
                        EngineError::MissingData,
                    ) && final(store)@ == old(store)@
                } else {
                    match old(store)@.contexts[uid] {
                        Context::SelectPack => (r matches Ok(p) ==> p.1@.len() == 0)
                            && new_room_outcome(old(store)@, final(store)@, (match r {
                            Ok(p) => Ok(p.0),
                            Err(e) => Err(e),
                        }), uid, update.message, now),
                        Context::InsertId => insert_id_outcome(
                            old(store)@,
                            final(store)@,
                            r,
                            uid,
                            update.message,
                        ),
                        Context::WaitingForAnswer => {
                            if text == Some(Keys::READY@) {
                                waiting_outcome(old(store)@, final(store)@, r, uid, now)
                            } else {
                                r matches Ok(p) && p.1@.len() == 0 && (p.0 matches Some(m)
                                    && plain_msg(m, uid, Messages::ERROR@)) && final(store)@
                                    == old(store)@
                            }
                        },
                        Context::WaitingForResults => r matches Ok(p) && p.1@.len() == 0 && (
                        p.0 matches Some(m) && plain_msg(m, uid, Messages::WAIT_A_MOMENT@))
                            && final(store)@ == old(store)@,
                        _ => r matches Ok(p) && p.1@.len() == 0 && (p.0 matches Some(m)
                            && plain_msg(m, uid, Messages::ERROR@)) && final(store)@ == old(
                            store,
                        )@,
                    }
                }
            }
        }),
{
    let message_type = match update.handle_message_type(store) {
        Ok(t) => t,
        Err(e) => {
            return Err(e);
        },
    };
    let mut effects: Vec<Effect> = Vec::new();
    if let UpdateType::Callback(chat, mid, d, qid) = &message_type {
        match d.handle_callback(qid, *chat, *mid, store) {
            Ok(es) => {
                effects = es;
                proof {
                    let q = update.callback_query->0;
                    assert(crate::codec::clean(d@) && crate::codec::json_of(d@)
                        == q.data->0@);
                }
            },
            Err(e) => {
                return Err(e);
            },
        }
    }
    let user_id = match &update.message {
        Some(m) => m.from.id,
        None => {
            return Ok((None, effects));
        },
    };
    let response: Option<OutgoingKeyboardMessage> = match message_type {
        UpdateType::Start => Some(OutgoingKeyboardMessage::welcome_message(user_id)),
        UpdateType::JoinExisting => Handlers::join_existing(user_id, store),
        UpdateType::Create => Handlers::create(user_id, store),
        UpdateType::NewRoom => {
            match Handlers::new_room(user_id, &update.message, now, store) {
                Ok(o) => o,
                Err(e) => {
                    return Err(e);
                },
            }
        },
        UpdateType::InsertId => {
            match Handlers::insert_id(user_id, &update.message, store) {
                Ok((o, mut es)) => {
                    effects.append(&mut es);
                    o
                },
                Err(e) => {
                    return Err(e);
                },
            }
        },
        UpdateType::WaitingForOther => {
            match Handlers::waiting_for_answer(user_id, now, store) {
                Ok((o, mut es)) => {
                    effects.append(&mut es);
                    o
                },
                Err(e) => {
                    return Err(e);
                },
            }
        },
        UpdateType::WaitingForResults => {
            Some(OutgoingKeyboardMessage::with_text(user_id, Messages::WAIT_A_MOMENT))
        },
        UpdateType::Help => Some(OutgoingKeyboardMessage::with_text(user_id, Messages::HELP)),
        UpdateType::UnknownCommand => {
            Some(OutgoingKeyboardMessage::with_text(user_id, Messages::ERROR_UNKNOWN_COMMAND))
        },
        _ => Some(OutgoingKeyboardMessage::error(user_id)),
    };
    Ok((response, effects))
}

/// The outcome of re-entry under `role`: the participant's pointer and
/// phase are re-recorded, the current question (if any) is re-delivered,
/// no reply message is produced, and — the heart of the matter — the
/// session map, occupancy included, is exactly what it was.
pub open spec fn reentry_outcome(
    s: StoreV,
    post: StoreV,
    r: Result<(Option<OutgoingKeyboardMessage>, Vec<Effect>), EngineError>,
    user_id: i32,
    rid: Seq<char>,
    role: Role,
) -> bool {
    &&& post == (StoreV {
        pointers: s.pointers.insert(user_id, UserRoomV { id: rid, role: role }),
        contexts: s.contexts.insert(user_id, Context::InRoom),
        ..s
    })
    &&& match r {
        Ok(p) => p.0 is None && ({
            let es = p.1;
            if s.rooms.contains_key(rid) && has_question(s, s.rooms[rid].pack, s.rooms[rid].idx) {
                question_effects(
                    es@,
                    user_id,
                    header_of(s.rooms[rid].idx, s.packs[s.rooms[rid].pack].len() as int)
                        + s.packs[s.rooms[rid].pack][s.rooms[rid].idx as int],
                    rid,
                )
            } else {
                es@.len() == 0
            }
        }),
        Err(_) => false,
    }
}

/// The outcome of admitting `user_id` into the free visitor slot of `rid`:
/// the visitor is recorded, both sides move in and get their pointers, and
/// question 0 is delivered — or, for an empty pack, the session finishes
/// at once.
pub open spec fn join_outcome(
    s: StoreV,
    post: StoreV,
    r: Result<(Option<OutgoingKeyboardMessage>, Vec<Effect>), EngineError>,
    user_id: i32,
    rid: Seq<char>,
) -> bool {
    let room = s.rooms[rid];
    let c = room.creator_id;
    let joined = StoreV { rooms: s.rooms.insert(rid, room.with_visitor(user_id)), ..s };
    let mid = StoreV {
        contexts: joined.contexts.insert(c, Context::InRoom).insert(user_id, Context::InRoom),
        pointers: joined.pointers.insert(c, UserRoomV { id: rid, role: Role::Creator }).insert(
            user_id,
            UserRoomV { id: rid, role: Role::Visitor },
        ),
        ..joined
    };
    let plen = s.packs[room.pack].len();
    match r {
        Ok(p) => p.0 is None && ({
            let es = p.1;
            if plen > 0 {
                ({
                    let qtext = header_of(0, plen as int) + s.packs[room.pack][0];
                    &&& post == after_deliver(mid, c, user_id)
                    &&& es@.len() == 6
                    &&& question_effects(es@.subrange(0, 3), c, qtext, rid)
                    &&& question_effects(es@.subrange(3, 6), user_id, qtext, rid)
                })
            } else {
                &&& post == after_finish(mid, rid, c, user_id)
                &&& finish_effects(
                    es@,
                    c,
                    user_id,
                    rid,
                    mid.pointers[c].role,
                    mid.pointers[user_id].role,
                )
            }
        }),
        Err(_) => false,
    }
}

/// The outcome once both sides are ready (`s1` is the store with the
/// caller's marker applied): the finished question's row goes to
/// analytics, the index advances, and the next question is delivered to
/// both sides — or, with the pack exhausted, the session finishes.
pub open spec fn barrier_outcome(
    s: StoreV,
    s1: StoreV,
    post: StoreV,
    r: Result<(Option<OutgoingKeyboardMessage>, Vec<Effect>), EngineError>,
    user_id: i32,
) -> bool {
    let p = s.pointers[user_id];
    let ready_room = s1.rooms[p.id];
    if ready_room.visitor_id is None {
        r == Err::<(Option<OutgoingKeyboardMessage>, Vec<Effect>), EngineError>(
            EngineError::MissingData,
        ) && post == s1
    } else {
        let c = ready_room.creator_id;
        let v = ready_room.visitor_id->0;
        let new_idx = Store::spec_next_idx(s1.packs, ready_room);
        let s2 = after_advance(s1, p.id);
        if has_question(s2, ready_room.pack, new_idx) {
            ({
                let qtext = header_of(new_idx, s2.packs[ready_room.pack].len() as int)
                    + s2.packs[ready_room.pack][new_idx as int];
                match r {
                    Ok(pr) => pr.0 is None && ({
                        let es = pr.1;
                        &&& post == after_deliver(s2, c, v)
                        &&& es@.len() == 7
                        &&& (es@[0] matches Effect::RecordRound(sn) && snapshot_matches(
                            sn,
                            ready_room,
                        ))
                        &&& question_effects(es@.subrange(1, 4), c, qtext, p.id)
                        &&& question_effects(es@.subrange(4, 7), v, qtext, p.id)
                    }),
                    Err(_) => false,
                }
            })
        } else if s2.pointers.contains_key(c) && s2.pointers.contains_key(v) {
            match r {
                Ok(pr) => pr.0 is None && ({
                    let es = pr.1;
                    &&& post == after_finish(s2, p.id, c, v)
                    &&& es@.len() == 4
                    &&& (es@[0] matches Effect::RecordRound(sn) && snapshot_matches(
                        sn,
                        ready_room,
                    ))
                    &&& finish_effects(
                        es@.subrange(1, 4),
                        c,
                        v,
                        p.id,
                        s2.pointers[c].role,
                        s2.pointers[v].role,
                    )
                }),
                Err(_) => false,
            }
        } else {
            r == Err::<(Option<OutgoingKeyboardMessage>, Vec<Effect>), EngineError>(
                EngineError::MissingData,
            ) && post == s2
        }
    }
}

} // verus!
