use vstd::prelude::*;
use vstd::string::*;

use crate::codec::{json_of, CallbackData, CallbackDataV};
use crate::constants::{spec_emoji, emoji, Keys, Messages};
use crate::helpers::{CallbackMessageType, UpdateType};
use crate::messages::Effect;
use crate::numfmt::str_eq;
use crate::room::{spec_role_for, Axis, Context, EngineError, Role, Room};
use crate::store::{Store, StoreV};

verus! {

/// The bot-API method names.
pub struct TgMethods;

impl TgMethods {
    pub const GET_UPDATES: &'static str = "getUpdates";

    pub const SEND_MESSAGE: &'static str = "sendMessage";

    pub const EDIT_MESSAGE_REPLY_MARKUP: &'static str = "editMessageReplyMarkup";

    pub const ANSWER_CALLBACK_QUERY: &'static str = "answerCallbackQuery";
}

/// A batch of inbound updates.
#[derive(Debug)]
pub struct TgResult {
    pub result: Vec<TgUpdate>,
}

/// An error reported by the messaging platform.
#[derive(Debug)]
pub struct TgError {
    pub description: String,
}

/// An inline query (received but never acted on).
#[derive(Debug)]
pub struct InlineQuery {
    pub query: String,
}

/// A button press on an inline keyboard.
#[derive(Debug)]
pub struct CallbackQuery {
    pub id: String,
    pub message: Option<TgMessage>,
    pub data: Option<String>,
}

/// The sender of a message.
#[derive(Debug)]
pub struct TgUser {
    pub id: i32,
    pub first_name: String,
    pub last_name: Option<String>,
}

/// The chat a message arrived in.
#[derive(Debug)]
pub struct TgChat {
    pub id: i64,
}

/// A reply keyboard: rows of button labels.
#[derive(Debug)]
pub struct ReplyKeyboardMarkup {
    pub keyboard: Vec<Vec<String>>,
    pub one_time_keyboard: bool,
}

/// An outbound text message, optionally with a reply keyboard and a parse
/// mode.
#[derive(Debug)]
pub struct OutgoingKeyboardMessage {
    pub chat_id: i32,
    pub text: String,
    pub reply_markup: Option<ReplyKeyboardMarkup>,
    pub parse_mode: Option<String>,
}

impl OutgoingKeyboardMessage {
    /// A bare text message.
    pub fn with_text(chat_id: i32, text: &str) -> (r: OutgoingKeyboardMessage)
        ensures
            r.chat_id == chat_id,
            r.text@ == text@,
            r.reply_markup is None,
            r.parse_mode is None,
    {
        OutgoingKeyboardMessage {
            chat_id,
            text: String::from_str(text),
            reply_markup: None,
            parse_mode: None,
        }
    }

    /// A text message with a one-time reply keyboard.
    pub fn with_keyboard(chat_id: i32, text: &str, keyboard: Vec<Vec<String>>) -> (r:
        OutgoingKeyboardMessage)
        ensures
            r.chat_id == chat_id,
            r.text@ == text@,
            r.reply_markup matches Some(k) && k.keyboard == keyboard && k.one_time_keyboard
                == true,
            r.parse_mode is None,
    {
        OutgoingKeyboardMessage {
            chat_id,
            text: String::from_str(text),
            reply_markup: Some(ReplyKeyboardMarkup { keyboard, one_time_keyboard: true }),
            parse_mode: None,
        }
    }

    /// The greeting, with the create/join keyboard.
    pub fn welcome_message(chat_id: i32) -> (r: OutgoingKeyboardMessage)
        ensures
            r.chat_id == chat_id,
            r.text@ == Messages::WELCOME@,
            r.reply_markup matches Some(k) && k.keyboard@.len() == 1 && k.keyboard@[0]@.len() == 2
                && k.keyboard@[0]@[0]@ == Keys::CREATE@ && k.keyboard@[0]@[1]@ == Keys::JOIN@
                && k.one_time_keyboard == true,
            r.parse_mode is None,
    {
        OutgoingKeyboardMessage::with_keyboard(chat_id, Messages::WELCOME, Keys::welcome())
    }

    /// The prompt to type a join code.
    pub fn join_room(chat_id: i32) -> (r: OutgoingKeyboardMessage)
        ensures
            r.chat_id == chat_id,
            r.text@ == Messages::INSERT_ROOM_ID@,
            r.reply_markup is None,
            r.parse_mode is None,
    {
        OutgoingKeyboardMessage::with_text(chat_id, Messages::INSERT_ROOM_ID)
    }

    /// The pack chooser: one keyboard row per known pack.
    pub fn create_select_pack(chat_id: i32, packs: Vec<String>) -> (r: OutgoingKeyboardMessage)
        ensures
            r.chat_id == chat_id,
            r.text@ == Messages::CHOOSE_PACK@,
            r.reply_markup matches Some(k) && k.keyboard@.len() == packs@.len() && (forall|i: int|
                0 <= i < packs@.len() ==> (#[trigger] k.keyboard@[i])@.len() == 1
                    && k.keyboard@[i]@[0]@ == packs@[i]@) && k.one_time_keyboard == true,
            r.parse_mode is None,
    {
        let mut rows: Vec<Vec<String>> = Vec::new();
        let mut i: usize = 0;
        while i < packs.len()
            invariant
                0 <= i <= packs@.len(),
                rows@.len() == i,
                forall|j: int|
                    0 <= j < i ==> (#[trigger] rows@[j])@.len() == 1 && rows@[j]@[0]@
                        == packs@[j]@,
            decreases packs@.len() - i,
        {
            let mut row: Vec<String> = Vec::new();
            row.push(packs[i].clone());
            rows.push(row);
            i = i + 1;
        }
        OutgoingKeyboardMessage::with_keyboard(chat_id, Messages::CHOOSE_PACK, rows)
    }

    /// The complaint that no join code was found in the message.
    pub fn no_room_id_in_message(chat_id: i32) -> (r: OutgoingKeyboardMessage)
        ensures
            r.chat_id == chat_id,
            r.text@ == Messages::NO_ROOM_ID_IN_MESSAGE@,
            r.reply_markup is None,
            r.parse_mode is None,
    {
        OutgoingKeyboardMessage::with_text(chat_id, Messages::NO_ROOM_ID_IN_MESSAGE)
    }

    /// The complaint that the join code matches no session.
    pub fn wrong_room_id(chat_id: i32) -> (r: OutgoingKeyboardMessage)
        ensures
            r.chat_id == chat_id,
            r.text@ == Messages::WRONG_ROOM_ID@,
            r.reply_markup is None,
            r.parse_mode is None,
    {
        OutgoingKeyboardMessage::with_text(chat_id, Messages::WRONG_ROOM_ID)
    }

    /// The generic user-visible error.
    pub fn error(chat_id: i32) -> (r: OutgoingKeyboardMessage)
        ensures
            r.chat_id == chat_id,
            r.text@ == Messages::ERROR@,
            r.reply_markup is None,
            r.parse_mode is None,
    {
        OutgoingKeyboardMessage::with_text(chat_id, Messages::ERROR)
    }

    /// The internal-error notice.
    pub fn internal_error(chat_id: i32) -> (r: OutgoingKeyboardMessage)
        ensures
            r.chat_id == chat_id,
            r.text@ == Messages::ERROR_INTERNAL@,
            r.reply_markup is None,
            r.parse_mode is None,
    {
        OutgoingKeyboardMessage::with_text(chat_id, Messages::ERROR_INTERNAL)
    }

    /// The message handing the creator their join code.
    pub fn room_id_message(chat_id: i32, room_id: &String) -> (r: OutgoingKeyboardMessage)
        ensures
            r.chat_id == chat_id,
            r.text@ == Messages::WAITING_FOR_PARTNER@ + "\nID комнаты: "@
                + room_id@,
            r.reply_markup is None,
            r.parse_mode is None,
    {
        let mut text = String::from_str(Messages::WAITING_FOR_PARTNER);
        text.append("\nID комнаты: ");
        text.append(room_id.as_str());
        let r = OutgoingKeyboardMessage {
            chat_id,
            text,
            reply_markup: None,
            parse_mode: None,
        };
        r
    }
}

/// The platform's reply to a send: success flag and the sent message's id.
#[derive(Debug)]
pub struct SentMessageResponse {
    pub ok: bool,
    pub result: Option<SentMessage>,
    pub description: Option<String>,
}

impl SentMessageResponse {
    /// The delivered message's id, or 0 when the platform reported failure.
    pub fn message_id_or_zero(&self) -> (r: i32)
        ensures
            r == (if self.ok && self.result is Some {
                self.result->0.message_id
            } else {
                0
            }),
    {
        if self.ok {
            match &self.result {
                Some(m) => m.message_id,
                None => 0,
            }
        } else {
            0
        }
    }
}

/// A sent message, as echoed back by the platform.
#[derive(Debug)]
pub struct SentMessage {
    pub message_id: i32,
}

/// The acknowledgement of a button press, with an optional toast text.
#[derive(Debug)]
pub struct CallbackQueryAnswer {
    pub callback_query_id: String,
    pub text: Option<String>,
}

impl CallbackQueryAnswer {
    /// Acknowledges the press of rating button `idx` on the axis named by
    /// `typ`: a toast naming the chosen emoji, or none for an out-of-range
    /// button.
    pub fn build(callback_query_id: String, idx: u8, typ: u8) -> (r: CallbackQueryAnswer)
        ensures
            r.callback_query_id == callback_query_id,
            idx < 5 ==> (r.text matches Some(t) && t@ == "Оценка: "@ + spec_emoji(
                typ,
                idx as int,
            )),
            idx >= 5 ==> r.text is None,
    {
        let text = if idx < 5 {
            let mut t = String::from_str("Оценка: ");
            t.append(emoji(typ, idx));
            Some(t)
        } else {
            None
        };
        CallbackQueryAnswer { callback_query_id, text }
    }
}

/// An outbound message carrying an inline (rating) keyboard.
#[derive(Debug)]
pub struct OutgoingInlineKeyboardMessage {
    pub chat_id: i32,
    pub text: String,
    pub reply_markup: Option<InlineKeyboardMarkup>,
}

/// One rating button is well-formed for position `i`: its payload encodes
/// `(i, typ, room_id)` canonically, and its label is the scale's emoji,
/// parenthesised when `i` is the selected value.
pub open spec fn eval_button_ok(
    b: InlineKeyboardButton,
    i: int,
    typ: u8,
    selected: Option<u8>,
    room_id: Seq<char>,
) -> bool {
    &&& b.callback_data@ == json_of(
        CallbackDataV { idx: i as u8, typ: typ, room_id: room_id },
    )
    &&& b.text@ == (if selected matches Some(s) && s as int == i {
        "("@ + spec_emoji(typ, i) + ")"@
    } else {
        spec_emoji(typ, i)
    })
}

/// A full rating row is well-formed: five buttons, one per value.
pub open spec fn eval_row_ok(
    row: Seq<InlineKeyboardButton>,
    typ: u8,
    selected: Option<u8>,
    room_id: Seq<char>,
) -> bool {
    row.len() == 5 && forall|i: int|
        0 <= i < 5 ==> eval_button_ok(#[trigger] row[i], i, typ, selected, room_id)
}

impl OutgoingInlineKeyboardMessage {
    /// Builds the five rating buttons for one axis, marking the selected
    /// value's button with parentheses.
    pub(crate) fn create_eval_keys(typ: u8, selected_key: Option<u8>, room_id: &String) -> (r:
        Vec<InlineKeyboardButton>)
        ensures
            eval_row_ok(r@, typ, selected_key, room_id@),
    {
        let mut r: Vec<InlineKeyboardButton> = Vec::new();
        let mut i: u8 = 0;
        while i < 5
            invariant
                0 <= i <= 5,
                r@.len() == i,
                forall|j: int|
                    0 <= j < i ==> eval_button_ok(
                        #[trigger] r@[j],
                        j,
                        typ,
                        selected_key,
                        room_id@,
                    ),
            decreases 5 - i,
        {
            let d = CallbackData { idx: i, typ, room_id: room_id.clone() };
            let payload = d.to_json();
            let selected = match selected_key {
                Some(s) => s == i,
                None => false,
            };
            let text = if selected {
                let mut t = String::from_str("(");
                t.append(emoji(typ, i));
                t.append(")");
                t
            } else {
                String::from_str(emoji(typ, i))
            };
            r.push(InlineKeyboardButton { text, callback_data: payload });
            i = i + 1;
        }
        r
    }

    /// A message carrying one fresh (nothing selected) rating keyboard.
    pub fn with_eval_keys(chat_id: i32, text: &str, typ: u8, room_id: &String) -> (r:
        OutgoingInlineKeyboardMessage)
        ensures
            r.chat_id == chat_id,
            r.text@ == text@,
            r.reply_markup matches Some(k) && k.inline_keyboard@.len() == 1 && eval_row_ok(
                k.inline_keyboard@[0]@,
                typ,
                None,
                room_id@,
            ),
    {
        let keys = OutgoingInlineKeyboardMessage::create_eval_keys(typ, None, room_id);
        let mut rows: Vec<Vec<InlineKeyboardButton>> = Vec::new();
        rows.push(keys);
        OutgoingInlineKeyboardMessage {
            chat_id,
            text: String::from_str(text),
            reply_markup: Some(InlineKeyboardMarkup { inline_keyboard: rows }),
        }
    }
}

/// An inline keyboard: rows of payload-carrying buttons.
#[derive(Debug)]
pub struct InlineKeyboardMarkup {
    pub inline_keyboard: Vec<Vec<InlineKeyboardButton>>,
}

/// An inbound message.
#[derive(Debug)]
pub struct TgMessage {
    pub message_id: i32,
    pub from: TgUser,
    pub chat: TgChat,
    pub date: i32,
    pub text: Option<String>,
    pub entities: Option<Vec<MessageEntity>>,
}

/// A span annotation on a message, of which only the kind matters here.
#[derive(Debug)]
pub struct MessageEntity {
    pub typ: String,
}

/// One inline-keyboard button.
#[derive(Debug)]
pub struct InlineKeyboardButton {
    pub text: String,
    pub callback_data: String,
}

/// A request to swap the inline keyboard under an already-sent message.
#[derive(Debug)]
pub struct EditedReplyInlineMarkup {
    pub chat_id: i64,
    pub message_id: i32,
    pub reply_markup: Option<InlineKeyboardMarkup>,
}

/// The rating axis a callback discriminant addresses, if it names one.
pub open spec fn spec_axis_of(mt: CallbackMessageType) -> Option<Axis> {
    match mt {
        CallbackMessageType::Importance => Some(Axis::Importance),
        CallbackMessageType::Evaluation => Some(Axis::Evaluation),
        CallbackMessageType::Error => None,
    }
}

impl CallbackData {
    /// Whether `role` currently holds both rating axes in the session.
    pub fn role_has_all_callback_keys(role: Role, room_id: &str, store: &Store) -> (r: bool)
        requires
            store.wf(),
        ensures
            r == (store@.rooms.contains_key(room_id@) && store@.rooms[room_id@].complete(role)),
    {
        match store.get_room(room_id) {
            Some(room) => room.has_all_ratings(role),
            None => false,
        }
    }

    /// Records one rating: writes `value` for `(role, axis)` and reports the
    /// completion edge — true exactly when the role held fewer than both
    /// axes before and holds both after. A value outside 0..=4 is rejected
    /// with `InvalidRatingValue` and nothing is written; a discriminant that
    /// names no axis, or a session that is gone, records nothing and reports
    /// no edge.
    pub fn set_value_for_role(
        role: Role,
        message_type: &CallbackMessageType,
        value: u8,
        room_id: &String,
        store: &mut Store,
    ) -> (r: Result<bool, EngineError>)
        requires
            old(store).wf(),
        ensures
            final(store).wf(),
            r is Err <==> value >= 5,
            r is Err ==> r == Err::<bool, EngineError>(EngineError::InvalidRatingValue)
                && *final(store) == *old(store),
            value < 5 ==> (r matches Ok(edge) && ({
                if old(store)@.rooms.contains_key(room_id@) && spec_axis_of(*message_type)
                    is Some {
                    let axis = spec_axis_of(*message_type)->0;
                    let pre = old(store)@.rooms[room_id@];
                    let post = pre.with_rating(role, axis, value);
                    &&& final(store)@ == (StoreV {
                        rooms: old(store)@.rooms.insert(room_id@, post),
                        ..old(store)@
                    })
                    &&& edge == (!pre.complete(role) && post.complete(role))
                } else {
                    *final(store) == *old(store) && edge == false
                }
            })),
    {
        if value >= 5 {
            return Err(EngineError::InvalidRatingValue);
        }
        let axis = match message_type {
            CallbackMessageType::Importance => Axis::Importance,
            CallbackMessageType::Evaluation => Axis::Evaluation,
            CallbackMessageType::Error => {
                return Ok(false);
            },
        };
        if store.get_room(room_id.as_str()).is_none() {
            return Ok(false);
        }
        let previous_has_all_keys = CallbackData::role_has_all_callback_keys(
            role,
            room_id.as_str(),
            store,
        );
        store.set_room_rating(room_id.as_str(), role, axis, value);
        let new_has_all_keys = CallbackData::role_has_all_callback_keys(
            role,
            room_id.as_str(),
            store,
        );
        Ok(!previous_has_all_keys && new_has_all_keys)
    }
}

/// Whether a button press can record a rating: the participant is in an
/// active phase, holds a role in the named session, and the payload names a
/// real axis and an in-range value.
pub open spec fn rating_applies(s: StoreV, uid: i32, d: CallbackDataV) -> bool {
    &&& s.contexts.contains_key(uid)
    &&& (s.contexts[uid] == Context::InRoom || s.contexts[uid] == Context::WaitingForAnswer)
    &&& spec_role_for(s, uid, d.room_id) is Some
    &&& spec_axis_of(crate::codec::spec_match_type(d.typ)) is Some
    &&& d.idx < 5
}

/// The completion edge of an applying press: the role's first moment of
/// holding both axes for the current question.
pub open spec fn rating_edge(s: StoreV, uid: i32, d: CallbackDataV) -> bool {
    let role = spec_role_for(s, uid, d.room_id)->0;
    let axis = spec_axis_of(crate::codec::spec_match_type(d.typ))->0;
    let pre = s.rooms[d.room_id];
    !pre.complete(role) && pre.with_rating(role, axis, d.idx).complete(role)
}

/// The store after one button press: the rating written when it applies,
/// and on a completion edge the participant moved to the answer-pending
/// phase.
pub open spec fn store_after_callback(s: StoreV, uid: i32, d: CallbackDataV) -> StoreV {
    if rating_applies(s, uid, d) {
        let role = spec_role_for(s, uid, d.room_id)->0;
        let axis = spec_axis_of(crate::codec::spec_match_type(d.typ))->0;
        let pre = s.rooms[d.room_id];
        let s1 = StoreV { rooms: s.rooms.insert(d.room_id, pre.with_rating(role, axis, d.idx)), ..s };
        if rating_edge(s, uid, d) {
            StoreV { contexts: s1.contexts.insert(uid, Context::WaitingForAnswer), ..s1 }
        } else {
            s1
        }
    } else {
        s
    }
}

/// A keyboard-edit effect showing the rating row with `d.idx` selected.
pub open spec fn edit_effect_ok(e: Effect, chat: i64, message_id: i32, d: CallbackDataV) -> bool {
    &&& e matches Effect::EditMarkup(em)
    &&& em.chat_id == chat
    &&& em.message_id == message_id
    &&& (em.reply_markup matches Some(k) && k.inline_keyboard@.len() == 1 && eval_row_ok(
        k.inline_keyboard@[0]@,
        d.typ,
        Some(d.idx),
        d.room_id,
    ))
}

/// The prompt asking a side to signal readiness, with its one-button
/// persistent keyboard.
pub open spec fn ready_prompt_ok(e: Effect, chat: i32) -> bool {
    &&& e matches Effect::SendKeyboard(m)
    &&& m.chat_id == chat
    &&& m.text@ == Messages::READY_FOR_NEXT@
    &&& (m.reply_markup matches Some(k) && k.keyboard@.len() == 1 && k.keyboard@[0]@.len() == 1
        && k.keyboard@[0]@[0]@ == Keys::READY@ && k.one_time_keyboard == false)
    &&& m.parse_mode is None
}

/// The acknowledgement of the press, echoing the chosen emoji.
pub open spec fn answer_effect_ok(e: Effect, id: Seq<char>, d: CallbackDataV) -> bool {
    &&& e matches Effect::AnswerCallback(a)
    &&& a.callback_query_id@ == id
    &&& (d.idx < 5 ==> (a.text matches Some(t) && t@ == "Оценка: "@ + spec_emoji(
        d.typ,
        d.idx as int,
    )))
    &&& (d.idx >= 5 ==> a.text is None)
}

/// The outcome of a successful button press by `user_id` with payload `d`:
/// the store moves as `store_after_callback` says, the keyboard edit and
/// the acknowledgement are always emitted while the participant is in an
/// active phase, and the readiness prompt exactly on the completion edge.
pub open spec fn callback_ok_outcome(
    s: StoreV,
    post: StoreV,
    es: Seq<Effect>,
    id: Seq<char>,
    user_id: i64,
    message_id: i32,
    d: CallbackDataV,
) -> bool {
    let uid = user_id as i32;
    let ctx = s.contexts[uid];
    let active = ctx == Context::InRoom || ctx == Context::WaitingForAnswer;
    let edge = rating_applies(s, uid, d) && rating_edge(s, uid, d);
    &&& post == (if active {
        store_after_callback(s, uid, d)
    } else {
        s
    })
    &&& (if active && edge {
        es.len() == 3 && edit_effect_ok(es[0], user_id, message_id, d) && ready_prompt_ok(
            es[1],
            uid,
        ) && answer_effect_ok(es[2], id, d)
    } else if active {
        es.len() == 2 && edit_effect_ok(es[0], user_id, message_id, d) && answer_effect_ok(
            es[1],
            id,
            d,
        )
    } else {
        es.len() == 1 && answer_effect_ok(es[0], id, d)
    })
}

impl CallbackData {
    /// Handles one rating-button press: records the rating when the press
    /// applies, redraws the keyboard with the pressed value selected, asks
    /// the side to signal readiness on its completion edge, and always
    /// acknowledges the press. Fails only when the participant has no
    /// conversational phase at all.
    pub fn handle_callback(
        &self,
        id: &String,
        user_id: i64,
        message_id: i32,
        store: &mut Store,
    ) -> (r: Result<Vec<Effect>, EngineError>)
        requires
            old(store).wf(),
        ensures
            final(store).wf(),
            r is Err <==> !old(store)@.contexts.contains_key(user_id as i32),
            r is Err ==> r == Err::<Vec<Effect>, EngineError>(EngineError::MissingData)
                && *final(store) == *old(store),
            r matches Ok(es) ==> callback_ok_outcome(
                old(store)@,
                final(store)@,
                es@,
                id@,
                user_id,
                message_id,
                self@,
            ),
    {
        #[verifier::truncate]
        let uid = user_id as i32;
        let context = match Context::get(uid, store) {
            Some(c) => c,
            None => {
                return Err(EngineError::MissingData);
            },
        };
        let mut es: Vec<Effect> = Vec::new();
        if context == Context::InRoom || context == Context::WaitingForAnswer {
            let user_role = Room::get_role_for_user(uid, self.room_id.as_str(), store);
            let message_type = self.match_type();
            let send_next_question_keys = match user_role {
                Some(role) => {
                    match CallbackData::set_value_for_role(
                        role,
                        &message_type,
                        self.idx,
                        &self.room_id,
                        store,
                    ) {
                        Ok(edge) => edge,
                        Err(_) => false,
                    }
                },
                None => false,
            };
            let inline_keyboard = OutgoingInlineKeyboardMessage::create_eval_keys(
                self.typ,
                Some(self.idx),
                &self.room_id,
            );
            let mut rows: Vec<Vec<InlineKeyboardButton>> = Vec::new();
            rows.push(inline_keyboard);
            es.push(
                Effect::EditMarkup(
                    EditedReplyInlineMarkup {
                        chat_id: user_id,
                        message_id,
                        reply_markup: Some(InlineKeyboardMarkup { inline_keyboard: rows }),
                    },
                ),
            );
            if send_next_question_keys {
                Context::set_context(uid, Context::WaitingForAnswer, store);
                let mut ready_row: Vec<String> = Vec::new();
                ready_row.push(String::from_str(Keys::READY));
                let mut ready_keyboard: Vec<Vec<String>> = Vec::new();
                ready_keyboard.push(ready_row);
                let is_ready_for_next_msg = OutgoingKeyboardMessage {
                    chat_id: uid,
                    text: String::from_str(Messages::READY_FOR_NEXT),
                    reply_markup: Some(
                        ReplyKeyboardMarkup {
                            keyboard: ready_keyboard,
                            one_time_keyboard: false,
                        },
                    ),
                    parse_mode: None,
                };
                es.push(Effect::SendKeyboard(is_ready_for_next_msg));
            }
        }
        es.push(Effect::AnswerCallback(CallbackQueryAnswer::build(id.clone(), self.idx, self.typ)));
        Ok(es)
    }
}

/// One inbound update: at most one of its optional payloads is acted on.
#[derive(Debug)]
pub struct TgUpdate {
    pub update_id: i32,
    pub message: Option<TgMessage>,
    pub edited_message: Option<TgMessage>,
    pub inline_query: Option<InlineQuery>,
    pub callback_query: Option<CallbackQuery>,
}

/// The text carried by an inbound message, if any.
pub open spec fn spec_msg_text(message: Option<TgMessage>) -> Option<Seq<char>> {
    match message {
        Some(m) => match m.text {
            Some(t) => Some(t@),
            None => None,
        },
        None => None,
    }
}

/// Whether `p` is a prefix of `s`.
pub open spec fn spec_starts_with(s: Seq<char>, p: Seq<char>) -> bool {
    p.len() <= s.len() && s.subrange(0, p.len() as int) == p
}

/// The decision taken for a button-press update: a `Callback` when the
/// press carries its message and a canonical payload, else the error
/// decision. The store is never touched here.
pub open spec fn callback_decision(
    q: CallbackQuery,
    r: Result<UpdateType, EngineError>,
) -> bool {
    if q.message is Some && q.data is Some && crate::codec::is_canonical_json(q.data->0@) {
        match r {
            Ok(u) => u matches UpdateType::Callback(chat, mid, d, qid) && chat
                == q.message->0.chat.id && mid == q.message->0.message_id && json_of(d@)
                == q.data->0@ && crate::codec::clean(d@) && qid@ == q.id@,
            Err(_) => false,
        }
    } else {
        r == Ok::<UpdateType, EngineError>(UpdateType::Error)
    }
}

impl TgUpdate {
    /// Whether the message is annotated as a bot command.
    pub open spec fn spec_has_bot_command(self) -> bool {
        match self.message {
            Some(m) => match m.entities {
                Some(es) => exists|i: int|
                    0 <= i < es@.len() && (#[trigger] es@[i]).typ@ == "bot_command"@,
                None => false,
            },
            None => false,
        }
    }

    /// The sender of the update's message, if it has one.
    pub open spec fn spec_user(self) -> Option<i32> {
        match self.message {
            Some(m) => Some(m.from.id),
            None => None,
        }
    }

    #[verifier::loop_isolation(false)]
    fn has_bot_command(&self) -> (r: bool)
        ensures
            r == self.spec_has_bot_command(),
    {
        match &self.message {
            Some(m) => match &m.entities {
                Some(es) => {
                    let mut i: usize = 0;
                    while i < es.len()
                        invariant
                            0 <= i <= es@.len(),
                            forall|j: int| 0 <= j < i ==> (#[trigger] es@[j]).typ@ != "bot_command"@,
                        decreases es@.len() - i,
                    {
                        if str_eq(es[i].typ.as_str(), "bot_command") {
                            proof {
                                assert(self.message->0.entities->0@ == es@);
                                assert((#[trigger] es@[i as int]).typ@ == "bot_command"@);
                                assert(exists|j: int|
                                    0 <= j < es@.len() && (#[trigger] es@[j]).typ@
                                        == "bot_command"@);
                            }
                            return true;
                        }
                        i = i + 1;
                    }
                    false
                },
                None => false,
            },
            None => false,
        }
    }

    /// Decides what an inbound update asks for, consulting the sender's
    /// conversational phase for plain text. A `/start` command also resets
    /// the sender's phase and pointer; nothing else moves the store. Fails
    /// only when plain text arrives from a participant who has no phase.
    pub fn handle_message_type(&self, store: &mut Store) -> (r: Result<UpdateType, EngineError>)
        requires
            old(store).wf(),
        ensures
            final(store).wf(),
            self.callback_query matches Some(q) ==> callback_decision(q, r) && *final(store)
                == *old(store),
            self.callback_query is None && self.spec_has_bot_command() ==> ({
                match spec_msg_text(self.message) {
                    Some(t) => {
                        let uid = self.spec_user()->0;
                        if spec_starts_with(t, "/start"@) {
                            r == Ok::<UpdateType, EngineError>(UpdateType::Start)
                                && final(store)@ == (StoreV {
                                contexts: old(store)@.contexts.remove(uid),
                                pointers: old(store)@.pointers.remove(uid),
                                ..old(store)@
                            })
                        } else if spec_starts_with(t, "/help"@) {
                            r == Ok::<UpdateType, EngineError>(UpdateType::Help) && *final(store)
                                == *old(store)
                        } else {
                            r == Ok::<UpdateType, EngineError>(UpdateType::UnknownCommand)
                                && *final(store) == *old(store)
                        }
                    },
                    None => r == Ok::<UpdateType, EngineError>(UpdateType::Error) && *final(store)
                        == *old(store),
                }
            }),
            self.callback_query is None && !self.spec_has_bot_command() ==> *final(store) == *old(
                store,
            ) && ({
                let text = spec_msg_text(self.message);
                if text == Some(Keys::JOIN@) {
                    r == Ok::<UpdateType, EngineError>(UpdateType::JoinExisting)
                } else if text == Some(Keys::CREATE@) {
                    r == Ok::<UpdateType, EngineError>(UpdateType::Create)
                } else {
                    match self.spec_user() {
                        Some(uid) => {
                            if !old(store)@.contexts.contains_key(uid) {
                                r == Err::<UpdateType, EngineError>(EngineError::MissingData)
                            } else {
                                match old(store)@.contexts[uid] {
                                    Context::SelectPack => r == Ok::<UpdateType, EngineError>(
                                        UpdateType::NewRoom,
                                    ),
                                    Context::InsertId => r == Ok::<UpdateType, EngineError>(
                                        UpdateType::InsertId,
                                    ),
                                    Context::WaitingForAnswer => {
                                        if text == Some(Keys::READY@) {
                                            r == Ok::<UpdateType, EngineError>(
                                                UpdateType::WaitingForOther,
                                            )
                                        } else {
                                            r == Ok::<UpdateType, EngineError>(UpdateType::Error)
                                        }
                                    },
                                    Context::WaitingForResults => r == Ok::<
                                        UpdateType,
                                        EngineError,
                                    >(UpdateType::WaitingForResults),
                                    _ => r == Ok::<UpdateType, EngineError>(UpdateType::Error),
                                }
                            }
                        },
                        None => r == Ok::<UpdateType, EngineError>(UpdateType::Other),
                    }
                }
            }),
    {
        if let Some(query) = &self.callback_query {
            let data = match &query.data {
                Some(d) => CallbackData::parse(d.as_str()),
                None => None,
            };
            let r = match (&query.message, data) {
                (Some(m), Some(d)) => Ok(
                    UpdateType::Callback(m.chat.id, m.message_id, d, query.id.clone()),
                ),
                _ => Ok(UpdateType::Error),
            };
            return r;
        }
        if self.has_bot_command() {
            let (uid, text) = match &self.message {
                Some(m) => match &m.text {
                    Some(t) => (m.from.id, t),
                    None => {
                        return Ok(UpdateType::Error);
                    },
                },
                None => {
                    return Ok(UpdateType::Error);
                },
            };
            return Ok(TgUpdate::handle_bot_command(uid, text, store));
        }
        let message_text = match &self.message {
            Some(m) => match &m.text {
                Some(t) => Some(t),
                None => None,
            },
            None => None,
        };
        if let Some(t) = message_text {
            if str_eq(t.as_str(), Keys::JOIN) {
                return Ok(UpdateType::JoinExisting);
            }
            if str_eq(t.as_str(), Keys::CREATE) {
                return Ok(UpdateType::Create);
            }
        }
        let uid = match &self.message {
            Some(m) => m.from.id,
            None => {
                return Ok(UpdateType::Other);
            },
        };
        let context = match Context::get(uid, store) {
            Some(c) => c,
            None => {
                return Err(EngineError::MissingData);
            },
        };
        match context {
            Context::SelectPack => Ok(UpdateType::NewRoom),
            Context::InsertId => Ok(UpdateType::InsertId),
            Context::WaitingForAnswer => {
                let is_ready = match message_text {
                    Some(t) => str_eq(t.as_str(), Keys::READY),
                    None => false,
                };
                if is_ready {
                    Ok(UpdateType::WaitingForOther)
                } else {
                    Ok(UpdateType::Error)
                }
            },
            Context::WaitingForResults => Ok(UpdateType::WaitingForResults),
            _ => Ok(UpdateType::Error),
        }
    }

    /// Handles a slash command: `/start` resets the sender's phase and
    /// pointer, `/help` asks for the help text, anything else is unknown.
    pub(crate) fn handle_bot_command(
        user_id: i32,
        message_text: &String,
        store: &mut Store,
    ) -> (r: UpdateType)
        requires
            old(store).wf(),
        ensures
            final(store).wf(),
            spec_starts_with(message_text@, "/start"@) ==> r is Start && final(store)@ == (StoreV {
                contexts: old(store)@.contexts.remove(user_id),
                pointers: old(store)@.pointers.remove(user_id),
                ..old(store)@
            }),
            !spec_starts_with(message_text@, "/start"@) ==> *final(store) == *old(store) && (
            if spec_starts_with(message_text@, "/help"@) {
                r is Help
            } else {
                r is UnknownCommand
            }),
    {
        proof {
            reveal_strlit("/start");
            reveal_strlit("/help");
        }
        if crate::codec::has_at(message_text.as_str(), 0, "/start") {
            Context::reset(user_id, store);
            store.remove_pointer(user_id);
            UpdateType::Start
        } else if crate::codec::has_at(message_text.as_str(), 0, "/help") {
            UpdateType::Help
        } else {
            UpdateType::UnknownCommand
        }
    }
}

} // verus!
