use room_bot::codec::CallbackData;
use room_bot::constants::Messages;
use room_bot::handlers::{handle_update, Handlers};
use room_bot::messages::Effect;
use room_bot::helpers::UpdateType;
use room_bot::room::{Context, EngineError, Pack, Role};
use room_bot::store::Store;
use room_bot::structures::{
    CallbackQuery, MessageEntity, TgChat, TgMessage, TgUpdate, TgUser,
};

fn text_message(user_id: i32, text: Option<&str>, entities: Option<Vec<&str>>) -> TgMessage {
    TgMessage {
        message_id: 5,
        from: TgUser { id: user_id, first_name: String::from("x"), last_name: None },
        chat: TgChat { id: user_id as i64 },
        date: 0,
        text: text.map(String::from),
        entities: entities.map(|es| {
            es.into_iter().map(|t| MessageEntity { typ: String::from(t) }).collect()
        }),
    }
}

fn update_with(message: Option<TgMessage>, callback_query: Option<CallbackQuery>) -> TgUpdate {
    TgUpdate { update_id: 1, message, edited_message: None, inline_query: None, callback_query }
}

fn plain_update(user_id: i32, text: &str) -> TgUpdate {
    update_with(Some(text_message(user_id, Some(text), None)), None)
}

#[test]
fn entry_buttons_are_recognised_without_any_context() {
    let mut store = Store::new();
    let r = plain_update(1, "🎟Вступить").handle_message_type(&mut store).unwrap();
    assert!(matches!(r, UpdateType::JoinExisting));
    let r = plain_update(1, "🧩Сoздать").handle_message_type(&mut store).unwrap();
    assert!(matches!(r, UpdateType::Create));
}

#[test]
fn plain_text_is_routed_by_conversational_phase() {
    let mut store = Store::new();
    store.add_pack(Pack { name: String::from("p"), prompts: vec![String::from("q")] });

    // no phase at all: the internal-error path
    assert_eq!(
        plain_update(1, "hello").handle_message_type(&mut store).map(|_| ()),
        Err(EngineError::MissingData)
    );

    Handlers::create(1, &mut store);
    let r = plain_update(1, "p").handle_message_type(&mut store).unwrap();
    assert!(matches!(r, UpdateType::NewRoom));

    Handlers::join_existing(2, &mut store);
    let r = plain_update(2, "whatever").handle_message_type(&mut store).unwrap();
    assert!(matches!(r, UpdateType::InsertId));
}

#[test]
fn ready_is_only_meaningful_while_waiting_for_answer() {
    let mut store = Store::new();
    // a participant waiting to answer says ready
    set_context_via_flow(&mut store);
    let r = plain_update(10, "Готов!").handle_message_type(&mut store).unwrap();
    assert!(matches!(r, UpdateType::WaitingForOther));
    let r = plain_update(10, "other text").handle_message_type(&mut store).unwrap();
    assert!(matches!(r, UpdateType::Error));
}

/// Walks participant 10 into the answer-pending phase through the public flow.
fn set_context_via_flow(store: &mut Store) {
    store.add_pack(Pack { name: String::from("p"), prompts: vec![String::from("q")] });
    Handlers::create(10, store);
    let reply = Handlers::new_room(10, &Some(text_message(10, Some("p"), None)), 1, store)
        .unwrap()
        .unwrap();
    let chars: Vec<char> = reply.text.chars().collect();
    let code: String = chars[chars.len() - 16..].iter().collect();
    Handlers::insert_id(11, &Some(text_message(11, Some(&code), None)), store).unwrap();
    let d = CallbackData { idx: 1, typ: 1, room_id: code.clone() };
    d.handle_callback(&String::from("c"), 10, 1, store).unwrap();
    let d = CallbackData { idx: 1, typ: 2, room_id: code };
    d.handle_callback(&String::from("c"), 10, 1, store).unwrap();
    assert_eq!(Context::get(10, store), Some(Context::WaitingForAnswer));
}

#[test]
fn start_command_resets_phase_and_pointer() {
    let mut store = Store::new();
    set_context_via_flow(&mut store);
    assert!(store.get_pointer(10).is_some());

    let upd = update_with(
        Some(text_message(10, Some("/start"), Some(vec!["bot_command"]))),
        None,
    );
    let r = upd.handle_message_type(&mut store).unwrap();
    assert!(matches!(r, UpdateType::Start));
    assert_eq!(Context::get(10, &store), None);
    assert!(store.get_pointer(10).is_none());
    // the session itself survives a reset
    assert!(store.get_pointer(11).is_some());
}

#[test]
fn help_and_unknown_commands_touch_nothing() {
    let mut store = Store::new();
    Handlers::join_existing(4, &mut store);

    let upd = update_with(
        Some(text_message(4, Some("/help"), Some(vec!["bot_command"]))),
        None,
    );
    assert!(matches!(upd.handle_message_type(&mut store).unwrap(), UpdateType::Help));

    let upd = update_with(
        Some(text_message(4, Some("/frobnicate"), Some(vec!["bot_command"]))),
        None,
    );
    assert!(matches!(
        upd.handle_message_type(&mut store).unwrap(),
        UpdateType::UnknownCommand
    ));
    assert_eq!(Context::get(4, &store), Some(Context::InsertId));
}

#[test]
fn callback_updates_decode_their_payload() {
    let mut store = Store::new();
    let payload = CallbackData { idx: 2, typ: 1, room_id: String::from("RoomCode12345678") };
    let wire = payload.to_json();
    let upd = update_with(
        None,
        Some(CallbackQuery {
            id: String::from("cb77"),
            message: Some(text_message(6, None, None)),
            data: Some(wire),
        }),
    );
    match upd.handle_message_type(&mut store).unwrap() {
        UpdateType::Callback(chat_id, message_id, d, qid) => {
            assert_eq!(chat_id, 6);
            assert_eq!(message_id, 5);
            assert_eq!(d.idx, 2);
            assert_eq!(d.typ, 1);
            assert_eq!(d.room_id, "RoomCode12345678");
            assert_eq!(qid, "cb77");
        }
        other => panic!("expected a callback decision, got {:?}", other),
    }

    // malformed payloads fall to the error decision
    let upd = update_with(
        None,
        Some(CallbackQuery {
            id: String::from("cb78"),
            message: Some(text_message(6, None, None)),
            data: Some(String::from("not json")),
        }),
    );
    assert!(matches!(upd.handle_message_type(&mut store).unwrap(), UpdateType::Error));
}

#[test]
fn updates_without_a_message_are_ignored() {
    let mut store = Store::new();
    let upd = update_with(None, None);
    assert!(matches!(upd.handle_message_type(&mut store).unwrap(), UpdateType::Other));
}

fn callback_update(user_id: i32, idx: u8, typ: u8, code: &str) -> TgUpdate {
    let payload = CallbackData { idx, typ, room_id: String::from(code) };
    update_with(
        None,
        Some(CallbackQuery {
            id: String::from("press"),
            message: Some(text_message(user_id, None, None)),
            data: Some(payload.to_json()),
        }),
    )
}

#[test]
fn handle_update_walks_a_whole_session() {
    let mut store = Store::new();
    store.add_pack(Pack { name: String::from("deep"), prompts: vec![String::from("why?")] });

    // the creator walks the create flow
    let (reply, es) = handle_update(&plain_update(1, "🧩Сoздать"), 10, &mut store).unwrap();
    assert_eq!(reply.unwrap().text, Messages::CHOOSE_PACK);
    assert!(es.is_empty());
    let (reply, es) = handle_update(&plain_update(1, "deep"), 11, &mut store).unwrap();
    assert!(es.is_empty());
    let text = reply.unwrap().text;
    let chars: Vec<char> = text.chars().collect();
    let code: String = chars[chars.len() - 16..].iter().collect();

    // the visitor joins
    let (reply, es) = handle_update(&plain_update(2, "🎟Вступить"), 12, &mut store).unwrap();
    assert_eq!(reply.unwrap().text, Messages::INSERT_ROOM_ID);
    assert!(es.is_empty());
    let (reply, es) = handle_update(&plain_update(2, &code), 13, &mut store).unwrap();
    assert!(reply.is_none());
    assert_eq!(es.len(), 6);

    // both sides rate both axes and signal ready
    for user in [1, 2] {
        let (reply, es) = handle_update(&callback_update(user, 3, 1, &code), 14, &mut store)
            .unwrap();
        assert!(reply.is_none());
        assert_eq!(es.len(), 2);
        let (reply, es) = handle_update(&callback_update(user, 1, 2, &code), 15, &mut store)
            .unwrap();
        assert!(reply.is_none());
        assert_eq!(es.len(), 3);
        assert_eq!(Context::get(user, &store), Some(Context::WaitingForAnswer));
    }
    let (reply, es) = handle_update(&plain_update(1, "Готов!"), 16, &mut store).unwrap();
    assert_eq!(reply.unwrap().text, Messages::WAITING_FOR_PARTNER_EVAL);
    assert!(es.is_empty());
    let (reply, es) = handle_update(&plain_update(2, "Готов!"), 17, &mut store).unwrap();
    assert!(reply.is_none());
    assert_eq!(es.len(), 4);
    assert!(matches!(&es[0], Effect::RecordRound(_)));
    assert!(matches!(&es[3], Effect::FetchAndDeliverReport(_)));
    assert!(store.get_room(&code).is_none());

    // afterwards the code names nothing
    handle_update(&plain_update(2, "🎟Вступить"), 18, &mut store).unwrap();
    let (reply, es) = handle_update(&plain_update(2, &code), 19, &mut store).unwrap();
    assert_eq!(reply.unwrap().text, Messages::WRONG_ROOM_ID);
    assert!(es.is_empty());
}

#[test]
fn handle_update_serves_start_and_help() {
    let mut store = Store::new();
    Handlers::join_existing(4, &mut store);

    let upd = update_with(
        Some(text_message(4, Some("/start"), Some(vec!["bot_command"]))),
        None,
    );
    let (reply, es) = handle_update(&upd, 1, &mut store).unwrap();
    assert_eq!(reply.unwrap().text, Messages::WELCOME);
    assert!(es.is_empty());
    assert_eq!(Context::get(4, &store), None);

    let upd = update_with(
        Some(text_message(4, Some("/help"), Some(vec!["bot_command"]))),
        None,
    );
    let (reply, _) = handle_update(&upd, 1, &mut store).unwrap();
    assert_eq!(reply.unwrap().text, Messages::HELP);
}

#[test]
fn roles_are_readable_through_pointers() {
    let mut store = Store::new();
    set_context_via_flow(&mut store);
    assert_eq!(Role::get(10, &store), Some(Role::Creator));
    assert_eq!(Role::get(11, &store), Some(Role::Visitor));
    assert_eq!(Role::get(12, &store), None);
    assert_eq!(Role::Creator.opposite(), Role::Visitor);
    assert_eq!(Role::Visitor.opposite(), Role::Creator);
}
