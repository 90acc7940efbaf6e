use room_bot::constants::Messages;
use room_bot::codec::CallbackData;
use room_bot::handlers::Handlers;
use room_bot::messages::Effect;
use room_bot::room::{Context, EngineError, Pack, Role, Room, UserRoom};
use room_bot::store::Store;
use room_bot::structures::{TgChat, TgMessage, TgUser};

fn store_with_pack(name: &str, prompts: &[&str]) -> Store {
    let mut store = Store::new();
    let pack = Pack {
        name: String::from(name),
        prompts: prompts.iter().map(|p| String::from(*p)).collect(),
    };
    assert!(store.add_pack(pack));
    store
}

fn msg_from(user_id: i32, text: &str) -> Option<TgMessage> {
    Some(TgMessage {
        message_id: 1,
        from: TgUser { id: user_id, first_name: String::from("x"), last_name: None },
        chat: TgChat { id: user_id as i64 },
        date: 0,
        text: Some(String::from(text)),
        entities: None,
    })
}

/// Creates a room for `creator` with `pack` and returns the join code.
fn create_room(creator: i32, pack: &str, store: &mut Store) -> String {
    Handlers::create(creator, store);
    let reply = Handlers::new_room(creator, &msg_from(creator, pack), 100, store)
        .expect("creation should not fail")
        .expect("creation should answer");
    let text = reply.text;
    let chars: Vec<char> = text.chars().collect();
    assert!(chars.len() > 16);
    let code: String = chars[chars.len() - 16..].iter().collect();
    assert_eq!(code.chars().count(), 16);
    assert!(code.chars().all(|c| c.is_ascii_alphanumeric()));
    code
}

fn rate(user: i32, code: &str, typ: u8, value: u8, store: &mut Store) -> Vec<Effect> {
    let d = CallbackData { idx: value, typ, room_id: String::from(code) };
    d.handle_callback(&String::from("cb"), user as i64, 7, store)
        .expect("callback handling should not fail")
}

#[test]
fn create_and_join_delivers_first_prompt_to_both() {
    let mut store = store_with_pack("icebreakers", &["first?", "second?"]);
    let code = create_room(1, "icebreakers", &mut store);
    assert_eq!(Context::get(1, &store), Some(Context::WaitingForPartner));

    let (reply, effects) = Handlers::insert_id(2, &msg_from(2, &code), &mut store).unwrap();
    assert!(reply.is_none());
    assert_eq!(effects.len(), 6);
    for (i, chat) in [(0usize, 1i32), (3, 2)] {
        match &effects[i] {
            Effect::SendKeyboard(m) => {
                assert_eq!(m.chat_id, chat);
                assert_eq!(m.text, "<b>📒Вопрос 1 из 2:</b>\nfirst?");
                assert_eq!(m.parse_mode.as_deref(), Some("HTML"));
            }
            other => panic!("expected the prompt send, got {:?}", other),
        }
    }
    assert_eq!(Context::get(1, &store), Some(Context::InRoom));
    assert_eq!(Context::get(2, &store), Some(Context::InRoom));
    let room = store.get_room(&code).expect("room must exist");
    assert_eq!(room.creator_id, 1);
    assert_eq!(room.visitor_id, Some(2));
    assert_eq!(room.idx, 0);
}

#[test]
fn rating_both_axes_moves_to_waiting_and_single_ready_does_not_advance() {
    let mut store = store_with_pack("icebreakers", &["first?", "second?"]);
    let code = create_room(1, "icebreakers", &mut store);
    Handlers::insert_id(2, &msg_from(2, &code), &mut store).unwrap();

    // importance=3: no edge yet
    let es = rate(1, &code, 1, 3, &mut store);
    assert_eq!(es.len(), 2);
    assert_eq!(Context::get(1, &store), Some(Context::InRoom));

    // evaluation=1: completes the pair
    let es = rate(1, &code, 2, 1, &mut store);
    assert_eq!(es.len(), 3);
    match &es[1] {
        Effect::SendKeyboard(m) => {
            assert_eq!(m.text, Messages::READY_FOR_NEXT);
            let kb = m.reply_markup.as_ref().unwrap();
            assert_eq!(kb.keyboard, vec![vec![String::from("Готов!")]]);
            assert!(!kb.one_time_keyboard);
        }
        other => panic!("expected the ready prompt, got {:?}", other),
    }
    assert_eq!(Context::get(1, &store), Some(Context::WaitingForAnswer));
    let room = store.get_room(&code).unwrap();
    assert_eq!(room.creator_importance, Some(3));
    assert_eq!(room.creator_evaluation, Some(1));

    // ready before the partner finished: wait notice, index unchanged
    let (reply, effects) = Handlers::waiting_for_answer(1, 200, &mut store).unwrap();
    assert_eq!(reply.unwrap().text, Messages::WAITING_FOR_PARTNER_EVAL);
    assert!(effects.is_empty());
    let room = store.get_room(&code).unwrap();
    assert_eq!(room.idx, 0);
    assert_eq!(room.creator_ready_at, Some(200));
    assert_eq!(Context::get(1, &store), Some(Context::WaitingForAnswer));
}

#[test]
fn both_ready_advances_by_one_and_clears_fields() {
    let mut store = store_with_pack("icebreakers", &["first?", "second?"]);
    let code = create_room(1, "icebreakers", &mut store);
    Handlers::insert_id(2, &msg_from(2, &code), &mut store).unwrap();
    rate(1, &code, 1, 3, &mut store);
    rate(1, &code, 2, 1, &mut store);
    Handlers::waiting_for_answer(1, 200, &mut store).unwrap();
    rate(2, &code, 1, 4, &mut store);
    rate(2, &code, 2, 0, &mut store);

    let (reply, effects) = Handlers::waiting_for_answer(2, 300, &mut store).unwrap();
    assert!(reply.is_none());
    assert_eq!(effects.len(), 7);
    match &effects[0] {
        Effect::RecordRound(s) => {
            assert_eq!(s.room_id, code);
            assert_eq!(s.creator_id, 1);
            assert_eq!(s.visitor_id, 2);
            assert_eq!(s.idx, 0);
            assert_eq!(s.creator_importance, 3);
            assert_eq!(s.creator_evaluation, 1);
            assert_eq!(s.visitor_importance, 4);
            assert_eq!(s.visitor_evaluation, 0);
            assert_eq!(s.creator_ready_at, 200);
            assert_eq!(s.visitor_ready_at, 300);
        }
        other => panic!("expected the analytics row, got {:?}", other),
    }
    match &effects[1] {
        Effect::SendKeyboard(m) => {
            assert_eq!(m.text, "<b>📒Вопрос 2 из 2:</b>\nsecond?");
        }
        other => panic!("expected the next prompt, got {:?}", other),
    }
    let room = store.get_room(&code).unwrap();
    assert_eq!(room.idx, 1);
    assert_eq!(room.creator_importance, None);
    assert_eq!(room.creator_evaluation, None);
    assert_eq!(room.visitor_importance, None);
    assert_eq!(room.visitor_evaluation, None);
    assert_eq!(room.creator_ready_at, None);
    assert_eq!(room.visitor_ready_at, None);
    assert_eq!(Context::get(1, &store), Some(Context::InRoom));
    assert_eq!(Context::get(2, &store), Some(Context::InRoom));
}

#[test]
fn exhausted_pack_finishes_and_tears_down() {
    let mut store = store_with_pack("solo", &["only?"]);
    let code = create_room(1, "solo", &mut store);
    Handlers::insert_id(2, &msg_from(2, &code), &mut store).unwrap();
    rate(1, &code, 1, 2, &mut store);
    rate(1, &code, 2, 2, &mut store);
    Handlers::waiting_for_answer(1, 200, &mut store).unwrap();
    rate(2, &code, 1, 2, &mut store);
    rate(2, &code, 2, 2, &mut store);

    let (reply, effects) = Handlers::waiting_for_answer(2, 300, &mut store).unwrap();
    assert!(reply.is_none());
    assert_eq!(effects.len(), 4);
    match &effects[1] {
        Effect::SendKeyboard(m) => {
            assert_eq!(m.chat_id, 1);
            assert_eq!(m.text, Messages::EVALUATING_RESULTS);
        }
        other => panic!("expected the evaluating notice, got {:?}", other),
    }
    match &effects[3] {
        Effect::FetchAndDeliverReport(rq) => {
            assert_eq!(rq.room_id, code);
            assert_eq!(rq.user_a, 1);
            assert_eq!(rq.role_a, Role::Creator);
            assert_eq!(rq.user_b, 2);
            assert_eq!(rq.role_b, Role::Visitor);
        }
        other => panic!("expected the report request, got {:?}", other),
    }
    assert!(store.get_room(&code).is_none());
    assert!(store.get_pointer(1).is_none());
    assert!(store.get_pointer(2).is_none());
    assert_eq!(Context::get(1, &store), None);
    assert_eq!(Context::get(2, &store), None);

    // the join code is unusable afterwards
    let (reply, effects) = Handlers::insert_id(2, &msg_from(2, &code), &mut store).unwrap();
    assert_eq!(reply.unwrap().text, Messages::WRONG_ROOM_ID);
    assert!(effects.is_empty());
}

#[test]
fn visitor_rejoin_resends_current_prompt_without_occupancy_change() {
    let mut store = store_with_pack("icebreakers", &["first?", "second?"]);
    let code = create_room(1, "icebreakers", &mut store);
    Handlers::insert_id(2, &msg_from(2, &code), &mut store).unwrap();

    let (reply, effects) = Handlers::insert_id(2, &msg_from(2, &code), &mut store).unwrap();
    assert!(reply.is_none());
    assert_eq!(effects.len(), 3);
    match &effects[0] {
        Effect::SendKeyboard(m) => {
            assert_eq!(m.chat_id, 2);
            assert_eq!(m.text, "<b>📒Вопрос 1 из 2:</b>\nfirst?");
        }
        other => panic!("expected the re-sent prompt, got {:?}", other),
    }
    let room = store.get_room(&code).unwrap();
    assert_eq!(room.creator_id, 1);
    assert_eq!(room.visitor_id, Some(2));
    let pointer = store.get_pointer(2).unwrap();
    assert_eq!(pointer.id, code);
    assert_eq!(pointer.role, Role::Visitor);
}

#[test]
fn creator_rejoin_resends_current_prompt() {
    let mut store = store_with_pack("icebreakers", &["first?", "second?"]);
    let code = create_room(1, "icebreakers", &mut store);
    Handlers::insert_id(2, &msg_from(2, &code), &mut store).unwrap();

    let (reply, effects) = Handlers::insert_id(1, &msg_from(1, &code), &mut store).unwrap();
    assert!(reply.is_none());
    assert_eq!(effects.len(), 3);
    let room = store.get_room(&code).unwrap();
    assert_eq!(room.creator_id, 1);
    assert_eq!(room.visitor_id, Some(2));
    assert_eq!(store.get_pointer(1).unwrap().role, Role::Creator);
}

#[test]
fn unknown_code_keeps_context_and_session_untouched() {
    let mut store = store_with_pack("icebreakers", &["first?"]);
    let reply = Handlers::join_existing(3, &mut store).unwrap();
    assert_eq!(reply.text, Messages::INSERT_ROOM_ID);
    assert_eq!(Context::get(3, &store), Some(Context::InsertId));

    let (reply, effects) = Handlers::insert_id(3, &msg_from(3, "AAAAAAAAAAAAAAAA"), &mut store)
        .unwrap();
    assert_eq!(reply.unwrap().text, Messages::WRONG_ROOM_ID);
    assert!(effects.is_empty());
    assert_eq!(Context::get(3, &store), Some(Context::InsertId));
}

#[test]
fn full_room_join_by_stranger_is_silently_ignored() {
    let mut store = store_with_pack("icebreakers", &["first?"]);
    let code = create_room(1, "icebreakers", &mut store);
    Handlers::insert_id(2, &msg_from(2, &code), &mut store).unwrap();

    let (reply, effects) = Handlers::insert_id(9, &msg_from(9, &code), &mut store).unwrap();
    assert!(reply.is_none());
    assert!(effects.is_empty());
    let room = store.get_room(&code).unwrap();
    assert_eq!(room.creator_id, 1);
    assert_eq!(room.visitor_id, Some(2));
}

#[test]
fn out_of_range_rating_mutates_nothing() {
    let mut store = store_with_pack("icebreakers", &["first?"]);
    let code = create_room(1, "icebreakers", &mut store);
    Handlers::insert_id(2, &msg_from(2, &code), &mut store).unwrap();

    let r = CallbackData::set_value_for_role(
        Role::Creator,
        &room_bot::helpers::CallbackMessageType::Importance,
        5,
        &code.clone(),
        &mut store,
    );
    assert_eq!(r, Err(EngineError::InvalidRatingValue));
    let room = store.get_room(&code).unwrap();
    assert_eq!(room.creator_importance, None);
    assert_eq!(room.creator_evaluation, None);
}

#[test]
fn completion_edge_fires_at_most_once_per_question() {
    let mut store = store_with_pack("icebreakers", &["first?", "second?"]);
    let code = create_room(1, "icebreakers", &mut store);
    Handlers::insert_id(2, &msg_from(2, &code), &mut store).unwrap();

    let room_id = code.clone();
    let imp = room_bot::helpers::CallbackMessageType::Importance;
    let eva = room_bot::helpers::CallbackMessageType::Evaluation;
    assert_eq!(
        CallbackData::set_value_for_role(Role::Creator, &imp, 3, &room_id, &mut store),
        Ok(false)
    );
    assert_eq!(
        CallbackData::set_value_for_role(Role::Creator, &eva, 1, &room_id, &mut store),
        Ok(true)
    );
    // overwriting either axis afterwards never reports the edge again
    assert_eq!(
        CallbackData::set_value_for_role(Role::Creator, &imp, 2, &room_id, &mut store),
        Ok(false)
    );
    assert_eq!(
        CallbackData::set_value_for_role(Role::Creator, &eva, 4, &room_id, &mut store),
        Ok(false)
    );
}

#[test]
fn repeated_ready_signal_is_idempotent() {
    let mut store = store_with_pack("icebreakers", &["first?", "second?"]);
    let code = create_room(1, "icebreakers", &mut store);
    Handlers::insert_id(2, &msg_from(2, &code), &mut store).unwrap();
    rate(1, &code, 1, 1, &mut store);
    rate(1, &code, 2, 1, &mut store);

    Handlers::waiting_for_answer(1, 200, &mut store).unwrap();
    Handlers::waiting_for_answer(1, 900, &mut store).unwrap();
    let room = store.get_room(&code).unwrap();
    assert_eq!(room.creator_ready_at, Some(200));
    assert_eq!(room.visitor_ready_at, None);
    assert_eq!(room.idx, 0);
}

#[test]
fn error_variants_have_witnesses() {
    let mut store = store_with_pack("icebreakers", &["first?"]);

    // InvalidPack
    let r = Room::create(5, &String::from("unheard-of"), 100, &mut store);
    assert_eq!(r, Err(EngineError::InvalidPack));

    // CodeCollision
    let code = create_room(1, "icebreakers", &mut store);
    let r = Room::create_with_code(5, &String::from("icebreakers"), &code, 100, &mut store);
    assert_eq!(r, Err(EngineError::CodeCollision));

    // UnknownRoom
    let stray = UserRoom { id: String::from("missing"), role: Role::Creator };
    assert_eq!(stray.set_ready_time(1, &mut store), Err(EngineError::UnknownRoom));

    // MissingData
    assert_eq!(
        UserRoom::get(424242, &store).map(|u| u.id),
        Err(EngineError::MissingData)
    );
    assert_eq!(
        Handlers::waiting_for_answer(424242, 1, &mut store).map(|_| ()),
        Err(EngineError::MissingData)
    );
}

#[test]
fn empty_pack_finishes_immediately_on_join() {
    let mut store = store_with_pack("empty", &[]);
    let code = create_room(1, "empty", &mut store);
    let (reply, effects) = Handlers::insert_id(2, &msg_from(2, &code), &mut store).unwrap();
    assert!(reply.is_none());
    assert_eq!(effects.len(), 3);
    assert!(matches!(&effects[2], Effect::FetchAndDeliverReport(_)));
    assert!(store.get_room(&code).is_none());
    assert_eq!(Context::get(1, &store), None);
    assert_eq!(Context::get(2, &store), None);
}

#[test]
fn duplicate_pack_name_is_rejected() {
    let mut store = store_with_pack("icebreakers", &["first?"]);
    let dup = Pack { name: String::from("icebreakers"), prompts: vec![String::from("other")] };
    assert!(!store.add_pack(dup));
    assert_eq!(store.pack_len("icebreakers"), 1);
}
