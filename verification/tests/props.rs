use room_bot::codec::CallbackData;
use room_bot::handlers::Handlers;
use room_bot::messages::Effect;
use room_bot::room::{Context, Pack, Room};
use room_bot::store::Store;
use room_bot::structures::{SentMessage, SentMessageResponse, TgChat, TgMessage, TgUser};
use room_bot::tools::current_time;

fn msg_from(user_id: i32, text: &str) -> Option<TgMessage> {
    Some(TgMessage {
        message_id: 1,
        from: TgUser { id: user_id, first_name: String::from("x"), last_name: None },
        chat: TgChat { id: user_id as i64 },
        date: 0,
        text: Some(String::from(text)),
        entities: None,
    })
}

#[test]
fn pack_size_is_bounded_by_the_index_type() {
    let mut store = Store::new();
    let huge = Pack {
        name: String::from("huge"),
        prompts: vec![String::new(); 65535],
    };
    assert!(!store.add_pack(huge));
    let large = Pack {
        name: String::from("large"),
        prompts: vec![String::new(); 65534],
    };
    assert!(store.add_pack(large));
    assert_eq!(store.pack_len("large"), 65534);
    assert_eq!(store.pack_len("huge"), 0);
}

#[test]
fn generated_join_codes_are_sixteen_alphanumeric_characters() {
    let mut store = Store::new();
    store.add_pack(Pack { name: String::from("p"), prompts: vec![String::from("q")] });
    for _ in 0..8 {
        let code = Room::create(1, &String::from("p"), 5, &mut store).unwrap();
        assert_eq!(code.chars().count(), 16);
        assert!(code.chars().all(|c| c.is_ascii_alphanumeric()));
    }
}

#[test]
fn clock_reads_a_positive_epoch_time() {
    assert!(current_time() > 0);
}

#[test]
fn callback_outside_an_active_phase_only_acknowledges() {
    let mut store = Store::new();
    store.add_pack(Pack { name: String::from("p"), prompts: vec![String::from("q")] });
    Handlers::create(1, &mut store);
    Handlers::new_room(1, &msg_from(1, "p"), 5, &mut store).unwrap();
    // phase is WAITING_FOR_PARTNER: presses must not record anything
    let d = CallbackData { idx: 2, typ: 1, room_id: String::from("whatever") };
    let es = d.handle_callback(&String::from("cb"), 1, 3, &mut store).unwrap();
    assert_eq!(es.len(), 1);
    assert!(matches!(&es[0], Effect::AnswerCallback(_)));
}

#[test]
fn forged_out_of_range_button_still_acknowledges_without_recording() {
    let mut store = Store::new();
    store.add_pack(Pack { name: String::from("p"), prompts: vec![String::from("q")] });
    Handlers::create(1, &mut store);
    let reply = Handlers::new_room(1, &msg_from(1, "p"), 5, &mut store).unwrap().unwrap();
    let chars: Vec<char> = reply.text.chars().collect();
    let code: String = chars[chars.len() - 16..].iter().collect();
    Handlers::insert_id(2, &msg_from(2, &code), &mut store).unwrap();

    let d = CallbackData { idx: 9, typ: 1, room_id: code.clone() };
    let es = d.handle_callback(&String::from("cb"), 1, 3, &mut store).unwrap();
    assert_eq!(es.len(), 2);
    match &es[1] {
        Effect::AnswerCallback(a) => assert_eq!(a.text, None),
        other => panic!("expected the acknowledgement, got {:?}", other),
    }
    let room = store.get_room(&code).unwrap();
    assert_eq!(room.creator_importance, None);
    assert_eq!(Context::get(1, &store), Some(Context::InRoom));
}

#[test]
fn sent_message_response_yields_id_only_on_success() {
    let ok = SentMessageResponse {
        ok: true,
        result: Some(SentMessage { message_id: 88 }),
        description: None,
    };
    assert_eq!(ok.message_id_or_zero(), 88);
    let failed = SentMessageResponse {
        ok: false,
        result: Some(SentMessage { message_id: 88 }),
        description: Some(String::from("nope")),
    };
    assert_eq!(failed.message_id_or_zero(), 0);
    let empty = SentMessageResponse { ok: true, result: None, description: None };
    assert_eq!(empty.message_id_or_zero(), 0);
}
