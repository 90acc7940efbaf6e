use room_bot::constants::{Keys, Messages};
use room_bot::helpers::create_tg_url;
use room_bot::numfmt::{get_parse_string_value, i32_to_string, parse_u64, str_eq, u64_to_string};
use room_bot::messages::QuestionMessage;
use room_bot::room::{Context, Pack, Room};
use room_bot::store::Store;
use room_bot::structures::{
    CallbackQueryAnswer, OutgoingInlineKeyboardMessage, OutgoingKeyboardMessage, TgMethods,
};

#[test]
fn decimal_formatting_is_exact() {
    assert_eq!(u64_to_string(0), "0");
    assert_eq!(u64_to_string(7), "7");
    assert_eq!(u64_to_string(10), "10");
    assert_eq!(u64_to_string(65535), "65535");
    assert_eq!(u64_to_string(u64::MAX), "18446744073709551615");
    assert_eq!(i32_to_string(0), "0");
    assert_eq!(i32_to_string(-1), "-1");
    assert_eq!(i32_to_string(123456), "123456");
    assert_eq!(i32_to_string(i32::MIN), "-2147483648");
    assert_eq!(i32_to_string(i32::MAX), "2147483647");
}

#[test]
fn decimal_parsing_is_exact() {
    assert_eq!(parse_u64("0"), Some(0));
    assert_eq!(parse_u64("0012"), Some(12));
    assert_eq!(parse_u64("18446744073709551615"), Some(u64::MAX));
    assert_eq!(parse_u64("18446744073709551616"), None);
    assert_eq!(parse_u64(""), None);
    assert_eq!(parse_u64("12a"), None);
    assert_eq!(parse_u64("-3"), None);
    // parsing inverts formatting
    for n in [0u64, 9, 10, 4295, u64::MAX] {
        assert_eq!(parse_u64(&u64_to_string(n)), Some(n));
    }
}

#[test]
fn association_list_lookup_parses_first_match() {
    let hm = vec![
        (String::from("idx"), String::from("42")),
        (String::from("bad"), String::from("x7")),
        (String::from("idx"), String::from("99")),
    ];
    assert_eq!(get_parse_string_value(&hm, "idx", 0), 42);
    assert_eq!(get_parse_string_value(&hm, "bad", 5), 5);
    assert_eq!(get_parse_string_value(&hm, "absent", 3), 3);
}

#[test]
fn string_equality_is_by_characters() {
    assert!(str_eq("", ""));
    assert!(str_eq("комната", "комната"));
    assert!(!str_eq("a", "ab"));
    assert!(!str_eq("Готов!", "готов!"));
}

#[test]
fn store_keys_follow_the_documented_layout() {
    assert_eq!(Room::key(&String::from("Ab3d")), "room:Ab3d");
    assert_eq!(Room::key_user(17), "user:17:room");
    assert_eq!(Room::key_user(-5), "user:-5:room");
    assert_eq!(Context::key(17), "user:17:context");
}

#[test]
fn bot_api_urls_are_assembled_from_token_and_method() {
    assert_eq!(
        create_tg_url("TOKEN123", TgMethods::SEND_MESSAGE),
        "https://api.telegram.org/botTOKEN123/sendMessage"
    );
    assert_eq!(
        create_tg_url("t", "getUpdates"),
        "https://api.telegram.org/bott/getUpdates"
    );
}

#[test]
fn welcome_message_carries_both_entry_buttons() {
    let m = OutgoingKeyboardMessage::welcome_message(9);
    assert_eq!(m.chat_id, 9);
    assert_eq!(m.text, Messages::WELCOME);
    let kb = m.reply_markup.unwrap();
    assert!(kb.one_time_keyboard);
    assert_eq!(kb.keyboard, vec![vec![
        String::from(Keys::CREATE),
        String::from(Keys::JOIN),
    ]]);
}

#[test]
fn join_code_message_embeds_the_code() {
    let m = OutgoingKeyboardMessage::room_id_message(3, &String::from("Ab3dEf6hIj9lMn0p"));
    assert_eq!(
        m.text,
        format!("{}\nID комнаты: Ab3dEf6hIj9lMn0p", Messages::WAITING_FOR_PARTNER)
    );
}

#[test]
fn rating_keyboard_has_five_buttons_with_canonical_payloads() {
    let m = OutgoingInlineKeyboardMessage::with_eval_keys(
        4,
        Messages::ANSWER_IMPORTANCE,
        1,
        &String::from("R2"),
    );
    assert_eq!(m.chat_id, 4);
    assert_eq!(m.text, Messages::ANSWER_IMPORTANCE);
    let kb = m.reply_markup.unwrap();
    assert_eq!(kb.inline_keyboard.len(), 1);
    let row = &kb.inline_keyboard[0];
    assert_eq!(row.len(), 5);
    for (i, button) in row.iter().enumerate() {
        assert_eq!(
            button.callback_data,
            format!("{{\"idx\":{},\"typ\":1,\"room_id\":\"R2\"}}", i)
        );
        assert!(!button.text.starts_with('('));
    }
    assert_eq!(row[1].text, "✔️");
    assert_eq!(row[3].text, "‼️");
}

#[test]
fn callback_answer_names_the_chosen_emoji() {
    let a = CallbackQueryAnswer::build(String::from("q1"), 2, 1);
    assert_eq!(a.callback_query_id, "q1");
    assert_eq!(a.text.as_deref(), Some("Оценка: ❗"));
    let a = CallbackQueryAnswer::build(String::from("q2"), 3, 2);
    assert_eq!(a.text.as_deref(), Some("Оценка: 😊"));
    let a = CallbackQueryAnswer::build(String::from("q3"), 9, 1);
    assert_eq!(a.text, None);
}

#[test]
fn question_header_counts_from_one() {
    let mut store = Store::new();
    store.add_pack(Pack {
        name: String::from("p"),
        prompts: vec![String::from("a"), String::from("b"), String::from("c")],
    });
    let q = QuestionMessage::get(&String::from("p"), 2, &store).unwrap();
    assert_eq!(q.create_text(), "<b>📒Вопрос 3 из 3:</b>\nc");
    assert!(QuestionMessage::get(&String::from("p"), 3, &store).is_none());
    assert!(QuestionMessage::get(&String::from("unknown"), 0, &store).is_none());
}
