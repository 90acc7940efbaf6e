use room_bot::codec::CallbackData;
use room_bot::helpers::CallbackMessageType;

fn payload(idx: u8, typ: u8, room_id: &str) -> CallbackData {
    CallbackData { idx, typ, room_id: String::from(room_id) }
}

#[test]
fn to_json_matches_the_canonical_wire_form() {
    let d = payload(0, 1, "Ab3dEf6hIj9lMn0p");
    assert_eq!(d.to_json(), "{\"idx\":0,\"typ\":1,\"room_id\":\"Ab3dEf6hIj9lMn0p\"}");
    let d = payload(4, 2, "R");
    assert_eq!(d.to_json(), "{\"idx\":4,\"typ\":2,\"room_id\":\"R\"}");
    let d = payload(255, 250, "");
    assert_eq!(d.to_json(), "{\"idx\":255,\"typ\":250,\"room_id\":\"\"}");
}

#[test]
fn parse_inverts_to_json() {
    for (idx, typ, rid) in [
        (0u8, 1u8, "Ab3dEf6hIj9lMn0p"),
        (4, 2, "R"),
        (255, 0, ""),
        (7, 42, "комната"),
    ] {
        let d = payload(idx, typ, rid);
        let wire = d.to_json();
        let back = CallbackData::parse(&wire).expect("canonical form must parse");
        assert_eq!(back.idx, idx);
        assert_eq!(back.typ, typ);
        assert_eq!(back.room_id, rid);
    }
}

#[test]
fn parse_accepts_only_the_canonical_form() {
    // the canonical string itself
    assert!(CallbackData::parse("{\"idx\":3,\"typ\":1,\"room_id\":\"X\"}").is_some());
    // wrong field order
    assert!(CallbackData::parse("{\"typ\":1,\"idx\":3,\"room_id\":\"X\"}").is_none());
    // whitespace
    assert!(CallbackData::parse("{\"idx\": 3,\"typ\":1,\"room_id\":\"X\"}").is_none());
    // leading zero
    assert!(CallbackData::parse("{\"idx\":03,\"typ\":1,\"room_id\":\"X\"}").is_none());
    // out of range for u8
    assert!(CallbackData::parse("{\"idx\":256,\"typ\":1,\"room_id\":\"X\"}").is_none());
    // missing digits
    assert!(CallbackData::parse("{\"idx\":,\"typ\":1,\"room_id\":\"X\"}").is_none());
    // unterminated room id
    assert!(CallbackData::parse("{\"idx\":3,\"typ\":1,\"room_id\":\"X}").is_none());
    // trailing garbage
    assert!(CallbackData::parse("{\"idx\":3,\"typ\":1,\"room_id\":\"X\"}!").is_none());
    // empty input
    assert!(CallbackData::parse("").is_none());
}

#[test]
fn match_type_decodes_the_axis_discriminant() {
    assert_eq!(payload(0, 1, "r").match_type(), CallbackMessageType::Importance);
    assert_eq!(payload(0, 2, "r").match_type(), CallbackMessageType::Evaluation);
    assert_eq!(payload(0, 0, "r").match_type(), CallbackMessageType::Error);
    assert_eq!(payload(0, 9, "r").match_type(), CallbackMessageType::Error);
}
