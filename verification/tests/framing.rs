use lsps1_client::{
    dispatch, CustomMessage, Dispatch, PassReason, TransportError, HOOK_RESULT,
    LSPS1_CREATE_ORDER_METHOD, LSPS1_GET_ORDER_METHOD, MESSAGE_TYPE,
};

#[test]
fn constants_have_their_protocol_values() {
    assert_eq!(MESSAGE_TYPE, 0x0001);
    assert_eq!(LSPS1_CREATE_ORDER_METHOD, "lsps1.create_order");
    assert_eq!(LSPS1_GET_ORDER_METHOD, "lsps1.get_order");
    assert_eq!(HOOK_RESULT, "continue");
}

#[test]
fn from_bytes_splits_type_and_body() {
    let message = CustomMessage::from_bytes(vec![0x00, 0x01, 0x7b, 0x7d]);
    assert_eq!(message, Ok(CustomMessage { message_type: 1, body: vec![0x7b, 0x7d] }));
}

#[test]
fn from_bytes_reads_the_type_big_endian() {
    let message = CustomMessage::from_bytes(vec![0x94, 0x19]).unwrap();
    assert_eq!(message.message_type, 37913);
    assert_eq!(message.body, Vec::<u8>::new());

    let message = CustomMessage::from_bytes(vec![0x01, 0x00, 0xff]).unwrap();
    assert_eq!(message.message_type, 256);
    assert_eq!(message.body, vec![0xff]);

    let message = CustomMessage::from_bytes(vec![0xff, 0xff]).unwrap();
    assert_eq!(message.message_type, 65535);
}

#[test]
fn from_bytes_rejects_fewer_than_two_bytes() {
    assert_eq!(CustomMessage::from_bytes(vec![]), Err(TransportError::TooShort));
    assert_eq!(CustomMessage::from_bytes(vec![0x00]), Err(TransportError::TooShort));
}

#[test]
fn from_hex_decodes_each_pair_of_digits_high_digit_first() {
    let message = CustomMessage::from_hex("00010f10a5").unwrap();
    assert_eq!(message.message_type, 1);
    assert_eq!(message.body, vec![0x0f, 0x10, 0xa5]);
}

#[test]
fn from_hex_accepts_lower_upper_and_mixed_case() {
    let expected = Ok(CustomMessage { message_type: 1, body: vec![0xab, 0xcd, 0xef] });
    assert_eq!(CustomMessage::from_hex("0001abcdef"), expected);
    assert_eq!(CustomMessage::from_hex("0001ABCDEF"), expected);
    assert_eq!(CustomMessage::from_hex("0001aBcDeF"), expected);
}

#[test]
fn from_hex_does_not_hand_the_text_back() {
    let message = CustomMessage::from_hex("3030").unwrap();
    assert_eq!(message.message_type, 0x3030);
    assert_eq!(message.body, Vec::<u8>::new());
    let message = CustomMessage::from_hex("30303030").unwrap();
    assert_eq!(message.body, vec![0x30, 0x30]);
}

#[test]
fn from_hex_rejects_an_odd_number_of_digits() {
    assert_eq!(CustomMessage::from_hex("0"), Err(TransportError::BadHex));
    assert_eq!(CustomMessage::from_hex("000"), Err(TransportError::BadHex));
    assert_eq!(CustomMessage::from_hex("00017"), Err(TransportError::BadHex));
}

#[test]
fn from_hex_rejects_what_is_not_a_hex_digit() {
    assert_eq!(CustomMessage::from_hex("00zz"), Err(TransportError::BadHex));
    assert_eq!(CustomMessage::from_hex("0x0001"), Err(TransportError::BadHex));
    assert_eq!(CustomMessage::from_hex("00 1"), Err(TransportError::BadHex));
    assert_eq!(CustomMessage::from_hex("0001g0"), Err(TransportError::BadHex));
    assert_eq!(CustomMessage::from_hex("00/1"), Err(TransportError::BadHex));
    assert_eq!(CustomMessage::from_hex("00:1"), Err(TransportError::BadHex));
    assert_eq!(CustomMessage::from_hex("00@1"), Err(TransportError::BadHex));
    assert_eq!(CustomMessage::from_hex("00`1"), Err(TransportError::BadHex));
    assert_eq!(CustomMessage::from_hex("00\u{e9}1"), Err(TransportError::BadHex));
    assert_eq!(CustomMessage::from_hex("\u{e9}"), Err(TransportError::BadHex));
}

#[test]
fn from_hex_rejects_fewer_than_two_bytes() {
    assert_eq!(CustomMessage::from_hex(""), Err(TransportError::TooShort));
    assert_eq!(CustomMessage::from_hex("00"), Err(TransportError::TooShort));
    assert_eq!(CustomMessage::from_hex("ff"), Err(TransportError::TooShort));
}

#[test]
fn from_hex_undoes_hex_encode() {
    let bytes: Vec<u8> = (0u8..=255).collect();
    let lower = hex::encode(&bytes);
    let upper = hex::encode_upper(&bytes);
    let expected = CustomMessage { message_type: 0x0001, body: bytes[2..].to_vec() };
    assert_eq!(CustomMessage::from_hex(&lower), Ok(expected.clone()));
    assert_eq!(CustomMessage::from_hex(&upper), Ok(expected));
}

#[test]
fn dispatch_passes_an_event_without_payload_through() {
    assert_eq!(dispatch(None), Dispatch::PassThrough(PassReason::NoPayload));
}

#[test]
fn dispatch_passes_undecodable_payloads_through() {
    let bad_hex = Dispatch::PassThrough(PassReason::Transport(TransportError::BadHex));
    let too_short = Dispatch::PassThrough(PassReason::Transport(TransportError::TooShort));
    assert_eq!(dispatch(Some("not hex")), bad_hex);
    assert_eq!(dispatch(Some("000")), bad_hex);
    assert_eq!(dispatch(Some("0001zz")), bad_hex);
    assert_eq!(dispatch(Some("")), too_short);
    assert_eq!(dispatch(Some("00")), too_short);
    assert_eq!(dispatch(Some("01")), too_short);
}

#[test]
fn dispatch_passes_other_message_types_through() {
    let other = Dispatch::PassThrough(PassReason::OtherType);
    assert_eq!(dispatch(Some("0000")), other);
    assert_eq!(dispatch(Some("0002")), other);
    assert_eq!(dispatch(Some("0100")), other);
    assert_eq!(dispatch(Some("94197b7d")), other);
    assert_eq!(dispatch(Some("ffff00")), other);
}

#[test]
fn dispatch_forwards_the_body_of_the_registered_type() {
    assert_eq!(dispatch(Some("0001")), Dispatch::Forward(vec![]));
    assert_eq!(dispatch(Some("00017b7d")), Dispatch::Forward(vec![0x7b, 0x7d]));
    assert_eq!(dispatch(Some("00017B7D")), Dispatch::Forward(vec![0x7b, 0x7d]));
    assert_eq!(dispatch(Some("0001ff")), Dispatch::Forward(vec![0xff]));
}

#[test]
fn unregistered_type_with_json_body_is_passed_through_undecoded() {
    let body = "{\"id\":\"abc\",\"result\":{\"channel_size\":100000}}";
    let mut bytes = vec![0x00, 0x02];
    bytes.extend_from_slice(body.as_bytes());
    let payload = hex::encode(&bytes);
    assert_eq!(dispatch(Some(&payload)), Dispatch::PassThrough(PassReason::OtherType));
}
