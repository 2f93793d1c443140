use tauri_chat::message::{
    AckMessage, ChatMessage, ChatMessagePack, GroupMessage, LoginMessage, Obj, ResponseMessage,
    RollbackMessage, SingleMessage, TaskReadMessage,
};
use tauri_chat::wire::{encode_varint, encoded_len_varint, decode_varint, DecodeError};
use tauri_chat::MsgType;

#[test]
fn testMessage() {
    let obj = Obj::LoginMessage(LoginMessage { user_id: 1, username: "admin".to_string() });
    let pack = ChatMessagePack::new("123", MsgType::LoginMessageType, Some(obj));
    let len = pack.encoded_len();
    println!("{}", len);
    let mut buf: Vec<u8> = vec![];
    buf.reserve(len);
    pack.encode(&mut buf).unwrap();
    println!("{:?}", buf);
    let back: ChatMessagePack = ChatMessagePack::decode(&*buf).unwrap();
    println!("{:?}", back);
    assert_eq!(back, pack);
    assert_eq!(buf.len(), len);
}

#[test]
fn login_pack_has_exact_bytes() {
    let obj = Obj::LoginMessage(LoginMessage { user_id: 1, username: "admin".to_string() });
    let pack = ChatMessagePack::new("123", MsgType::LoginMessageType, Some(obj));
    // token (field 2), no msg_type (0 is left out), payload (field 4).
    let expected: Vec<u8> = vec![
        0x12, 3, b'1', b'2', b'3', 0x22, 9, 0x08, 1, 0x12, 5, b'a', b'd', b'm', b'i', b'n',
    ];
    assert_eq!(pack.encode_to_vec(), expected);
    assert_eq!(pack.encoded_len(), 16);
}

#[test]
fn msg_type_numbers_and_names() {
    let all = [
        MsgType::LoginMessageType,
        MsgType::SingleMessageType,
        MsgType::GroupMessageType,
        MsgType::AckMessageType,
        MsgType::RollbackMessageType,
        MsgType::TaskReadMessageType,
        MsgType::ResponseMessageType,
    ];
    let names = [
        "LOGIN_MESSAGE_TYPE",
        "SINGLE_MESSAGE_TYPE",
        "GROUP_MESSAGE_TYPE",
        "ACK_MESSAGE_TYPE",
        "ROLLBACK_MESSAGE_TYPE",
        "TASK_READ_MESSAGE_TYPE",
        "RESPONSE_MESSAGE_TYPE",
    ];
    for (i, t) in all.iter().enumerate() {
        assert_eq!(t.get_value(), i as i32);
        assert_eq!(t.as_str_name(), names[i]);
        assert_eq!(MsgType::from_str_name(names[i]), Some(*t));
    }
    assert_eq!(MsgType::from_str_name("login_message_type"), None);
    assert_eq!(MsgType::from_str_name(""), None);
    assert_eq!(MsgType::from_str_name("LOGIN_MESSAGE_TYPE "), None);
}

#[test]
fn chat_message_new_is_all_defaults() {
    let m = ChatMessage::new();
    assert_eq!(m.id, "");
    assert_eq!(m.chat_room_id, 0);
    assert_eq!(m.sender_avatar, "");
    assert!(!m.is_read);
    assert!(m.image_path_list.is_empty());
    assert_eq!(m, ChatMessage::default());
    assert!(m.encode_to_vec().is_empty());
}

#[test]
fn pack_new_sets_kind_number() {
    let p = ChatMessagePack::new("tok", MsgType::ResponseMessageType, None);
    assert_eq!(p.token, "tok");
    assert_eq!(p.msg_type, 6);
    assert!(p.obj.is_none());
    assert_eq!(p.encode_to_vec(), vec![0x12, 3, b't', b'o', b'k', 0x18, 6]);
}

#[test]
fn varints() {
    let mut out = Vec::new();
    encode_varint(300, &mut out);
    assert_eq!(out, vec![0xac, 0x02]);
    assert_eq!(encoded_len_varint(300), 2);
    assert_eq!(encoded_len_varint(0), 1);
    assert_eq!(encoded_len_varint(u64::MAX), 10);
    let mut max = Vec::new();
    encode_varint(u64::MAX, &mut max);
    assert_eq!(max, vec![0xff, 0xff, 0xff, 0xff, 0xff, 0xff, 0xff, 0xff, 0xff, 0x01]);
    assert_eq!(decode_varint(&max, 0), Some((u64::MAX, 10)));
    // A tenth byte above 1 overflows 64 bits.
    let over = [0xff, 0xff, 0xff, 0xff, 0xff, 0xff, 0xff, 0xff, 0xff, 0x02];
    assert_eq!(decode_varint(&over, 0), None);
    // Eleven bytes are too many, even for a small value.
    let long = [0x80, 0x80, 0x80, 0x80, 0x80, 0x80, 0x80, 0x80, 0x80, 0x80, 0x00];
    assert_eq!(decode_varint(&long, 0), None);
    // A non-minimal encoding is accepted.
    assert_eq!(decode_varint(&[0x81, 0x00], 0), Some((1, 2)));
    assert_eq!(decode_varint(&[0x81], 0), None);
}

fn full_chat_message() -> ChatMessage {
    ChatMessage {
        id: "9b2f-uuid".to_string(),
        chat_room_id: 7,
        sender_id: -3,
        content: "你好, world".to_string(),
        images_path: "/img".to_string(),
        files_path: "/files".to_string(),
        videos_path: "/videos".to_string(),
        send_time: 1_700_000_000_000,
        created_time: -1,
        sender_name: "admin".to_string(),
        sender_avatar: "a.png".to_string(),
        receiver_id: 42,
        is_read: true,
        chat_room_name: "room".to_string(),
        read_count: 2,
        receiver_count: 5,
        image_path_list: vec!["a".to_string(), "".to_string(), "c".to_string()],
        file_path_list: vec![],
        video_path_list: vec!["v".to_string()],
    }
}

#[test]
fn every_payload_round_trips() {
    let objs = vec![
        Obj::LoginMessage(LoginMessage { user_id: i32::MIN, username: "ü".to_string() }),
        Obj::SingleMessage(SingleMessage {
            receiver_id: 3,
            receiver_name: "bob".to_string(),
            chat_message: Some(full_chat_message()),
        }),
        Obj::GroupMessage(GroupMessage {
            group_id: 9,
            group_name: "".to_string(),
            chat_message: Some(ChatMessage::new()),
        }),
        Obj::GroupMessage(GroupMessage {
            group_id: 0,
            group_name: "g".to_string(),
            chat_message: None,
        }),
        Obj::AckMessage(AckMessage {
            code: 200,
            msg_content: "ok".to_string(),
            msg_id: "m1".to_string(),
            room_id: 1,
            user_id: 2,
            msg_type: 3,
        }),
        Obj::RollbackMessage(RollbackMessage { msg_id: "m2".to_string(), room_id: -1 }),
        Obj::TaskReadMessage(TaskReadMessage {
            msg_id: "m3".to_string(),
            room_id: 4,
            user_id: "u".to_string(),
        }),
        Obj::ResponseMessage(ResponseMessage {
            code: 500,
            msg: "失败".to_string(),
            msg_id: "".to_string(),
        }),
    ];
    for (i, o) in objs.into_iter().enumerate() {
        let p = ChatMessagePack { token: format!("t{}", i), msg_type: i as i32, obj: Some(o) };
        let bytes = p.encode_to_vec();
        assert_eq!(ChatMessagePack::decode(&bytes).unwrap(), p);
    }
    let m = full_chat_message();
    assert_eq!(ChatMessage::decode(&m.encode_to_vec()).unwrap(), m);
}

#[test]
fn negative_int32_takes_ten_bytes() {
    let p = ChatMessagePack { token: String::new(), msg_type: -1, obj: None };
    let bytes = p.encode_to_vec();
    assert_eq!(bytes, vec![0x18, 0xff, 0xff, 0xff, 0xff, 0xff, 0xff, 0xff, 0xff, 0xff, 0x01]);
    assert_eq!(ChatMessagePack::decode(&bytes).unwrap().msg_type, -1);
}

#[test]
fn decode_rejects_malformed_input() {
    // Truncated length-delimited field.
    assert_eq!(ChatMessagePack::decode(&[0x12, 5, b'a']), Err(DecodeError::Malformed));
    // Token that is not UTF-8.
    assert_eq!(ChatMessagePack::decode(&[0x12, 1, 0xff]), Err(DecodeError::Malformed));
    // Known field with the wrong wire type (token as a varint).
    assert_eq!(ChatMessagePack::decode(&[0x10, 1]), Err(DecodeError::Malformed));
    // Tag 0.
    assert_eq!(ChatMessagePack::decode(&[0x00, 1]), Err(DecodeError::Malformed));
    // Wire types 6 and 7 do not exist.
    assert_eq!(ChatMessagePack::decode(&[0x0e]), Err(DecodeError::Malformed));
    assert_eq!(ChatMessagePack::decode(&[0x0f]), Err(DecodeError::Malformed));
    // A lone end-group key.
    assert_eq!(ChatMessagePack::decode(&[0x0c]), Err(DecodeError::Malformed));
    // A payload whose inner field runs past it.
    assert_eq!(
        ChatMessagePack::decode(&[0x22, 2, 0x12, 3, b'a', b'b', b'c']),
        Err(DecodeError::Malformed)
    );
    // Truncated fixed-width unknown fields.
    assert_eq!(ChatMessagePack::decode(&[0x0d, 1, 2, 3]), Err(DecodeError::Malformed));
    assert_eq!(ChatMessagePack::decode(&[0x09, 1, 2, 3, 4, 5, 6, 7]), Err(DecodeError::Malformed));
}

#[test]
fn decode_skips_unknown_fields() {
    // Unknown varint (field 1), fixed32 (field 11), fixed64 (field 12), bytes
    // (field 13) and a group (field 14) around the token.
    let bytes = vec![
        0x08, 0x96, 0x01, 0x5d, 1, 2, 3, 4, 0x61, 1, 2, 3, 4, 5, 6, 7, 8, 0x6a, 2, 9, 9, 0x73,
        0x08, 5, 0x74, 0x12, 2, b'o', b'k',
    ];
    let p = ChatMessagePack::decode(&bytes).unwrap();
    assert_eq!(p.token, "ok");
    assert_eq!(p.msg_type, 0);
    assert!(p.obj.is_none());
    // A group closed with another tag is refused.
    assert_eq!(ChatMessagePack::decode(&[0x73, 0x7c]), Err(DecodeError::Malformed));
}

#[test]
fn decode_takes_last_scalar_and_merges_messages() {
    let bytes = vec![
        0x12, 1, b'a', 0x12, 1, b'b', // token twice: the last one wins
        0x22, 2, 0x08, 5, // login payload with user id 5
        0x22, 3, 0x12, 1, b'z', // and another with the user name: merged
    ];
    let p = ChatMessagePack::decode(&bytes).unwrap();
    assert_eq!(p.token, "b");
    assert_eq!(p.obj, Some(Obj::LoginMessage(LoginMessage { user_id: 5, username: "z".to_string() })));
    // A payload of another kind replaces the one before.
    let bytes = vec![0x22, 2, 0x08, 5, 0x42, 2, 0x10, 9];
    let p = ChatMessagePack::decode(&bytes).unwrap();
    assert_eq!(p.obj, Some(Obj::RollbackMessage(RollbackMessage { msg_id: String::new(), room_id: 9 })));
    // Repeated strings collect every entry.
    let bytes = vec![0xb2, 0x01, 1, b'x', 0xb2, 0x01, 0, 0xb2, 0x01, 1, b'y'];
    let m = ChatMessage::decode(&bytes).unwrap();
    assert_eq!(m.image_path_list, vec!["x".to_string(), "".to_string(), "y".to_string()]);
    // The varint of an int32 keeps its low 32 bits; a bool is any non-zero.
    let bytes = vec![0x10, 0x80, 0x80, 0x80, 0x80, 0x10, 0x70, 2];
    let m = ChatMessage::decode(&bytes).unwrap();
    assert_eq!(m.chat_room_id, 0);
    assert!(m.is_read);
}

#[test]
fn deeply_nested_groups_hit_the_recursion_limit() {
    let mut ok = Vec::new();
    for _ in 0..99 {
        ok.push(0x0b); // start group 1
    }
    for _ in 0..99 {
        ok.push(0x0c); // end group 1
    }
    assert!(ChatMessagePack::decode(&ok).is_ok());
    let mut deep = Vec::new();
    for _ in 0..101 {
        deep.push(0x0b);
    }
    for _ in 0..101 {
        deep.push(0x0c);
    }
    assert_eq!(ChatMessagePack::decode(&deep), Err(DecodeError::Malformed));
}

#[test]
fn encode_appends_to_the_buffer() {
    let p = ChatMessagePack::new("x", MsgType::AckMessageType, None);
    let mut buf = vec![1u8, 2];
    p.encode(&mut buf).unwrap();
    assert_eq!(buf, vec![1, 2, 0x12, 1, b'x', 0x18, 3]);
}

#[test]
fn msg_type_numbers_read_back() {
    let all = [
        MsgType::LoginMessageType,
        MsgType::SingleMessageType,
        MsgType::GroupMessageType,
        MsgType::AckMessageType,
        MsgType::RollbackMessageType,
        MsgType::TaskReadMessageType,
        MsgType::ResponseMessageType,
    ];
    for t in all {
        assert_eq!(MsgType::from_i32(t.get_value()), Some(t));
        assert_eq!(i32::from(t), t.get_value());
        assert!(MsgType::is_valid(t.get_value()));
        let pack = ChatMessagePack::new("admin", t, None);
        let mut buf: Vec<u8> = Vec::new();
        assert_eq!(pack.encode(&mut buf), Ok(()));
        assert_eq!(buf.len(), pack.encoded_len());
        let back = ChatMessagePack::decode(&buf).unwrap();
        assert_eq!(back, pack);
        assert_eq!(MsgType::from_i32(back.msg_type), Some(t));
    }
    assert_eq!(MsgType::from_i32(7), None);
    assert_eq!(MsgType::from_i32(-1), None);
    assert!(!MsgType::is_valid(7));
}

#[test]
fn chat_message_encoded_len() {
    let mut m = ChatMessage::new();
    assert_eq!(m.encoded_len(), 0);
    m.id = "abc".to_string();
    m.chat_room_id = 5;
    assert_eq!(m.encoded_len(), m.encode_to_vec().len());
    assert_eq!(m.encoded_len(), 7);
}
