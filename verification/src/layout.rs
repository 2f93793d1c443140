//! The wire layout of the protocol, written out byte by byte: each field's
//! key as the protocol definition numbers it, and how numbers and lengths
//! are written. The laws here pin the encoder and the decoder to the
//! protocol's field numbers, not only to each other.
use vstd::prelude::*;
use vstd::utf8::*;
use crate::wire::{key_bytes, varint_bytes};
use crate::encode::{
    addressed_bytes, ack_bytes, bool_field, chat_message_bytes, chat_message_field, int32_field,
    int64_field, login_bytes, obj_field, pack_bytes, response_bytes, rollback_bytes,
    string_field, strings_field, task_read_bytes,
};
use crate::decode::{decode_chat_message_spec, decode_pack_spec};
use crate::codec::{
    law_chat_message_round_trip, law_pack_round_trip, lemma_merge_step, lemma_read_varint_field,
    lemma_string_step,
};
use crate::decode::chat_message_step;
use crate::wire::{FieldValue, RECURSION_LIMIT};
use crate::message::{
    AckMessageView, AddressedView, ChatMessageView, LoginMessageView, ObjView, PackView,
    ResponseMessageView, RollbackMessageView, TaskReadMessageView, chat_message_default,
};

verus! {

broadcast use {vstd::utf8::encode_utf8_valid_utf8, vstd::utf8::encode_utf8_decode_utf8};

/// A length-delimited field with key bytes `key`: the key, the length of
/// the payload as a varint, the payload.
pub open spec fn lit_len(key: Seq<u8>, p: Seq<u8>) -> Seq<u8> {
    key + varint_bytes(p.len()) + p
}

/// A string field with key bytes `key`, left out when empty.
pub open spec fn lit_string(key: Seq<u8>, s: Seq<char>) -> Seq<u8> {
    if s.len() == 0 {
        Seq::empty()
    } else {
        lit_len(key, encode_utf8(s))
    }
}

/// A repeated string field with key bytes `key`: one entry per string.
pub open spec fn lit_strings(key: Seq<u8>, v: Seq<Seq<char>>) -> Seq<u8>
    decreases v.len(),
{
    if v.len() == 0 {
        Seq::empty()
    } else {
        lit_len(key, encode_utf8(v[0])) + lit_strings(key, v.drop_first())
    }
}

/// An `int32` field with key bytes `key`, left out when zero; a negative
/// number is written as its 64-bit two's complement.
pub open spec fn lit_int32(key: Seq<u8>, x: i32) -> Seq<u8> {
    if x == 0 {
        Seq::empty()
    } else {
        key + varint_bytes((x as u64) as nat)
    }
}

/// An `int64` field with key bytes `key`, left out when zero.
pub open spec fn lit_int64(key: Seq<u8>, x: i64) -> Seq<u8> {
    if x == 0 {
        Seq::empty()
    } else {
        key + varint_bytes((x as u64) as nat)
    }
}

/// A `bool` field with key bytes `key`: the byte 1 when true, left out when
/// false.
pub open spec fn lit_bool(key: Seq<u8>, b: bool) -> Seq<u8> {
    if b {
        key + seq![1u8]
    } else {
        Seq::empty()
    }
}

/// A `ChatMessage` on the wire: id 1, chat_room_id 2, sender_id 4, content
/// 5, images_path 6, files_path 7, videos_path 8, send_time 9,
/// created_time 10, sender_name 11, sender_avatar 12, receiver_id 13,
/// is_read 14, chat_room_name 15, read_count 16, receiver_count 21, and the
/// lists 22, 23 and 24.
pub open spec fn chat_message_layout(m: ChatMessageView) -> Seq<u8> {
    lit_string(seq![0x0au8], m.id) + lit_int32(seq![0x10u8], m.chat_room_id) + lit_int32(
        seq![0x20u8],
        m.sender_id,
    ) + lit_string(seq![0x2au8], m.content) + lit_string(seq![0x32u8], m.images_path)
        + lit_string(seq![0x3au8], m.files_path) + lit_string(seq![0x42u8], m.videos_path)
        + lit_int64(seq![0x48u8], m.send_time) + lit_int64(seq![0x50u8], m.created_time)
        + lit_string(seq![0x5au8], m.sender_name) + lit_string(seq![0x62u8], m.sender_avatar)
        + lit_int32(seq![0x68u8], m.receiver_id) + lit_bool(seq![0x70u8], m.is_read)
        + lit_string(seq![0x7au8], m.chat_room_name) + lit_int32(
        seq![0x80u8, 0x01u8],
        m.read_count,
    ) + lit_int32(seq![0xa8u8, 0x01u8], m.receiver_count) + lit_strings(
        seq![0xb2u8, 0x01u8],
        m.image_path_list,
    ) + lit_strings(seq![0xbau8, 0x01u8], m.file_path_list) + lit_strings(
        seq![0xc2u8, 0x01u8],
        m.video_path_list,
    )
}

/// A `LoginMessage` on the wire: user_id 1, username 2.
pub open spec fn login_layout(m: LoginMessageView) -> Seq<u8> {
    lit_int32(seq![0x08u8], m.user_id) + lit_string(seq![0x12u8], m.username)
}

/// A `SingleMessage` or `GroupMessage` on the wire: the receiver's or the
/// group's id 1, its name 2, the chat message 3.
pub open spec fn addressed_layout(m: AddressedView) -> Seq<u8> {
    lit_int32(seq![0x08u8], m.id) + lit_string(seq![0x12u8], m.name) + match m.chat_message {
        Some(c) => lit_len(seq![0x1au8], chat_message_layout(c)),
        None => Seq::empty(),
    }
}

/// An `AckMessage` on the wire: code 1, msg_content 2, msg_id 3, room_id 4,
/// user_id 5, msg_type 6.
pub open spec fn ack_layout(m: AckMessageView) -> Seq<u8> {
    lit_int32(seq![0x08u8], m.code) + lit_string(seq![0x12u8], m.msg_content) + lit_string(
        seq![0x1au8],
        m.msg_id,
    ) + lit_int32(seq![0x20u8], m.room_id) + lit_int32(seq![0x28u8], m.user_id) + lit_int32(
        seq![0x30u8],
        m.msg_type,
    )
}

/// A `RollbackMessage` on the wire: msg_id 1, room_id 2.
pub open spec fn rollback_layout(m: RollbackMessageView) -> Seq<u8> {
    lit_string(seq![0x0au8], m.msg_id) + lit_int32(seq![0x10u8], m.room_id)
}

/// A `TaskReadMessage` on the wire: msg_id 1, room_id 2, user_id 3.
pub open spec fn task_read_layout(m: TaskReadMessageView) -> Seq<u8> {
    lit_string(seq![0x0au8], m.msg_id) + lit_int32(seq![0x10u8], m.room_id) + lit_string(
        seq![0x1au8],
        m.user_id,
    )
}

/// A `ResponseMessage` on the wire: code 1, msg 2, msg_id 3.
pub open spec fn response_layout(m: ResponseMessageView) -> Seq<u8> {
    lit_int32(seq![0x08u8], m.code) + lit_string(seq![0x12u8], m.msg) + lit_string(
        seq![0x1au8],
        m.msg_id,
    )
}

/// The payload of a packet on the wire: one field of tag 4 (login) to 10
/// (response).
pub open spec fn obj_layout(o: ObjView) -> Seq<u8> {
    match o {
        ObjView::Login(m) => lit_len(seq![0x22u8], login_layout(m)),
        ObjView::Single(m) => lit_len(seq![0x2au8], addressed_layout(m)),
        ObjView::Group(m) => lit_len(seq![0x32u8], addressed_layout(m)),
        ObjView::Ack(m) => lit_len(seq![0x3au8], ack_layout(m)),
        ObjView::Rollback(m) => lit_len(seq![0x42u8], rollback_layout(m)),
        ObjView::TaskRead(m) => lit_len(seq![0x4au8], task_read_layout(m)),
        ObjView::Response(m) => lit_len(seq![0x52u8], response_layout(m)),
    }
}

/// A `ChatMessagePack` on the wire: token 2, msg_type 3, the payload.
pub open spec fn pack_layout(p: PackView) -> Seq<u8> {
    lit_string(seq![0x12u8], p.token) + lit_int32(seq![0x18u8], p.msg_type) + match p.obj {
        Some(o) => obj_layout(o),
        None => Seq::empty(),
    }
}

/// The keys of the protocol's fields, as bytes.
proof fn lemma_keys()
    ensures
        key_bytes(1, 2) == seq![0x0au8],
        key_bytes(2, 2) == seq![0x12u8],
        key_bytes(3, 2) == seq![0x1au8],
        key_bytes(4, 2) == seq![0x22u8],
        key_bytes(5, 2) == seq![0x2au8],
        key_bytes(6, 2) == seq![0x32u8],
        key_bytes(7, 2) == seq![0x3au8],
        key_bytes(8, 2) == seq![0x42u8],
        key_bytes(9, 2) == seq![0x4au8],
        key_bytes(10, 2) == seq![0x52u8],
        key_bytes(11, 2) == seq![0x5au8],
        key_bytes(12, 2) == seq![0x62u8],
        key_bytes(15, 2) == seq![0x7au8],
        key_bytes(22, 2) == seq![0xb2u8, 0x01u8],
        key_bytes(23, 2) == seq![0xbau8, 0x01u8],
        key_bytes(24, 2) == seq![0xc2u8, 0x01u8],
        key_bytes(1, 0) == seq![0x08u8],
        key_bytes(2, 0) == seq![0x10u8],
        key_bytes(3, 0) == seq![0x18u8],
        key_bytes(4, 0) == seq![0x20u8],
        key_bytes(5, 0) == seq![0x28u8],
        key_bytes(6, 0) == seq![0x30u8],
        key_bytes(9, 0) == seq![0x48u8],
        key_bytes(10, 0) == seq![0x50u8],
        key_bytes(13, 0) == seq![0x68u8],
        key_bytes(14, 0) == seq![0x70u8],
        key_bytes(16, 0) == seq![0x80u8, 0x01u8],
        key_bytes(21, 0) == seq![0xa8u8, 0x01u8],
        varint_bytes(1) == seq![1u8],
{
    reveal_with_fuel(varint_bytes, 2);
    assert(key_bytes(22, 2) =~= seq![0xb2u8, 0x01u8]);
    assert(key_bytes(23, 2) =~= seq![0xbau8, 0x01u8]);
    assert(key_bytes(24, 2) =~= seq![0xc2u8, 0x01u8]);
    assert(key_bytes(16, 0) =~= seq![0x80u8, 0x01u8]);
    assert(key_bytes(21, 0) =~= seq![0xa8u8, 0x01u8]);
}

proof fn lemma_string_lit(tag: nat, k: Seq<u8>, s: Seq<char>)
    requires
        key_bytes(tag, 2) == k,
    ensures
        string_field(tag, s) == lit_string(k, s),
{
}

proof fn lemma_strings_lit(tag: nat, k: Seq<u8>, v: Seq<Seq<char>>)
    requires
        key_bytes(tag, 2) == k,
    ensures
        strings_field(tag, v) == lit_strings(k, v),
    decreases v.len(),
{
    if v.len() > 0 {
        lemma_strings_lit(tag, k, v.drop_first());
    }
}

proof fn lemma_int32_lit(tag: nat, k: Seq<u8>, x: i32)
    requires
        key_bytes(tag, 0) == k,
    ensures
        int32_field(tag, x) == lit_int32(k, x),
{
}

proof fn lemma_int64_lit(tag: nat, k: Seq<u8>, x: i64)
    requires
        key_bytes(tag, 0) == k,
    ensures
        int64_field(tag, x) == lit_int64(k, x),
{
}

proof fn lemma_bool_lit(tag: nat, k: Seq<u8>, b: bool)
    requires
        key_bytes(tag, 0) == k,
        varint_bytes(1) == seq![1u8],
    ensures
        bool_field(tag, b) == lit_bool(k, b),
{
}

/// How numbers are written: seven bits per byte, least significant first,
/// the high bit set on every byte but the last.
pub proof fn law_varint_layout(v: nat)
    ensures
        v < 128 ==> varint_bytes(v) == seq![v as u8],
        128 <= v < 16384 ==> varint_bytes(v) == seq![(v % 128 + 128) as u8, (v / 128) as u8],
{
    reveal_with_fuel(varint_bytes, 2);
    if 128 <= v < 16384 {
        assert(varint_bytes(v) =~= seq![(v % 128 + 128) as u8, (v / 128) as u8]);
    }
}

/// The encoder writes a chat message field by field, in the order and under
/// the numbers of the protocol definition.
pub proof fn law_chat_message_layout(v: ChatMessageView)
    ensures
        chat_message_bytes(v) == chat_message_layout(v),
{
    lemma_keys();
    lemma_string_lit(1, seq![0x0au8], v.id);
    lemma_int32_lit(2, seq![0x10u8], v.chat_room_id);
    lemma_int32_lit(4, seq![0x20u8], v.sender_id);
    lemma_string_lit(5, seq![0x2au8], v.content);
    lemma_string_lit(6, seq![0x32u8], v.images_path);
    lemma_string_lit(7, seq![0x3au8], v.files_path);
    lemma_string_lit(8, seq![0x42u8], v.videos_path);
    lemma_int64_lit(9, seq![0x48u8], v.send_time);
    lemma_int64_lit(10, seq![0x50u8], v.created_time);
    lemma_string_lit(11, seq![0x5au8], v.sender_name);
    lemma_string_lit(12, seq![0x62u8], v.sender_avatar);
    lemma_int32_lit(13, seq![0x68u8], v.receiver_id);
    lemma_bool_lit(14, seq![0x70u8], v.is_read);
    lemma_string_lit(15, seq![0x7au8], v.chat_room_name);
    lemma_int32_lit(16, seq![0x80u8, 0x01u8], v.read_count);
    lemma_int32_lit(21, seq![0xa8u8, 0x01u8], v.receiver_count);
    lemma_strings_lit(22, seq![0xb2u8, 0x01u8], v.image_path_list);
    lemma_strings_lit(23, seq![0xbau8, 0x01u8], v.file_path_list);
    lemma_strings_lit(24, seq![0xc2u8, 0x01u8], v.video_path_list);
}

/// The encoder writes a login message under the protocol's numbers.
pub proof fn law_login_layout(v: LoginMessageView)
    ensures
        login_bytes(v) == login_layout(v),
{
    lemma_keys();
    lemma_int32_lit(1, seq![0x08u8], v.user_id);
    lemma_string_lit(2, seq![0x12u8], v.username);
}

/// The encoder writes a single or group message under the protocol's
/// numbers, its chat message included.
pub proof fn law_addressed_layout(v: AddressedView)
    ensures
        addressed_bytes(v) == addressed_layout(v),
{
    lemma_keys();
    lemma_int32_lit(1, seq![0x08u8], v.id);
    lemma_string_lit(2, seq![0x12u8], v.name);
    if let Some(c) = v.chat_message {
        law_chat_message_layout(c);
        assert(chat_message_field(3, v.chat_message) == lit_len(seq![0x1au8], chat_message_layout(c)));
    }
}

/// The encoder writes an acknowledgement under the protocol's numbers.
pub proof fn law_ack_layout(v: AckMessageView)
    ensures
        ack_bytes(v) == ack_layout(v),
{
    lemma_keys();
    lemma_int32_lit(1, seq![0x08u8], v.code);
    lemma_string_lit(2, seq![0x12u8], v.msg_content);
    lemma_string_lit(3, seq![0x1au8], v.msg_id);
    lemma_int32_lit(4, seq![0x20u8], v.room_id);
    lemma_int32_lit(5, seq![0x28u8], v.user_id);
    lemma_int32_lit(6, seq![0x30u8], v.msg_type);
}

/// The encoder writes the other payloads under the protocol's numbers.
pub proof fn law_small_payload_layouts(
    r: RollbackMessageView,
    t: TaskReadMessageView,
    p: ResponseMessageView,
)
    ensures
        rollback_bytes(r) == rollback_layout(r),
        task_read_bytes(t) == task_read_layout(t),
        response_bytes(p) == response_layout(p),
{
    lemma_keys();
    lemma_string_lit(1, seq![0x0au8], r.msg_id);
    lemma_int32_lit(2, seq![0x10u8], r.room_id);
    lemma_string_lit(1, seq![0x0au8], t.msg_id);
    lemma_int32_lit(2, seq![0x10u8], t.room_id);
    lemma_string_lit(3, seq![0x1au8], t.user_id);
    lemma_int32_lit(1, seq![0x08u8], p.code);
    lemma_string_lit(2, seq![0x12u8], p.msg);
    lemma_string_lit(3, seq![0x1au8], p.msg_id);
}

/// The encoder writes a packet under the protocol's numbers: token 2, kind
/// 3, and its payload under the field of its kind.
pub proof fn law_pack_layout(p: PackView)
    ensures
        pack_bytes(p) == pack_layout(p),
{
    lemma_keys();
    lemma_string_lit(2, seq![0x12u8], p.token);
    lemma_int32_lit(3, seq![0x18u8], p.msg_type);
    if let Some(o) = p.obj {
        match o {
            ObjView::Login(m) => {
                law_login_layout(m);
            },
            ObjView::Single(m) => {
                law_addressed_layout(m);
            },
            ObjView::Group(m) => {
                law_addressed_layout(m);
            },
            ObjView::Ack(m) => {
                law_ack_layout(m);
            },
            ObjView::Rollback(m) => {
                law_small_payload_layouts(m, TaskReadMessageView { msg_id: Seq::empty(), room_id: 0, user_id: Seq::empty() }, ResponseMessageView { code: 0, msg: Seq::empty(), msg_id: Seq::empty() });
            },
            ObjView::TaskRead(m) => {
                law_small_payload_layouts(RollbackMessageView { msg_id: Seq::empty(), room_id: 0 }, m, ResponseMessageView { code: 0, msg: Seq::empty(), msg_id: Seq::empty() });
            },
            ObjView::Response(m) => {
                law_small_payload_layouts(RollbackMessageView { msg_id: Seq::empty(), room_id: 0 }, TaskReadMessageView { msg_id: Seq::empty(), room_id: 0, user_id: Seq::empty() }, m);
            },
        }
        assert(obj_field(o) == obj_layout(o));
    }
}

/// The decoder reads a chat message laid out under the protocol's numbers
/// back whole.
pub proof fn law_chat_message_decodes_layout(v: ChatMessageView)
    requires
        chat_message_layout(v).len() <= u64::MAX,
    ensures
        decode_chat_message_spec(chat_message_layout(v)) == Some(v),
{
    law_chat_message_layout(v);
    law_chat_message_round_trip(v);
}

/// The decoder reads a packet laid out under the protocol's numbers back
/// whole, its payload included.
pub proof fn law_pack_decodes_layout(p: PackView)
    requires
        pack_layout(p).len() <= u64::MAX,
    ensures
        decode_pack_spec(pack_layout(p)) == Some(p),
{
    law_pack_layout(p);
    law_pack_round_trip(p);
}

/// Field 5 of a chat message is its content and field 6 its images path: a
/// chat message that holds only the key `5 << 3 | 2`, a one-byte length and
/// UTF-8 text decodes with that text as its content, and with the key
/// `6 << 3 | 2` as its images path.
pub proof fn law_content_is_field_5(s: Seq<char>)
    requires
        0 < encode_utf8(s).len() < 128,
    ensures
        decode_chat_message_spec(seq![0x2au8, encode_utf8(s).len() as u8] + encode_utf8(s))
            == Some(ChatMessageView { content: s, ..chat_message_default() }),
        decode_chat_message_spec(seq![0x32u8, encode_utf8(s).len() as u8] + encode_utf8(s))
            == Some(ChatMessageView { images_path: s, ..chat_message_default() }),
{
    let e = encode_utf8(s);
    assert(s.len() > 0) by {
        if s.len() == 0 {
            assert(encode_utf8(s) =~= Seq::<u8>::empty());
        }
    }
    law_varint_layout(e.len());
    let a = ChatMessageView { content: s, ..chat_message_default() };
    let b = ChatMessageView { images_path: s, ..chat_message_default() };
    assert(lit_strings(seq![0xb2u8, 0x01u8], Seq::<Seq<char>>::empty()) == Seq::<u8>::empty());
    assert(chat_message_layout(a) =~= seq![0x2au8, e.len() as u8] + e);
    assert(chat_message_layout(b) =~= seq![0x32u8, e.len() as u8] + e);
    law_chat_message_decodes_layout(a);
    law_chat_message_decodes_layout(b);
}

/// A later occurrence of a field overrides an earlier one: a chat message
/// whose content field comes twice decodes with the second text.
pub proof fn law_last_content_wins(s1: Seq<char>, s2: Seq<char>)
    requires
        s1.len() > 0,
        s2.len() > 0,
        encode_utf8(s1).len() <= u64::MAX,
        encode_utf8(s2).len() <= u64::MAX,
    ensures
        decode_chat_message_spec(lit_string(seq![0x2au8], s1) + lit_string(seq![0x2au8], s2))
            == Some(ChatMessageView { content: s2, ..chat_message_default() }),
{
    lemma_keys();
    lemma_string_lit(5, seq![0x2au8], s1);
    lemma_string_lit(5, seq![0x2au8], s2);
    let ctx = RECURSION_LIMIT as nat;
    let m0 = chat_message_default();
    let m1 = ChatMessageView { content: s1, ..m0 };
    let m2 = ChatMessageView { content: s2, ..m0 };
    assert(ChatMessageView { content: s2, ..m1 } == m2);
    lemma_string_step(chat_message_step(), m0, m1, 5, s1, string_field(5, s2), ctx);
    lemma_string_step(chat_message_step(), m1, m2, 5, s2, Seq::empty(), ctx);
    assert(string_field(5, s2) + Seq::<u8>::empty() =~= string_field(5, s2));
}

/// A field that a chat message does not declare is passed over: a varint
/// under number 3, which `ChatMessage` leaves unused, changes nothing.
pub proof fn law_unknown_field_is_skipped(x: u64, v: ChatMessageView)
    requires
        chat_message_layout(v).len() <= u64::MAX,
    ensures
        decode_chat_message_spec(seq![0x18u8] + varint_bytes(x as nat) + chat_message_layout(v))
            == Some(v),
{
    lemma_keys();
    let ctx = RECURSION_LIMIT as nat;
    let f = seq![0x18u8] + varint_bytes(x as nat);
    let rest = chat_message_layout(v);
    lemma_read_varint_field(3, x, rest, ctx);
    assert(f =~= crate::encode::varint_field(3, x));
    lemma_merge_step(chat_message_step(), chat_message_default(), f, rest, ctx, 3, 0, FieldValue::Varint(x));
    assert(seq![0x18u8] + varint_bytes(x as nat) + chat_message_layout(v) =~= f + rest);
    law_chat_message_decodes_layout(v);
}

} // verus!
