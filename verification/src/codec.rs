//! Encoding and decoding whole messages, and the laws that tie the two
//! together.
use vstd::prelude::*;
use vstd::utf8::*;
use vstd::seq_lib::lemma_concat_associative;
use crate::msg_type::{MsgType, law_value_round_trip, msg_type_of_value, msg_type_value};
use crate::wire::{
    DecodeError, EncodeError, FieldValue, RECURSION_LIMIT, WIRE_LEN, WIRE_VARINT, key_bytes, lemma_key_round_trip,
    lemma_len_delimited_round_trip, lemma_varint_round_trip, read_field, varint_bytes,
};
use crate::encode::{
    ack_bytes, addressed_bytes, bool_field, chat_message_bytes, chat_message_field, int32_field,
    int64_field, len_field, login_bytes, response_bytes, rollback_bytes, string_field,
    strings_field, task_read_bytes, varint_field, obj_field, pack_bytes, encode_pack_raw,
    encode_chat_message_raw,
};
use crate::decode::{
    ack_step, addressed_step, chat_message_step, login_step, merge_chat_message, merge_fields,
    merge_login, response_step, rollback_step, task_read_step, merge_pack, pack_step,
    decode_pack_spec, decode_chat_message_spec, merge_pack_bytes, merge_chat_message_bytes,
};
use crate::message::{
    AckMessageView, AddressedView, ChatMessageView, LoginMessageView, ResponseMessageView,
    RollbackMessageView, TaskReadMessageView, ack_default, addressed_default,
    chat_message_default, login_default, response_default, rollback_default, task_read_default,
    ChatMessage, ChatMessagePack, ObjView, PackView, pack_default,
};

verus! {

broadcast use {vstd::utf8::encode_utf8_valid_utf8, vstd::utf8::encode_utf8_decode_utf8};

/// One field that reads as `(tag, w, v)` and takes all of `f` is applied, and
/// the rest is merged after it.
pub proof fn lemma_merge_step<M>(
    apply: spec_fn(M, u32, FieldValue, nat) -> Option<M>,
    m: M,
    f: Seq<u8>,
    rest: Seq<u8>,
    ctx: nat,
    tag: u32,
    w: u8,
    v: FieldValue,
)
    requires
        f.len() > 0,
        read_field(f + rest, ctx) == Some((tag, w, v, f.len())),
    ensures
        merge_fields(apply, m, f + rest, ctx) == match apply(m, tag, v, ctx) {
            None => None,
            Some(m2) => merge_fields(apply, m2, rest, ctx),
        },
{
    assert((f + rest).skip(f.len() as int) =~= rest);
}

/// A varint field reads back as its tag and value.
pub proof fn lemma_read_varint_field(tag: u32, x: u64, rest: Seq<u8>, ctx: nat)
    requires
        1 <= tag < 0x2000_0000,
    ensures
        read_field(varint_field(tag as nat, x) + rest, ctx) == Some(
            (tag, WIRE_VARINT, FieldValue::Varint(x), varint_field(tag as nat, x).len()),
        ),
        varint_field(tag as nat, x).len() > 0,
{
    let k = key_bytes(tag as nat, WIRE_VARINT as nat);
    let vb = varint_bytes(x as nat);
    lemma_key_round_trip(tag, WIRE_VARINT, vb + rest);
    lemma_varint_round_trip(x, rest);
    assert(k + vb + rest =~= k + (vb + rest));
    assert((k + (vb + rest)).skip(k.len() as int) =~= vb + rest);
}

/// A length-delimited field reads back as its tag and payload.
pub proof fn lemma_read_len_field(tag: u32, p: Seq<u8>, rest: Seq<u8>, ctx: nat)
    requires
        1 <= tag < 0x2000_0000,
        p.len() <= u64::MAX,
    ensures
        read_field(len_field(tag as nat, p) + rest, ctx) == Some(
            (tag, WIRE_LEN, FieldValue::Bytes(p), len_field(tag as nat, p).len()),
        ),
        len_field(tag as nat, p).len() > p.len(),
{
    let k = key_bytes(tag as nat, WIRE_LEN as nat);
    let h = varint_bytes(p.len());
    lemma_key_round_trip(tag, WIRE_LEN, h + p + rest);
    lemma_len_delimited_round_trip(p, rest);
    assert(k + h + p + rest =~= k + (h + p + rest));
    assert((k + (h + p + rest)).skip(k.len() as int) =~= h + p + rest);
    lemma_varint_round_trip(p.len() as u64, Seq::empty());
}

/// An `int32` field, or its absence when zero, steps from `m` to `m2`.
pub proof fn lemma_int32_step<M>(
    apply: spec_fn(M, u32, FieldValue, nat) -> Option<M>,
    m: M,
    m2: M,
    tag: u32,
    x: i32,
    rest: Seq<u8>,
    ctx: nat,
)
    requires
        1 <= tag < 0x2000_0000,
        x != 0 ==> apply(m, tag, FieldValue::Varint(x as u64), ctx) == Some(m2),
        x == 0 ==> m2 == m,
    ensures
        merge_fields(apply, m, int32_field(tag as nat, x) + rest, ctx) == merge_fields(
            apply,
            m2,
            rest,
            ctx,
        ),
{
    if x == 0 {
        assert(int32_field(tag as nat, x) + rest =~= rest);
    } else {
        lemma_read_varint_field(tag, x as u64, rest, ctx);
        lemma_merge_step(
            apply,
            m,
            varint_field(tag as nat, x as u64),
            rest,
            ctx,
            tag,
            WIRE_VARINT,
            FieldValue::Varint(x as u64),
        );
    }
}

/// An `int64` field, or its absence when zero, steps from `m` to `m2`.
pub proof fn lemma_int64_step<M>(
    apply: spec_fn(M, u32, FieldValue, nat) -> Option<M>,
    m: M,
    m2: M,
    tag: u32,
    x: i64,
    rest: Seq<u8>,
    ctx: nat,
)
    requires
        1 <= tag < 0x2000_0000,
        x != 0 ==> apply(m, tag, FieldValue::Varint(x as u64), ctx) == Some(m2),
        x == 0 ==> m2 == m,
    ensures
        merge_fields(apply, m, int64_field(tag as nat, x) + rest, ctx) == merge_fields(
            apply,
            m2,
            rest,
            ctx,
        ),
{
    if x == 0 {
        assert(int64_field(tag as nat, x) + rest =~= rest);
    } else {
        lemma_read_varint_field(tag, x as u64, rest, ctx);
        lemma_merge_step(
            apply,
            m,
            varint_field(tag as nat, x as u64),
            rest,
            ctx,
            tag,
            WIRE_VARINT,
            FieldValue::Varint(x as u64),
        );
    }
}

/// A `bool` field, or its absence when false, steps from `m` to `m2`.
pub proof fn lemma_bool_step<M>(
    apply: spec_fn(M, u32, FieldValue, nat) -> Option<M>,
    m: M,
    m2: M,
    tag: u32,
    b: bool,
    rest: Seq<u8>,
    ctx: nat,
)
    requires
        1 <= tag < 0x2000_0000,
        b ==> apply(m, tag, FieldValue::Varint(1), ctx) == Some(m2),
        !b ==> m2 == m,
    ensures
        merge_fields(apply, m, bool_field(tag as nat, b) + rest, ctx) == merge_fields(
            apply,
            m2,
            rest,
            ctx,
        ),
{
    if !b {
        assert(bool_field(tag as nat, b) + rest =~= rest);
    } else {
        lemma_read_varint_field(tag, 1, rest, ctx);
        lemma_merge_step(
            apply,
            m,
            varint_field(tag as nat, 1),
            rest,
            ctx,
            tag,
            WIRE_VARINT,
            FieldValue::Varint(1),
        );
    }
}

/// A length-delimited field with payload `p` steps from `m` to `m2`.
pub proof fn lemma_bytes_step<M>(
    apply: spec_fn(M, u32, FieldValue, nat) -> Option<M>,
    m: M,
    m2: M,
    tag: u32,
    p: Seq<u8>,
    rest: Seq<u8>,
    ctx: nat,
)
    requires
        1 <= tag < 0x2000_0000,
        p.len() <= u64::MAX,
        apply(m, tag, FieldValue::Bytes(p), ctx) == Some(m2),
    ensures
        merge_fields(apply, m, len_field(tag as nat, p) + rest, ctx) == merge_fields(
            apply,
            m2,
            rest,
            ctx,
        ),
{
    lemma_read_len_field(tag, p, rest, ctx);
    lemma_merge_step(
        apply,
        m,
        len_field(tag as nat, p),
        rest,
        ctx,
        tag,
        WIRE_LEN,
        FieldValue::Bytes(p),
    );
}

/// A `string` field, or its absence when empty, steps from `m` to `m2`.
pub proof fn lemma_string_step<M>(
    apply: spec_fn(M, u32, FieldValue, nat) -> Option<M>,
    m: M,
    m2: M,
    tag: u32,
    s: Seq<char>,
    rest: Seq<u8>,
    ctx: nat,
)
    requires
        1 <= tag < 0x2000_0000,
        encode_utf8(s).len() <= u64::MAX,
        s.len() > 0 ==> apply(m, tag, FieldValue::Bytes(encode_utf8(s)), ctx) == Some(m2),
        s.len() == 0 ==> m2 == m,
    ensures
        merge_fields(apply, m, string_field(tag as nat, s) + rest, ctx) == merge_fields(
            apply,
            m2,
            rest,
            ctx,
        ),
{
    if s.len() == 0 {
        assert(string_field(tag as nat, s) + rest =~= rest);
    } else {
        lemma_bytes_step(apply, m, m2, tag, encode_utf8(s), rest, ctx);
    }
}

/// The `int32` that a varint field carries is the number it was written from.
pub proof fn lemma_int32_value(x: i32)
    ensures
        ((x as u64) as i32) == x,
{
    assert(((x as u64) as i32) == x) by (bit_vector);
}

/// The `int64` that a varint field carries is the number it was written from.
pub proof fn lemma_int64_value(x: i64)
    ensures
        ((x as u64) as i64) == x,
{
    assert(((x as u64) as i64) == x) by (bit_vector);
}

/// Merging nothing leaves the message as it is.
pub proof fn lemma_merge_nothing<M>(
    apply: spec_fn(M, u32, FieldValue, nat) -> Option<M>,
    m: M,
    ctx: nat,
)
    ensures
        merge_fields(apply, m, Seq::empty(), ctx) == Some(m),
{
}

/// The fields of a `LoginMessage`, read into a message at its defaults,
/// give that message back; what follows them is read after.
pub proof fn lemma_login_fields(v: LoginMessageView, rest: Seq<u8>, ctx: nat)
    requires
        login_bytes(v).len() <= u64::MAX,
    ensures
        merge_login(login_default(), login_bytes(v) + rest, ctx) == merge_login(v, rest, ctx),
{
    let q1 = int32_field(1, v.user_id);
    let q2 = string_field(2, v.username);
    let m0 = login_default();
    let m1 = LoginMessageView { user_id: v.user_id, ..m0 };
    lemma_int32_value(v.user_id);
    lemma_concat_associative(q1, q2, rest);
    lemma_int32_step(login_step(), m0, m1, 1, v.user_id, q2 + rest, ctx);
    if v.username.len() == 0 {
        assert(v.username =~= Seq::<char>::empty());
    }
    assert(m1.username == Seq::<char>::empty());
    lemma_string_step(login_step(), m1, v, 2, v.username, rest, ctx);
}


/// A chat message with `w` appended to its list of tag `tag` (22, 23 or
/// 24).
pub open spec fn chat_list_append(m: ChatMessageView, tag: u32, w: Seq<Seq<char>>) -> ChatMessageView {
    if tag == 22 {
        ChatMessageView { image_path_list: m.image_path_list + w, ..m }
    } else if tag == 23 {
        ChatMessageView { file_path_list: m.file_path_list + w, ..m }
    } else {
        ChatMessageView { video_path_list: m.video_path_list + w, ..m }
    }
}

/// The entries of a repeated string field of a chat message are appended to
/// its list, in order.
pub proof fn lemma_chat_list_fields(
    m: ChatMessageView,
    tag: u32,
    w: Seq<Seq<char>>,
    rest: Seq<u8>,
    ctx: nat,
)
    requires
        tag == 22 || tag == 23 || tag == 24,
        strings_field(tag as nat, w).len() <= u64::MAX,
    ensures
        merge_chat_message(m, strings_field(tag as nat, w) + rest, ctx) == merge_chat_message(
            chat_list_append(m, tag, w),
            rest,
            ctx,
        ),
    decreases w.len(),
{
    if w.len() == 0 {
        assert(strings_field(tag as nat, w) + rest =~= rest);
        assert(chat_list_append(m, tag, w) =~= m);
    } else {
        let p = encode_utf8(w[0]);
        let f = len_field(tag as nat, p);
        let t = strings_field(tag as nat, w.drop_first());
        lemma_concat_associative(f, t, rest);
        let m1 = chat_list_append(m, tag, seq![w[0]]);
        assert(m.image_path_list.push(w[0]) =~= m.image_path_list + seq![w[0]]);
        assert(m.file_path_list.push(w[0]) =~= m.file_path_list + seq![w[0]]);
        assert(m.video_path_list.push(w[0]) =~= m.video_path_list + seq![w[0]]);
        assert(decode_utf8(p) == w[0]);
        lemma_bytes_step(chat_message_step(), m, m1, tag, p, t + rest, ctx);
        lemma_chat_list_fields(m1, tag, w.drop_first(), rest, ctx);
        assert(chat_list_append(m1, tag, w.drop_first()) =~= chat_list_append(m, tag, w));
    }
}

/// The fields of an `AckMessage`, read into a message at its defaults, give that message back; what follows them is read after.
pub proof fn lemma_ack_fields(v: AckMessageView, rest: Seq<u8>, ctx: nat)
    requires
        ack_bytes(v).len() <= u64::MAX,
    ensures
        merge_fields(ack_step(), ack_default(), ack_bytes(v) + rest, ctx) == merge_fields(ack_step(), v, rest, ctx),
{
    let q1 = int32_field(1, v.code);
    let q2 = string_field(2, v.msg_content);
    let q3 = string_field(3, v.msg_id);
    let q4 = int32_field(4, v.room_id);
    let q5 = int32_field(5, v.user_id);
    let q6 = int32_field(6, v.msg_type);
    let m0 = ack_default();
    let m1 = AckMessageView { code: v.code, ..m0 };
    let m2 = AckMessageView { msg_content: v.msg_content, ..m1 };
    let m3 = AckMessageView { msg_id: v.msg_id, ..m2 };
    let m4 = AckMessageView { room_id: v.room_id, ..m3 };
    let m5 = AckMessageView { user_id: v.user_id, ..m4 };
    let m6 = v;
    let r7 = rest;
    let r6 = q6 + r7;
    let r5 = q5 + r6;
    let r4 = q4 + r5;
    let r3 = q3 + r4;
    let r2 = q2 + r3;
    let r1 = q1 + r2;
    let p1 = q1;
    let p2 = p1 + q2;
    let p3 = p2 + q3;
    let p4 = p3 + q4;
    let p5 = p4 + q5;
    let p6 = p5 + q6;
    assert(ack_bytes(v) == p6);
    lemma_concat_associative(p5, q6, r7);
    lemma_concat_associative(p4, q5, r6);
    lemma_concat_associative(p3, q4, r5);
    lemma_concat_associative(p2, q3, r4);
    lemma_concat_associative(p1, q2, r3);
    lemma_int32_value(v.code);
    lemma_int32_step(ack_step(), m0, m1, 1, v.code, r2, ctx);
    if v.msg_content.len() == 0 {
        assert(v.msg_content =~= Seq::<char>::empty());
    }
    assert(m2.msg_content == v.msg_content);
    lemma_string_step(ack_step(), m1, m2, 2, v.msg_content, r3, ctx);
    if v.msg_id.len() == 0 {
        assert(v.msg_id =~= Seq::<char>::empty());
    }
    assert(m3.msg_id == v.msg_id);
    lemma_string_step(ack_step(), m2, m3, 3, v.msg_id, r4, ctx);
    lemma_int32_value(v.room_id);
    lemma_int32_step(ack_step(), m3, m4, 4, v.room_id, r5, ctx);
    lemma_int32_value(v.user_id);
    lemma_int32_step(ack_step(), m4, m5, 5, v.user_id, r6, ctx);
    lemma_int32_value(v.msg_type);
    lemma_int32_step(ack_step(), m5, m6, 6, v.msg_type, r7, ctx);
}

/// The fields of a `RollbackMessage`, read into a message at its defaults, give that message back; what follows them is read after.
pub proof fn lemma_rollback_fields(v: RollbackMessageView, rest: Seq<u8>, ctx: nat)
    requires
        rollback_bytes(v).len() <= u64::MAX,
    ensures
        merge_fields(rollback_step(), rollback_default(), rollback_bytes(v) + rest, ctx) == merge_fields(rollback_step(), v, rest, ctx),
{
    let q1 = string_field(1, v.msg_id);
    let q2 = int32_field(2, v.room_id);
    let m0 = rollback_default();
    let m1 = RollbackMessageView { msg_id: v.msg_id, ..m0 };
    let m2 = v;
    let r3 = rest;
    let r2 = q2 + r3;
    let r1 = q1 + r2;
    let p1 = q1;
    let p2 = p1 + q2;
    assert(rollback_bytes(v) == p2);
    lemma_concat_associative(p1, q2, r3);
    if v.msg_id.len() == 0 {
        assert(v.msg_id =~= Seq::<char>::empty());
    }
    assert(m1.msg_id == v.msg_id);
    lemma_string_step(rollback_step(), m0, m1, 1, v.msg_id, r2, ctx);
    lemma_int32_value(v.room_id);
    lemma_int32_step(rollback_step(), m1, m2, 2, v.room_id, r3, ctx);
}

/// The fields of a `TaskReadMessage`, read into a message at its defaults, give that message back; what follows them is read after.
pub proof fn lemma_task_read_fields(v: TaskReadMessageView, rest: Seq<u8>, ctx: nat)
    requires
        task_read_bytes(v).len() <= u64::MAX,
    ensures
        merge_fields(task_read_step(), task_read_default(), task_read_bytes(v) + rest, ctx) == merge_fields(task_read_step(), v, rest, ctx),
{
    let q1 = string_field(1, v.msg_id);
    let q2 = int32_field(2, v.room_id);
    let q3 = string_field(3, v.user_id);
    let m0 = task_read_default();
    let m1 = TaskReadMessageView { msg_id: v.msg_id, ..m0 };
    let m2 = TaskReadMessageView { room_id: v.room_id, ..m1 };
    let m3 = v;
    let r4 = rest;
    let r3 = q3 + r4;
    let r2 = q2 + r3;
    let r1 = q1 + r2;
    let p1 = q1;
    let p2 = p1 + q2;
    let p3 = p2 + q3;
    assert(task_read_bytes(v) == p3);
    lemma_concat_associative(p2, q3, r4);
    lemma_concat_associative(p1, q2, r3);
    if v.msg_id.len() == 0 {
        assert(v.msg_id =~= Seq::<char>::empty());
    }
    assert(m1.msg_id == v.msg_id);
    lemma_string_step(task_read_step(), m0, m1, 1, v.msg_id, r2, ctx);
    lemma_int32_value(v.room_id);
    lemma_int32_step(task_read_step(), m1, m2, 2, v.room_id, r3, ctx);
    if v.user_id.len() == 0 {
        assert(v.user_id =~= Seq::<char>::empty());
    }
    assert(m3.user_id == v.user_id);
    lemma_string_step(task_read_step(), m2, m3, 3, v.user_id, r4, ctx);
}

/// The fields of a `ResponseMessage`, read into a message at its defaults, give that message back; what follows them is read after.
pub proof fn lemma_response_fields(v: ResponseMessageView, rest: Seq<u8>, ctx: nat)
    requires
        response_bytes(v).len() <= u64::MAX,
    ensures
        merge_fields(response_step(), response_default(), response_bytes(v) + rest, ctx) == merge_fields(response_step(), v, rest, ctx),
{
    let q1 = int32_field(1, v.code);
    let q2 = string_field(2, v.msg);
    let q3 = string_field(3, v.msg_id);
    let m0 = response_default();
    let m1 = ResponseMessageView { code: v.code, ..m0 };
    let m2 = ResponseMessageView { msg: v.msg, ..m1 };
    let m3 = v;
    let r4 = rest;
    let r3 = q3 + r4;
    let r2 = q2 + r3;
    let r1 = q1 + r2;
    let p1 = q1;
    let p2 = p1 + q2;
    let p3 = p2 + q3;
    assert(response_bytes(v) == p3);
    lemma_concat_associative(p2, q3, r4);
    lemma_concat_associative(p1, q2, r3);
    lemma_int32_value(v.code);
    lemma_int32_step(response_step(), m0, m1, 1, v.code, r2, ctx);
    if v.msg.len() == 0 {
        assert(v.msg =~= Seq::<char>::empty());
    }
    assert(m2.msg == v.msg);
    lemma_string_step(response_step(), m1, m2, 2, v.msg, r3, ctx);
    if v.msg_id.len() == 0 {
        assert(v.msg_id =~= Seq::<char>::empty());
    }
    assert(m3.msg_id == v.msg_id);
    lemma_string_step(response_step(), m2, m3, 3, v.msg_id, r4, ctx);
}

/// The fields of group `a` of a `ChatMessage`.
pub open spec fn chat_part_a(v: ChatMessageView) -> Seq<u8> {
    string_field(1, v.id) + int32_field(2, v.chat_room_id) + int32_field(4, v.sender_id) + string_field(5, v.content) + string_field(6, v.images_path)
}

/// `m` with the fields of group `a` taken from `v`.
pub open spec fn chat_with_a(m: ChatMessageView, v: ChatMessageView) -> ChatMessageView {
    ChatMessageView { id: v.id, chat_room_id: v.chat_room_id, sender_id: v.sender_id, content: v.content, images_path: v.images_path, ..m }
}

/// The fields of group `a` of a chat message set those fields, if they
/// were at their defaults; what follows them is read after.
pub proof fn lemma_chat_part_a(m: ChatMessageView, v: ChatMessageView, rest: Seq<u8>, ctx: nat)
    requires
        m.id == Seq::<char>::empty(),
        m.chat_room_id == 0,
        m.sender_id == 0,
        m.content == Seq::<char>::empty(),
        m.images_path == Seq::<char>::empty(),
        chat_part_a(v).len() <= u64::MAX,
    ensures
        merge_chat_message(m, chat_part_a(v) + rest, ctx) == merge_chat_message(
            chat_with_a(m, v),
            rest,
            ctx,
        ),
{
    let q1 = string_field(1, v.id);
    let q2 = int32_field(2, v.chat_room_id);
    let q3 = int32_field(4, v.sender_id);
    let q4 = string_field(5, v.content);
    let q5 = string_field(6, v.images_path);
    let m0 = m;
    let m1 = ChatMessageView { id: v.id, ..m0 };
    let m2 = ChatMessageView { chat_room_id: v.chat_room_id, ..m1 };
    let m3 = ChatMessageView { sender_id: v.sender_id, ..m2 };
    let m4 = ChatMessageView { content: v.content, ..m3 };
    let m5 = ChatMessageView { images_path: v.images_path, ..m4 };
    let r6 = rest;
    let r5 = q5 + r6;
    let r4 = q4 + r5;
    let r3 = q3 + r4;
    let r2 = q2 + r3;
    let r1 = q1 + r2;
    let p1 = q1;
    let p2 = p1 + q2;
    let p3 = p2 + q3;
    let p4 = p3 + q4;
    let p5 = p4 + q5;
    assert(chat_part_a(v) == p5);
    lemma_concat_associative(p4, q5, r6);
    lemma_concat_associative(p3, q4, r5);
    lemma_concat_associative(p2, q3, r4);
    lemma_concat_associative(p1, q2, r3);
    if v.id.len() == 0 {
        assert(v.id =~= Seq::<char>::empty());
    }
    assert(m1.id == v.id);
    lemma_string_step(chat_message_step(), m0, m1, 1, v.id, r2, ctx);
    lemma_int32_value(v.chat_room_id);
    lemma_int32_step(chat_message_step(), m1, m2, 2, v.chat_room_id, r3, ctx);
    lemma_int32_value(v.sender_id);
    lemma_int32_step(chat_message_step(), m2, m3, 4, v.sender_id, r4, ctx);
    if v.content.len() == 0 {
        assert(v.content =~= Seq::<char>::empty());
    }
    assert(m4.content == v.content);
    lemma_string_step(chat_message_step(), m3, m4, 5, v.content, r5, ctx);
    if v.images_path.len() == 0 {
        assert(v.images_path =~= Seq::<char>::empty());
    }
    assert(m5.images_path == v.images_path);
    lemma_string_step(chat_message_step(), m4, m5, 6, v.images_path, r6, ctx);
    assert(m5 == chat_with_a(m, v));
}

/// The fields of group `b` of a `ChatMessage`.
pub open spec fn chat_part_b(v: ChatMessageView) -> Seq<u8> {
    string_field(7, v.files_path) + string_field(8, v.videos_path) + int64_field(9, v.send_time) + int64_field(10, v.created_time) + string_field(11, v.sender_name)
}

/// `m` with the fields of group `b` taken from `v`.
pub open spec fn chat_with_b(m: ChatMessageView, v: ChatMessageView) -> ChatMessageView {
    ChatMessageView { files_path: v.files_path, videos_path: v.videos_path, send_time: v.send_time, created_time: v.created_time, sender_name: v.sender_name, ..m }
}

/// The fields of group `b` of a chat message set those fields, if they
/// were at their defaults; what follows them is read after.
pub proof fn lemma_chat_part_b(m: ChatMessageView, v: ChatMessageView, rest: Seq<u8>, ctx: nat)
    requires
        m.files_path == Seq::<char>::empty(),
        m.videos_path == Seq::<char>::empty(),
        m.send_time == 0,
        m.created_time == 0,
        m.sender_name == Seq::<char>::empty(),
        chat_part_b(v).len() <= u64::MAX,
    ensures
        merge_chat_message(m, chat_part_b(v) + rest, ctx) == merge_chat_message(
            chat_with_b(m, v),
            rest,
            ctx,
        ),
{
    let q1 = string_field(7, v.files_path);
    let q2 = string_field(8, v.videos_path);
    let q3 = int64_field(9, v.send_time);
    let q4 = int64_field(10, v.created_time);
    let q5 = string_field(11, v.sender_name);
    let m0 = m;
    let m1 = ChatMessageView { files_path: v.files_path, ..m0 };
    let m2 = ChatMessageView { videos_path: v.videos_path, ..m1 };
    let m3 = ChatMessageView { send_time: v.send_time, ..m2 };
    let m4 = ChatMessageView { created_time: v.created_time, ..m3 };
    let m5 = ChatMessageView { sender_name: v.sender_name, ..m4 };
    let r6 = rest;
    let r5 = q5 + r6;
    let r4 = q4 + r5;
    let r3 = q3 + r4;
    let r2 = q2 + r3;
    let r1 = q1 + r2;
    let p1 = q1;
    let p2 = p1 + q2;
    let p3 = p2 + q3;
    let p4 = p3 + q4;
    let p5 = p4 + q5;
    assert(chat_part_b(v) == p5);
    lemma_concat_associative(p4, q5, r6);
    lemma_concat_associative(p3, q4, r5);
    lemma_concat_associative(p2, q3, r4);
    lemma_concat_associative(p1, q2, r3);
    if v.files_path.len() == 0 {
        assert(v.files_path =~= Seq::<char>::empty());
    }
    assert(m1.files_path == v.files_path);
    lemma_string_step(chat_message_step(), m0, m1, 7, v.files_path, r2, ctx);
    if v.videos_path.len() == 0 {
        assert(v.videos_path =~= Seq::<char>::empty());
    }
    assert(m2.videos_path == v.videos_path);
    lemma_string_step(chat_message_step(), m1, m2, 8, v.videos_path, r3, ctx);
    lemma_int64_value(v.send_time);
    lemma_int64_step(chat_message_step(), m2, m3, 9, v.send_time, r4, ctx);
    lemma_int64_value(v.created_time);
    lemma_int64_step(chat_message_step(), m3, m4, 10, v.created_time, r5, ctx);
    if v.sender_name.len() == 0 {
        assert(v.sender_name =~= Seq::<char>::empty());
    }
    assert(m5.sender_name == v.sender_name);
    lemma_string_step(chat_message_step(), m4, m5, 11, v.sender_name, r6, ctx);
    assert(m5 == chat_with_b(m, v));
}

/// The fields of group `c` of a `ChatMessage`.
pub open spec fn chat_part_c(v: ChatMessageView) -> Seq<u8> {
    string_field(12, v.sender_avatar) + int32_field(13, v.receiver_id) + bool_field(14, v.is_read) + string_field(15, v.chat_room_name) + int32_field(16, v.read_count) + int32_field(21, v.receiver_count)
}

/// `m` with the fields of group `c` taken from `v`.
pub open spec fn chat_with_c(m: ChatMessageView, v: ChatMessageView) -> ChatMessageView {
    ChatMessageView { sender_avatar: v.sender_avatar, receiver_id: v.receiver_id, is_read: v.is_read, chat_room_name: v.chat_room_name, read_count: v.read_count, receiver_count: v.receiver_count, ..m }
}

/// The fields of group `c` of a chat message set those fields, if they
/// were at their defaults; what follows them is read after.
pub proof fn lemma_chat_part_c(m: ChatMessageView, v: ChatMessageView, rest: Seq<u8>, ctx: nat)
    requires
        m.sender_avatar == Seq::<char>::empty(),
        m.receiver_id == 0,
        m.is_read == false,
        m.chat_room_name == Seq::<char>::empty(),
        m.read_count == 0,
        m.receiver_count == 0,
        chat_part_c(v).len() <= u64::MAX,
    ensures
        merge_chat_message(m, chat_part_c(v) + rest, ctx) == merge_chat_message(
            chat_with_c(m, v),
            rest,
            ctx,
        ),
{
    let q1 = string_field(12, v.sender_avatar);
    let q2 = int32_field(13, v.receiver_id);
    let q3 = bool_field(14, v.is_read);
    let q4 = string_field(15, v.chat_room_name);
    let q5 = int32_field(16, v.read_count);
    let q6 = int32_field(21, v.receiver_count);
    let m0 = m;
    let m1 = ChatMessageView { sender_avatar: v.sender_avatar, ..m0 };
    let m2 = ChatMessageView { receiver_id: v.receiver_id, ..m1 };
    let m3 = ChatMessageView { is_read: v.is_read, ..m2 };
    let m4 = ChatMessageView { chat_room_name: v.chat_room_name, ..m3 };
    let m5 = ChatMessageView { read_count: v.read_count, ..m4 };
    let m6 = ChatMessageView { receiver_count: v.receiver_count, ..m5 };
    let r7 = rest;
    let r6 = q6 + r7;
    let r5 = q5 + r6;
    let r4 = q4 + r5;
    let r3 = q3 + r4;
    let r2 = q2 + r3;
    let r1 = q1 + r2;
    let p1 = q1;
    let p2 = p1 + q2;
    let p3 = p2 + q3;
    let p4 = p3 + q4;
    let p5 = p4 + q5;
    let p6 = p5 + q6;
    assert(chat_part_c(v) == p6);
    lemma_concat_associative(p5, q6, r7);
    lemma_concat_associative(p4, q5, r6);
    lemma_concat_associative(p3, q4, r5);
    lemma_concat_associative(p2, q3, r4);
    lemma_concat_associative(p1, q2, r3);
    if v.sender_avatar.len() == 0 {
        assert(v.sender_avatar =~= Seq::<char>::empty());
    }
    assert(m1.sender_avatar == v.sender_avatar);
    lemma_string_step(chat_message_step(), m0, m1, 12, v.sender_avatar, r2, ctx);
    lemma_int32_value(v.receiver_id);
    lemma_int32_step(chat_message_step(), m1, m2, 13, v.receiver_id, r3, ctx);
    lemma_bool_step(chat_message_step(), m2, m3, 14, v.is_read, r4, ctx);
    if v.chat_room_name.len() == 0 {
        assert(v.chat_room_name =~= Seq::<char>::empty());
    }
    assert(m4.chat_room_name == v.chat_room_name);
    lemma_string_step(chat_message_step(), m3, m4, 15, v.chat_room_name, r5, ctx);
    lemma_int32_value(v.read_count);
    lemma_int32_step(chat_message_step(), m4, m5, 16, v.read_count, r6, ctx);
    lemma_int32_value(v.receiver_count);
    lemma_int32_step(chat_message_step(), m5, m6, 21, v.receiver_count, r7, ctx);
    assert(m6 == chat_with_c(m, v));
}

/// The fields of group `d` of a `ChatMessage`.
pub open spec fn chat_part_d(v: ChatMessageView) -> Seq<u8> {
    strings_field(22, v.image_path_list) + strings_field(23, v.file_path_list) + strings_field(24, v.video_path_list)
}

/// `m` with the fields of group `d` taken from `v`.
pub open spec fn chat_with_d(m: ChatMessageView, v: ChatMessageView) -> ChatMessageView {
    ChatMessageView { image_path_list: v.image_path_list, file_path_list: v.file_path_list, video_path_list: v.video_path_list, ..m }
}

/// The fields of group `d` of a chat message set those fields, if they
/// were at their defaults; what follows them is read after.
pub proof fn lemma_chat_part_d(m: ChatMessageView, v: ChatMessageView, rest: Seq<u8>, ctx: nat)
    requires
        m.image_path_list == Seq::<Seq<char>>::empty(),
        m.file_path_list == Seq::<Seq<char>>::empty(),
        m.video_path_list == Seq::<Seq<char>>::empty(),
        chat_part_d(v).len() <= u64::MAX,
    ensures
        merge_chat_message(m, chat_part_d(v) + rest, ctx) == merge_chat_message(
            chat_with_d(m, v),
            rest,
            ctx,
        ),
{
    let q1 = strings_field(22, v.image_path_list);
    let q2 = strings_field(23, v.file_path_list);
    let q3 = strings_field(24, v.video_path_list);
    let m0 = m;
    let m1 = ChatMessageView { image_path_list: v.image_path_list, ..m0 };
    let m2 = ChatMessageView { file_path_list: v.file_path_list, ..m1 };
    let m3 = ChatMessageView { video_path_list: v.video_path_list, ..m2 };
    let r4 = rest;
    let r3 = q3 + r4;
    let r2 = q2 + r3;
    let r1 = q1 + r2;
    let p1 = q1;
    let p2 = p1 + q2;
    let p3 = p2 + q3;
    assert(chat_part_d(v) == p3);
    lemma_concat_associative(p2, q3, r4);
    lemma_concat_associative(p1, q2, r3);
    lemma_chat_list_fields(m0, 22, v.image_path_list, r2, ctx);
    assert(chat_list_append(m0, 22, v.image_path_list) =~= m1);
    lemma_chat_list_fields(m1, 23, v.file_path_list, r3, ctx);
    assert(chat_list_append(m1, 23, v.file_path_list) =~= m2);
    lemma_chat_list_fields(m2, 24, v.video_path_list, r4, ctx);
    assert(chat_list_append(m2, 24, v.video_path_list) =~= m3);
    assert(m3 == chat_with_d(m, v));
}

/// The fields of a `ChatMessage`, read into a message at its defaults,
/// give that message back; what follows them is read after.
pub proof fn lemma_chat_message_fields(v: ChatMessageView, rest: Seq<u8>, ctx: nat)
    requires
        chat_message_bytes(v).len() <= u64::MAX,
    ensures
        merge_chat_message(chat_message_default(), chat_message_bytes(v) + rest, ctx)
            == merge_chat_message(v, rest, ctx),
{
    let a = chat_part_a(v);
    let b = chat_part_b(v);
    let c = chat_part_c(v);
    let d = chat_part_d(v);
    let q1 = string_field(1, v.id);
    let q2 = int32_field(2, v.chat_room_id);
    let q3 = int32_field(4, v.sender_id);
    let q4 = string_field(5, v.content);
    let q5 = string_field(6, v.images_path);
    let q6 = string_field(7, v.files_path);
    let q7 = string_field(8, v.videos_path);
    let q8 = int64_field(9, v.send_time);
    let q9 = int64_field(10, v.created_time);
    let q10 = string_field(11, v.sender_name);
    let q11 = string_field(12, v.sender_avatar);
    let q12 = int32_field(13, v.receiver_id);
    let q13 = bool_field(14, v.is_read);
    let q14 = string_field(15, v.chat_room_name);
    let q15 = int32_field(16, v.read_count);
    let q16 = int32_field(21, v.receiver_count);
    let q17 = strings_field(22, v.image_path_list);
    let q18 = strings_field(23, v.file_path_list);
    let q19 = strings_field(24, v.video_path_list);
    let p1 = q1;
    let p2 = p1 + q2;
    let p3 = p2 + q3;
    let p4 = p3 + q4;
    let p5 = p4 + q5;
    let p6 = p5 + q6;
    let p7 = p6 + q7;
    let p8 = p7 + q8;
    let p9 = p8 + q9;
    let p10 = p9 + q10;
    let p11 = p10 + q11;
    let p12 = p11 + q12;
    let p13 = p12 + q13;
    let p14 = p13 + q14;
    let p15 = p14 + q15;
    let p16 = p15 + q16;
    let p17 = p16 + q17;
    let p18 = p17 + q18;
    let p19 = p18 + q19;
    assert(chat_message_bytes(v) == p19);
    assert(p5 == a);
    let t6 = q6;
    assert(p6 == a + t6);
    let t7 = t6 + q7;
    lemma_concat_associative(a, t6, q7);
    assert(p7 == a + t7);
    let t8 = t7 + q8;
    lemma_concat_associative(a, t7, q8);
    assert(p8 == a + t8);
    let t9 = t8 + q9;
    lemma_concat_associative(a, t8, q9);
    assert(p9 == a + t9);
    let t10 = t9 + q10;
    lemma_concat_associative(a, t9, q10);
    assert(p10 == a + t10);
    assert(t10 == b);
    let t11 = q11;
    assert(p11 == a + b + t11);
    let t12 = t11 + q12;
    lemma_concat_associative(a + b, t11, q12);
    assert(p12 == a + b + t12);
    let t13 = t12 + q13;
    lemma_concat_associative(a + b, t12, q13);
    assert(p13 == a + b + t13);
    let t14 = t13 + q14;
    lemma_concat_associative(a + b, t13, q14);
    assert(p14 == a + b + t14);
    let t15 = t14 + q15;
    lemma_concat_associative(a + b, t14, q15);
    assert(p15 == a + b + t15);
    let t16 = t15 + q16;
    lemma_concat_associative(a + b, t15, q16);
    assert(p16 == a + b + t16);
    assert(t16 == c);
    let t17 = q17;
    assert(p17 == a + b + c + t17);
    let t18 = t17 + q18;
    lemma_concat_associative(a + b + c, t17, q18);
    assert(p18 == a + b + c + t18);
    let t19 = t18 + q19;
    lemma_concat_associative(a + b + c, t18, q19);
    assert(p19 == a + b + c + t19);
    assert(t19 == d);
    let m0 = chat_message_default();
    let m1 = chat_with_a(m0, v);
    let m2 = chat_with_b(m1, v);
    let m3 = chat_with_c(m2, v);
    let m4 = chat_with_d(m3, v);
    lemma_concat_associative(a + b + c, d, rest);
    lemma_concat_associative(a + b, c, d + rest);
    lemma_concat_associative(a, b, c + (d + rest));
    lemma_chat_part_a(m0, v, b + (c + (d + rest)), ctx);
    lemma_chat_part_b(m1, v, c + (d + rest), ctx);
    lemma_chat_part_c(m2, v, d + rest, ctx);
    lemma_chat_part_d(m3, v, rest, ctx);
    assert(m4 =~= v);
}

/// The fields of a `SingleMessage` or a `GroupMessage`, read into a message at its defaults, give that message back; what follows them is read after.
pub proof fn lemma_addressed_fields(v: AddressedView, rest: Seq<u8>, ctx: nat)
    requires
        addressed_bytes(v).len() <= u64::MAX,
        ctx > 0,
    ensures
        merge_fields(addressed_step(), addressed_default(), addressed_bytes(v) + rest, ctx) == merge_fields(addressed_step(), v, rest, ctx),
{
    let q1 = int32_field(1, v.id);
    let q2 = string_field(2, v.name);
    let q3 = chat_message_field(3, v.chat_message);
    let m0 = addressed_default();
    let m1 = AddressedView { id: v.id, ..m0 };
    let m2 = AddressedView { name: v.name, ..m1 };
    let m3 = v;
    let r4 = rest;
    let r3 = q3 + r4;
    let r2 = q2 + r3;
    let r1 = q1 + r2;
    let p1 = q1;
    let p2 = p1 + q2;
    let p3 = p2 + q3;
    assert(addressed_bytes(v) == p3);
    lemma_concat_associative(p2, q3, r4);
    lemma_concat_associative(p1, q2, r3);
    lemma_int32_value(v.id);
    lemma_int32_step(addressed_step(), m0, m1, 1, v.id, r2, ctx);
    if v.name.len() == 0 {
        assert(v.name =~= Seq::<char>::empty());
    }
    assert(m2.name == v.name);
    lemma_string_step(addressed_step(), m1, m2, 2, v.name, r3, ctx);
    match v.chat_message {
        Some(c) => {
            lemma_chat_message_fields(c, Seq::empty(), (ctx - 1) as nat);
            assert(chat_message_bytes(c) + Seq::empty() =~= chat_message_bytes(c));
            lemma_merge_nothing(chat_message_step(), c, (ctx - 1) as nat);
            lemma_bytes_step(addressed_step(), m2, m3, 3, chat_message_bytes(c), r4, ctx);
        },
        None => {
            assert(q3 + r4 =~= r4);
        },
    }
}


/// The payload field of a packet, read into a packet that has no payload,
/// sets it; what follows it is read after. The payload is read one level
/// deeper, and its chat message one more.
pub proof fn lemma_obj_field(m: PackView, o: ObjView, rest: Seq<u8>, ctx: nat)
    requires
        ctx >= 2,
        m.obj is None,
        obj_field(o).len() <= u64::MAX,
    ensures
        merge_pack(m, obj_field(o) + rest, ctx) == merge_pack(
            PackView { obj: Some(o), ..m },
            rest,
            ctx,
        ),
{
    let c = (ctx - 1) as nat;
    let m2 = PackView { obj: Some(o), ..m };
    match o {
        ObjView::Login(x) => {
            lemma_login_fields(x, Seq::empty(), c);
            assert(login_bytes(x) + Seq::empty() =~= login_bytes(x));
            lemma_bytes_step(pack_step(), m, m2, 4, login_bytes(x), rest, ctx);
        },
        ObjView::Single(x) => {
            lemma_addressed_fields(x, Seq::empty(), c);
            assert(addressed_bytes(x) + Seq::empty() =~= addressed_bytes(x));
            lemma_bytes_step(pack_step(), m, m2, 5, addressed_bytes(x), rest, ctx);
        },
        ObjView::Group(x) => {
            lemma_addressed_fields(x, Seq::empty(), c);
            assert(addressed_bytes(x) + Seq::empty() =~= addressed_bytes(x));
            lemma_bytes_step(pack_step(), m, m2, 6, addressed_bytes(x), rest, ctx);
        },
        ObjView::Ack(x) => {
            lemma_ack_fields(x, Seq::empty(), c);
            assert(ack_bytes(x) + Seq::empty() =~= ack_bytes(x));
            lemma_bytes_step(pack_step(), m, m2, 7, ack_bytes(x), rest, ctx);
        },
        ObjView::Rollback(x) => {
            lemma_rollback_fields(x, Seq::empty(), c);
            assert(rollback_bytes(x) + Seq::empty() =~= rollback_bytes(x));
            lemma_bytes_step(pack_step(), m, m2, 8, rollback_bytes(x), rest, ctx);
        },
        ObjView::TaskRead(x) => {
            lemma_task_read_fields(x, Seq::empty(), c);
            assert(task_read_bytes(x) + Seq::empty() =~= task_read_bytes(x));
            lemma_bytes_step(pack_step(), m, m2, 9, task_read_bytes(x), rest, ctx);
        },
        ObjView::Response(x) => {
            lemma_response_fields(x, Seq::empty(), c);
            assert(response_bytes(x) + Seq::empty() =~= response_bytes(x));
            lemma_bytes_step(pack_step(), m, m2, 10, response_bytes(x), rest, ctx);
        },
    }
}

/// Decoding the encoding of a packet gives the packet back: every field,
/// its payload and the payload's chat message, with every string and list
/// as it was.
pub proof fn law_pack_round_trip(p: PackView)
    requires
        pack_bytes(p).len() <= u64::MAX,
    ensures
        decode_pack_spec(pack_bytes(p)) == Some(p),
{
    let ctx = RECURSION_LIMIT as nat;
    let q1 = string_field(2, p.token);
    let q2 = int32_field(3, p.msg_type);
    let q3 = match p.obj {
        Some(o) => obj_field(o),
        None => Seq::empty(),
    };
    let rest = Seq::<u8>::empty();
    let m0 = pack_default();
    let m1 = PackView { token: p.token, ..m0 };
    let m2 = PackView { msg_type: p.msg_type, ..m1 };
    assert(pack_bytes(p) == q1 + q2 + q3);
    lemma_concat_associative(q1 + q2, q3, rest);
    lemma_concat_associative(q1, q2, q3 + rest);
    if p.token.len() == 0 {
        assert(p.token =~= Seq::<char>::empty());
    }
    lemma_string_step(pack_step(), m0, m1, 2, p.token, q2 + (q3 + rest), ctx);
    lemma_int32_value(p.msg_type);
    lemma_int32_step(pack_step(), m1, m2, 3, p.msg_type, q3 + rest, ctx);
    match p.obj {
        Some(o) => {
            lemma_obj_field(m2, o, rest, ctx);
        },
        None => {
            assert(q3 + rest =~= rest);
        },
    }
    assert(pack_bytes(p) + rest =~= pack_bytes(p));
}

/// Decoding the encoding of a chat message gives the message back.
pub proof fn law_chat_message_round_trip(v: ChatMessageView)
    requires
        chat_message_bytes(v).len() <= u64::MAX,
    ensures
        decode_chat_message_spec(chat_message_bytes(v)) == Some(v),
{
    lemma_chat_message_fields(v, Seq::empty(), RECURSION_LIMIT as nat);
    assert(chat_message_bytes(v) + Seq::empty() =~= chat_message_bytes(v));
}

/// A packet built from a token, a kind and a payload is decoded back whole,
/// and its kind number reads back as the kind it was built with.
pub proof fn law_new_pack_round_trip(token: Seq<char>, t: MsgType, obj: Option<ObjView>)
    requires
        pack_bytes(PackView { token, msg_type: msg_type_value(t), obj }).len() <= u64::MAX,
    ensures
        decode_pack_spec(pack_bytes(PackView { token, msg_type: msg_type_value(t), obj })) == Some(
            PackView { token, msg_type: msg_type_value(t), obj },
        ),
        msg_type_of_value(msg_type_value(t)) == Some(t),
{
    law_pack_round_trip(PackView { token, msg_type: msg_type_value(t), obj });
    law_value_round_trip(t, 0);
}

impl ChatMessagePack {
    /// The encoding of this packet.
    pub fn encode_to_vec(&self) -> (r: Vec<u8>)
        ensures
            r@ == pack_bytes(self@),
    {
        let mut out: Vec<u8> = Vec::new();
        encode_pack_raw(self, &mut out);
        assert(out@ =~= pack_bytes(self@));
        out
    }

    /// The number of bytes of the encoding of this packet.
    pub fn encoded_len(&self) -> (r: usize)
        ensures
            r == pack_bytes(self@).len(),
    {
        self.encode_to_vec().len()
    }

    /// Appends the encoding of this packet to `buf`, if the buffer can grow
    /// by that much: a vector holds at most `isize::MAX` bytes.
    pub fn encode(&self, buf: &mut Vec<u8>) -> (r: Result<(), EncodeError>)
        ensures
            (r is Ok) == (old(buf)@.len() + pack_bytes(self@).len() <= isize::MAX),
            r is Ok ==> final(buf)@ == old(buf)@ + pack_bytes(self@),
            r matches Err(e) ==> final(buf)@ == old(buf)@ && e.required == pack_bytes(self@).len()
                && e.remaining == (if old(buf)@.len() <= isize::MAX {
                isize::MAX - old(buf)@.len()
            } else {
                0
            }),
    {
        let mut bytes = self.encode_to_vec();
        let required = bytes.len();
        let max = isize::MAX as usize;
        let used = buf.len();
        if used > max {
            return Err(EncodeError { required, remaining: 0 });
        }
        let remaining = max - used;
        if required > remaining {
            return Err(EncodeError { required, remaining });
        }
        buf.append(&mut bytes);
        Ok(())
    }

    /// The packet that `buf` encodes.
    pub fn decode(buf: &[u8]) -> (r: Result<ChatMessagePack, DecodeError>)
        ensures
            (r is Ok) == (decode_pack_spec(buf@) is Some),
            r matches Ok(p) ==> decode_pack_spec(buf@) == Some(p@),
    {
        match merge_pack_bytes(ChatMessagePack::default(), buf, RECURSION_LIMIT) {
            Some(p) => Ok(p),
            None => Err(DecodeError::Malformed),
        }
    }
}

impl ChatMessage {
    /// The encoding of this chat message.
    pub fn encode_to_vec(&self) -> (r: Vec<u8>)
        ensures
            r@ == chat_message_bytes(self@),
    {
        let mut out: Vec<u8> = Vec::new();
        encode_chat_message_raw(self, &mut out);
        assert(out@ =~= chat_message_bytes(self@));
        out
    }

    /// The number of bytes of the encoding of this chat message.
    pub fn encoded_len(&self) -> (r: usize)
        ensures
            r == chat_message_bytes(self@).len(),
    {
        self.encode_to_vec().len()
    }

    /// The chat message that `buf` encodes.
    pub fn decode(buf: &[u8]) -> (r: Result<ChatMessage, DecodeError>)
        ensures
            (r is Ok) == (decode_chat_message_spec(buf@) is Some),
            r matches Ok(m) ==> decode_chat_message_spec(buf@) == Some(m@),
    {
        match merge_chat_message_bytes(ChatMessage::new(), buf, RECURSION_LIMIT) {
            Some(m) => Ok(m),
            None => Err(DecodeError::Malformed),
        }
    }
}

} // verus!
