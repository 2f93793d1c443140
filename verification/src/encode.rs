//! The encoding of the protocol's messages: fields in tag order, fields at
//! their default value left out, nested messages length-delimited.
use vstd::prelude::*;
use vstd::utf8::*;
use vstd::seq_lib::lemma_concat_associative;
use crate::wire::{WIRE_LEN, WIRE_VARINT, encode_varint, key_bytes, varint_bytes};
use crate::message::{
    AckMessage, AckMessageView, AddressedView, ChatMessage, ChatMessagePack, ChatMessageView,
    GroupMessage, LoginMessage, LoginMessageView, Obj, ObjView, PackView, ResponseMessage,
    ResponseMessageView, RollbackMessage, RollbackMessageView, SingleMessage, TaskReadMessage,
    TaskReadMessageView, chat_message_option_view, strings_view,
};

verus! {

/// A length-delimited field: key, payload length, payload.
pub open spec fn len_field(tag: nat, p: Seq<u8>) -> Seq<u8> {
    key_bytes(tag, WIRE_LEN as nat) + varint_bytes(p.len()) + p
}

/// A varint field carrying `v`.
pub open spec fn varint_field(tag: nat, v: u64) -> Seq<u8> {
    key_bytes(tag, WIRE_VARINT as nat) + varint_bytes(v as nat)
}

/// An `int32` field; left out when zero. Negative values take ten bytes.
pub open spec fn int32_field(tag: nat, v: i32) -> Seq<u8> {
    if v == 0 {
        Seq::empty()
    } else {
        varint_field(tag, v as u64)
    }
}

/// An `int64` field; left out when zero.
pub open spec fn int64_field(tag: nat, v: i64) -> Seq<u8> {
    if v == 0 {
        Seq::empty()
    } else {
        varint_field(tag, v as u64)
    }
}

/// A `bool` field; left out when false.
pub open spec fn bool_field(tag: nat, b: bool) -> Seq<u8> {
    if b {
        varint_field(tag, 1)
    } else {
        Seq::empty()
    }
}

/// A `string` field: its UTF-8 bytes; left out when empty.
pub open spec fn string_field(tag: nat, s: Seq<char>) -> Seq<u8> {
    if s.len() == 0 {
        Seq::empty()
    } else {
        len_field(tag, encode_utf8(s))
    }
}

/// A `repeated string` field: one length-delimited entry per string, empty
/// strings included.
pub open spec fn strings_field(tag: nat, v: Seq<Seq<char>>) -> Seq<u8>
    decreases v.len(),
{
    if v.len() == 0 {
        Seq::empty()
    } else {
        len_field(tag, encode_utf8(v[0])) + strings_field(tag, v.drop_first())
    }
}

/// The encoding of a `LoginMessage`.
pub open spec fn login_bytes(m: LoginMessageView) -> Seq<u8> {
    int32_field(1, m.user_id) + string_field(2, m.username)
}

/// The encoding of a `ChatMessage`.
pub open spec fn chat_message_bytes(m: ChatMessageView) -> Seq<u8> {
    string_field(1, m.id) + int32_field(2, m.chat_room_id) + int32_field(4, m.sender_id)
        + string_field(5, m.content) + string_field(6, m.images_path) + string_field(
        7,
        m.files_path,
    ) + string_field(8, m.videos_path) + int64_field(9, m.send_time) + int64_field(
        10,
        m.created_time,
    ) + string_field(11, m.sender_name) + string_field(12, m.sender_avatar) + int32_field(
        13,
        m.receiver_id,
    ) + bool_field(14, m.is_read) + string_field(15, m.chat_room_name) + int32_field(
        16,
        m.read_count,
    ) + int32_field(21, m.receiver_count) + strings_field(22, m.image_path_list)
        + strings_field(23, m.file_path_list) + strings_field(24, m.video_path_list)
}

/// An optional embedded chat message: present even when all its fields are
/// at their defaults.
pub open spec fn chat_message_field(tag: nat, c: Option<ChatMessageView>) -> Seq<u8> {
    match c {
        Some(m) => len_field(tag, chat_message_bytes(m)),
        None => Seq::empty(),
    }
}

/// The encoding of a `SingleMessage` or a `GroupMessage`.
pub open spec fn addressed_bytes(m: AddressedView) -> Seq<u8> {
    int32_field(1, m.id) + string_field(2, m.name) + chat_message_field(3, m.chat_message)
}

/// The encoding of an `AckMessage`.
pub open spec fn ack_bytes(m: AckMessageView) -> Seq<u8> {
    int32_field(1, m.code) + string_field(2, m.msg_content) + string_field(3, m.msg_id)
        + int32_field(4, m.room_id) + int32_field(5, m.user_id) + int32_field(6, m.msg_type)
}

/// The encoding of a `RollbackMessage`.
pub open spec fn rollback_bytes(m: RollbackMessageView) -> Seq<u8> {
    string_field(1, m.msg_id) + int32_field(2, m.room_id)
}

/// The encoding of a `TaskReadMessage`.
pub open spec fn task_read_bytes(m: TaskReadMessageView) -> Seq<u8> {
    string_field(1, m.msg_id) + int32_field(2, m.room_id) + string_field(3, m.user_id)
}

/// The encoding of a `ResponseMessage`.
pub open spec fn response_bytes(m: ResponseMessageView) -> Seq<u8> {
    int32_field(1, m.code) + string_field(2, m.msg) + string_field(3, m.msg_id)
}

/// The field that carries a payload: tags 4 to 10, one per kind.
pub open spec fn obj_field(o: ObjView) -> Seq<u8> {
    match o {
        ObjView::Login(m) => len_field(4, login_bytes(m)),
        ObjView::Single(m) => len_field(5, addressed_bytes(m)),
        ObjView::Group(m) => len_field(6, addressed_bytes(m)),
        ObjView::Ack(m) => len_field(7, ack_bytes(m)),
        ObjView::Rollback(m) => len_field(8, rollback_bytes(m)),
        ObjView::TaskRead(m) => len_field(9, task_read_bytes(m)),
        ObjView::Response(m) => len_field(10, response_bytes(m)),
    }
}

/// The encoding of a `ChatMessagePack`.
pub open spec fn pack_bytes(p: PackView) -> Seq<u8> {
    string_field(2, p.token) + int32_field(3, p.msg_type) + match p.obj {
        Some(o) => obj_field(o),
        None => Seq::empty(),
    }
}

/// Appends `b` to `out`.
fn append_bytes(out: &mut Vec<u8>, b: &[u8])
    ensures
        final(out)@ == old(out)@ + b@,
{
    let n = b.len();
    let mut i: usize = 0;
    while i < n
        invariant
            n == b@.len(),
            i <= n,
            out@ == old(out)@ + b@.subrange(0, i as int),
        decreases n - i,
    {
        out.push(b[i]);
        assert(b@.subrange(0, i + 1) =~= b@.subrange(0, i as int).push(b@[i as int]));
        i = i + 1;
    }
    assert(b@.subrange(0, n as int) =~= b@);
}

/// Appends the key of field `tag` with wire type `wire`.
fn encode_key(tag: u32, wire: u8, out: &mut Vec<u8>)
    requires
        tag < 0x2000_0000,
        wire <= 7,
    ensures
        final(out)@ == old(out)@ + key_bytes(tag as nat, wire as nat),
{
    encode_varint((tag as u64) * 8 + wire as u64, out);
}

/// Appends a length-delimited field whose payload is `p`.
fn encode_len_field(tag: u32, p: &[u8], out: &mut Vec<u8>)
    requires
        tag < 0x2000_0000,
    ensures
        final(out)@ == old(out)@ + len_field(tag as nat, p@),
{
    encode_key(tag, WIRE_LEN, out);
    encode_varint(p.len() as u64, out);
    append_bytes(out, p);
    assert(final(out)@ =~= old(out)@ + len_field(tag as nat, p@));
}

/// Appends an `int32` field.
fn encode_int32(tag: u32, v: i32, out: &mut Vec<u8>)
    requires
        tag < 0x2000_0000,
    ensures
        final(out)@ == old(out)@ + int32_field(tag as nat, v),
{
    if v != 0 {
        encode_key(tag, WIRE_VARINT, out);
        encode_varint(v as u64, out);
        assert(final(out)@ =~= old(out)@ + int32_field(tag as nat, v));
    } else {
        assert(final(out)@ =~= old(out)@ + int32_field(tag as nat, v));
    }
}

/// Appends an `int64` field.
fn encode_int64(tag: u32, v: i64, out: &mut Vec<u8>)
    requires
        tag < 0x2000_0000,
    ensures
        final(out)@ == old(out)@ + int64_field(tag as nat, v),
{
    if v != 0 {
        encode_key(tag, WIRE_VARINT, out);
        encode_varint(v as u64, out);
        assert(final(out)@ =~= old(out)@ + int64_field(tag as nat, v));
    } else {
        assert(final(out)@ =~= old(out)@ + int64_field(tag as nat, v));
    }
}

/// Appends a `bool` field.
fn encode_bool(tag: u32, b: bool, out: &mut Vec<u8>)
    requires
        tag < 0x2000_0000,
    ensures
        final(out)@ == old(out)@ + bool_field(tag as nat, b),
{
    if b {
        encode_key(tag, WIRE_VARINT, out);
        encode_varint(1, out);
        assert(final(out)@ =~= old(out)@ + bool_field(tag as nat, b));
    } else {
        assert(final(out)@ =~= old(out)@ + bool_field(tag as nat, b));
    }
}

/// Appends a `string` field.
fn encode_string(tag: u32, s: &String, out: &mut Vec<u8>)
    requires
        tag < 0x2000_0000,
    ensures
        final(out)@ == old(out)@ + string_field(tag as nat, s@),
{
    let b = s.as_str().as_bytes();
    if b.len() != 0 {
        encode_len_field(tag, b, out);
        proof {
            if s@.len() == 0 {
                assert(encode_utf8(s@) =~= Seq::<u8>::empty());
            }
        }
    } else {
        proof {
            if s@.len() != 0 {
                assert(encode_utf8(s@).len() >= encode_scalar(s@[0] as u32).len());
            }
        }
        assert(final(out)@ =~= old(out)@ + string_field(tag as nat, s@));
    }
}

/// Appends a `repeated string` field.
fn encode_strings(tag: u32, v: &Vec<String>, out: &mut Vec<u8>)
    requires
        tag < 0x2000_0000,
    ensures
        final(out)@ == old(out)@ + strings_field(tag as nat, strings_view(v@)),
{
    let n = v.len();
    let mut i: usize = 0;
    let ghost whole = strings_view(v@);
    assert(whole.skip(0) =~= whole);
    while i < n
        invariant
            n == v@.len(),
            i <= n,
            whole == strings_view(v@),
            tag < 0x2000_0000,
            old(out)@ + strings_field(tag as nat, whole) == out@ + strings_field(
                tag as nat,
                whole.skip(i as int),
            ),
        decreases n - i,
    {
        let ghost before = out@;
        let b = v[i].as_str().as_bytes();
        encode_len_field(tag, b, out);
        assert(whole.skip(i as int).drop_first() =~= whole.skip(i + 1));
        assert(whole.skip(i as int)[0] == v@[i as int]@);
        assert(before + strings_field(tag as nat, whole.skip(i as int)) =~= out@ + strings_field(
            tag as nat,
            whole.skip(i + 1),
        ));
        i = i + 1;
    }
    assert(strings_field(tag as nat, whole.skip(n as int)) =~= Seq::<u8>::empty());
    assert(old(out)@ + strings_field(tag as nat, whole) =~= out@);
}

/// Appends the fields of a `LoginMessage`.
pub fn encode_login_raw(m: &LoginMessage, out: &mut Vec<u8>)
    ensures
        final(out)@ == old(out)@ + login_bytes(m@),
{
    encode_int32(1, m.user_id, out);
    encode_string(2, &m.username, out);
    assert(final(out)@ =~= old(out)@ + login_bytes(m@));
}

/// Appends the fields of a `ChatMessage`.
pub fn encode_chat_message_raw(m: &ChatMessage, out: &mut Vec<u8>)
    ensures
        final(out)@ == old(out)@ + chat_message_bytes(m@),
{
    let ghost o = out@;
    let ghost v = m@;
    let ghost mut acc: Seq<u8> = Seq::empty();
    assert(o + acc =~= o);
    let ghost part = string_field(1, v.id);
    encode_string(1, &m.id, out);
    proof {
        lemma_concat_associative(o, acc, part);
        acc = acc + part;
    }
    let ghost part = int32_field(2, v.chat_room_id);
    encode_int32(2, m.chat_room_id, out);
    proof {
        lemma_concat_associative(o, acc, part);
        acc = acc + part;
    }
    let ghost part = int32_field(4, v.sender_id);
    encode_int32(4, m.sender_id, out);
    proof {
        lemma_concat_associative(o, acc, part);
        acc = acc + part;
    }
    let ghost part = string_field(5, v.content);
    encode_string(5, &m.content, out);
    proof {
        lemma_concat_associative(o, acc, part);
        acc = acc + part;
    }
    let ghost part = string_field(6, v.images_path);
    encode_string(6, &m.images_path, out);
    proof {
        lemma_concat_associative(o, acc, part);
        acc = acc + part;
    }
    let ghost part = string_field(7, v.files_path);
    encode_string(7, &m.files_path, out);
    proof {
        lemma_concat_associative(o, acc, part);
        acc = acc + part;
    }
    let ghost part = string_field(8, v.videos_path);
    encode_string(8, &m.videos_path, out);
    proof {
        lemma_concat_associative(o, acc, part);
        acc = acc + part;
    }
    let ghost part = int64_field(9, v.send_time);
    encode_int64(9, m.send_time, out);
    proof {
        lemma_concat_associative(o, acc, part);
        acc = acc + part;
    }
    let ghost part = int64_field(10, v.created_time);
    encode_int64(10, m.created_time, out);
    proof {
        lemma_concat_associative(o, acc, part);
        acc = acc + part;
    }
    let ghost part = string_field(11, v.sender_name);
    encode_string(11, &m.sender_name, out);
    proof {
        lemma_concat_associative(o, acc, part);
        acc = acc + part;
    }
    let ghost part = string_field(12, v.sender_avatar);
    encode_string(12, &m.sender_avatar, out);
    proof {
        lemma_concat_associative(o, acc, part);
        acc = acc + part;
    }
    let ghost part = int32_field(13, v.receiver_id);
    encode_int32(13, m.receiver_id, out);
    proof {
        lemma_concat_associative(o, acc, part);
        acc = acc + part;
    }
    let ghost part = bool_field(14, v.is_read);
    encode_bool(14, m.is_read, out);
    proof {
        lemma_concat_associative(o, acc, part);
        acc = acc + part;
    }
    let ghost part = string_field(15, v.chat_room_name);
    encode_string(15, &m.chat_room_name, out);
    proof {
        lemma_concat_associative(o, acc, part);
        acc = acc + part;
    }
    let ghost part = int32_field(16, v.read_count);
    encode_int32(16, m.read_count, out);
    proof {
        lemma_concat_associative(o, acc, part);
        acc = acc + part;
    }
    let ghost part = int32_field(21, v.receiver_count);
    encode_int32(21, m.receiver_count, out);
    proof {
        lemma_concat_associative(o, acc, part);
        acc = acc + part;
    }
    let ghost part = strings_field(22, v.image_path_list);
    encode_strings(22, &m.image_path_list, out);
    proof {
        lemma_concat_associative(o, acc, part);
        acc = acc + part;
    }
    let ghost part = strings_field(23, v.file_path_list);
    encode_strings(23, &m.file_path_list, out);
    proof {
        lemma_concat_associative(o, acc, part);
        acc = acc + part;
    }
    let ghost part = strings_field(24, v.video_path_list);
    encode_strings(24, &m.video_path_list, out);
    proof {
        lemma_concat_associative(o, acc, part);
        acc = acc + part;
    }
    assert(acc =~= chat_message_bytes(v));
}

/// Appends an optional embedded chat message.
fn encode_chat_message_field(tag: u32, c: &Option<ChatMessage>, out: &mut Vec<u8>)
    requires
        tag < 0x2000_0000,
    ensures
        final(out)@ == old(out)@ + chat_message_field(tag as nat, chat_message_option_view(*c)),
{
    match c {
        Some(m) => {
            let mut body: Vec<u8> = Vec::new();
            encode_chat_message_raw(m, &mut body);
            assert(body@ =~= chat_message_bytes(m@));
            encode_len_field(tag, body.as_slice(), out);
        },
        None => {
            assert(final(out)@ =~= old(out)@ + chat_message_field(
                tag as nat,
                chat_message_option_view(*c),
            ));
        },
    }
}

/// Appends the fields of a `SingleMessage`.
pub fn encode_single_raw(m: &SingleMessage, out: &mut Vec<u8>)
    ensures
        final(out)@ == old(out)@ + addressed_bytes(m@),
{
    let ghost o = out@;
    encode_int32(1, m.receiver_id, out);
    encode_string(2, &m.receiver_name, out);
    encode_chat_message_field(3, &m.chat_message, out);
    assert(out@ =~= o + addressed_bytes(m@));
}

/// Appends the fields of a `GroupMessage`.
pub fn encode_group_raw(m: &GroupMessage, out: &mut Vec<u8>)
    ensures
        final(out)@ == old(out)@ + addressed_bytes(m@),
{
    let ghost o = out@;
    encode_int32(1, m.group_id, out);
    encode_string(2, &m.group_name, out);
    encode_chat_message_field(3, &m.chat_message, out);
    assert(out@ =~= o + addressed_bytes(m@));
}

/// Appends the fields of an `AckMessage`.
pub fn encode_ack_raw(m: &AckMessage, out: &mut Vec<u8>)
    ensures
        final(out)@ == old(out)@ + ack_bytes(m@),
{
    let ghost o = out@;
    encode_int32(1, m.code, out);
    encode_string(2, &m.msg_content, out);
    encode_string(3, &m.msg_id, out);
    encode_int32(4, m.room_id, out);
    encode_int32(5, m.user_id, out);
    encode_int32(6, m.msg_type, out);
    assert(out@ =~= o + ack_bytes(m@));
}

/// Appends the fields of a `RollbackMessage`.
pub fn encode_rollback_raw(m: &RollbackMessage, out: &mut Vec<u8>)
    ensures
        final(out)@ == old(out)@ + rollback_bytes(m@),
{
    let ghost o = out@;
    encode_string(1, &m.msg_id, out);
    encode_int32(2, m.room_id, out);
    assert(out@ =~= o + rollback_bytes(m@));
}

/// Appends the fields of a `TaskReadMessage`.
pub fn encode_task_read_raw(m: &TaskReadMessage, out: &mut Vec<u8>)
    ensures
        final(out)@ == old(out)@ + task_read_bytes(m@),
{
    let ghost o = out@;
    encode_string(1, &m.msg_id, out);
    encode_int32(2, m.room_id, out);
    encode_string(3, &m.user_id, out);
    assert(out@ =~= o + task_read_bytes(m@));
}

/// Appends the fields of a `ResponseMessage`.
pub fn encode_response_raw(m: &ResponseMessage, out: &mut Vec<u8>)
    ensures
        final(out)@ == old(out)@ + response_bytes(m@),
{
    let ghost o = out@;
    encode_int32(1, m.code, out);
    encode_string(2, &m.msg, out);
    encode_string(3, &m.msg_id, out);
    assert(out@ =~= o + response_bytes(m@));
}

/// Appends the field that carries a payload.
pub fn encode_obj(o: &Obj, out: &mut Vec<u8>)
    ensures
        final(out)@ == old(out)@ + obj_field(o@),
{
    let mut body: Vec<u8> = Vec::new();
    match o {
        Obj::LoginMessage(m) => {
            encode_login_raw(m, &mut body);
            assert(body@ =~= login_bytes(m@));
            encode_len_field(4, body.as_slice(), out);
        },
        Obj::SingleMessage(m) => {
            encode_single_raw(m, &mut body);
            assert(body@ =~= addressed_bytes(m@));
            encode_len_field(5, body.as_slice(), out);
        },
        Obj::GroupMessage(m) => {
            encode_group_raw(m, &mut body);
            assert(body@ =~= addressed_bytes(m@));
            encode_len_field(6, body.as_slice(), out);
        },
        Obj::AckMessage(m) => {
            encode_ack_raw(m, &mut body);
            assert(body@ =~= ack_bytes(m@));
            encode_len_field(7, body.as_slice(), out);
        },
        Obj::RollbackMessage(m) => {
            encode_rollback_raw(m, &mut body);
            assert(body@ =~= rollback_bytes(m@));
            encode_len_field(8, body.as_slice(), out);
        },
        Obj::TaskReadMessage(m) => {
            encode_task_read_raw(m, &mut body);
            assert(body@ =~= task_read_bytes(m@));
            encode_len_field(9, body.as_slice(), out);
        },
        Obj::ResponseMessage(m) => {
            encode_response_raw(m, &mut body);
            assert(body@ =~= response_bytes(m@));
            encode_len_field(10, body.as_slice(), out);
        },
    }
}

/// Appends the fields of a `ChatMessagePack`.
pub fn encode_pack_raw(p: &ChatMessagePack, out: &mut Vec<u8>)
    ensures
        final(out)@ == old(out)@ + pack_bytes(p@),
{
    let ghost o = out@;
    encode_string(2, &p.token, out);
    encode_int32(3, p.msg_type, out);
    match &p.obj {
        Some(obj) => encode_obj(obj, out),
        None => {},
    }
    assert(out@ =~= o + pack_bytes(p@));
}

} // verus!
