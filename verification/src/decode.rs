//! The decoding of the protocol's messages. A message is read field after
//! field into a value that starts at its defaults: a scalar or string field
//! takes the last value read, a repeated field collects every value, an
//! embedded message merges the fields of every occurrence, and a payload of a
//! different kind replaces the one read before. Fields the message does not
//! declare are skipped.
use vstd::prelude::*;
use vstd::utf8::*;
use crate::wire::{
    DecodeError, FieldRead, FieldValue, RECURSION_LIMIT, decode_field, field_read_matches,
    lemma_read_field_bounds, read_field,
};
use crate::text::string_from_utf8;
use crate::message::{
    AckMessage, ChatMessage, ChatMessagePack, GroupMessage, LoginMessage, Obj, ResponseMessage,
    RollbackMessage, SingleMessage, TaskReadMessage, obj_option_view, strings_view,
    AckMessageView, AddressedView, ChatMessageView, LoginMessageView, ObjView, PackView,
    ResponseMessageView, RollbackMessageView, TaskReadMessageView, ack_default, addressed_default,
    chat_message_default, login_default, pack_default, response_default, rollback_default,
    task_read_default,
};

verus! {

/// An `int32` (or enumeration) value: the low 32 bits of the varint.
pub open spec fn int32_value(v: FieldValue) -> Option<i32> {
    match v {
        FieldValue::Varint(x) => Some(x as i32),
        _ => None,
    }
}

/// An `int64` value: the varint read as a signed number.
pub open spec fn int64_value(v: FieldValue) -> Option<i64> {
    match v {
        FieldValue::Varint(x) => Some(x as i64),
        _ => None,
    }
}

/// A `bool` value: whether the varint is not zero.
pub open spec fn bool_value(v: FieldValue) -> Option<bool> {
    match v {
        FieldValue::Varint(x) => Some(x != 0),
        _ => None,
    }
}

/// A `string` value: the characters of a payload that is valid UTF-8.
pub open spec fn string_value(v: FieldValue) -> Option<Seq<char>> {
    match v {
        FieldValue::Bytes(p) => if valid_utf8(p) {
            Some(decode_utf8(p))
        } else {
            None
        },
        _ => None,
    }
}

/// A field that the message does not declare leaves it as it is, if the
/// nesting budget allows skipping it.
pub open spec fn skip_unknown<M>(m: M, ctx: nat) -> Option<M> {
    if ctx > 0 {
        Some(m)
    } else {
        None
    }
}

/// Merges the fields encoded in `s`, one after the other, into `m`; `apply`
/// says what one field does to the message.
pub open spec fn merge_fields<M>(
    apply: spec_fn(M, u32, FieldValue, nat) -> Option<M>,
    m: M,
    s: Seq<u8>,
    ctx: nat,
) -> Option<M>
    decreases s.len(),
{
    if s.len() == 0 {
        Some(m)
    } else {
        match read_field(s, ctx) {
            None => None,
            Some((tag, _w, v, n)) => {
                proof {
                    lemma_read_field_bounds(s, ctx);
                }
                match apply(m, tag, v, ctx) {
                    None => None,
                    Some(m2) => merge_fields(apply, m2, s.skip(n as int), ctx),
                }
            },
        }
    }
}

/// Applies one field to a `LoginMessage`.
pub open spec fn login_apply(m: LoginMessageView, tag: u32, v: FieldValue, ctx: nat) -> Option<
    LoginMessageView,
> {
    if tag == 1 {
        match int32_value(v) {
            Some(x) => Some(LoginMessageView { user_id: x, ..m }),
            None => None,
        }
    } else if tag == 2 {
        match string_value(v) {
            Some(x) => Some(LoginMessageView { username: x, ..m }),
            None => None,
        }
    } else {
        skip_unknown(m, ctx)
    }
}

/// `login_apply` as a function value.
pub open spec fn login_step() -> spec_fn(LoginMessageView, u32, FieldValue, nat) -> Option<LoginMessageView> {
    |x: LoginMessageView, t: u32, v: FieldValue, c: nat| login_apply(x, t, v, c)
}

/// Merges the fields encoded in `s` into a `LoginMessage`.
pub open spec fn merge_login(m: LoginMessageView, s: Seq<u8>, ctx: nat) -> Option<LoginMessageView> {
    merge_fields(login_step(), m, s, ctx)
}

/// Applies one field to a `ChatMessage`.
pub open spec fn chat_message_apply(m: ChatMessageView, tag: u32, v: FieldValue, ctx: nat) -> Option<
    ChatMessageView,
> {
    if tag == 1 {
        match string_value(v) {
            Some(x) => Some(ChatMessageView { id: x, ..m }),
            None => None,
        }
    } else if tag == 2 {
        match int32_value(v) {
            Some(x) => Some(ChatMessageView { chat_room_id: x, ..m }),
            None => None,
        }
    } else if tag == 4 {
        match int32_value(v) {
            Some(x) => Some(ChatMessageView { sender_id: x, ..m }),
            None => None,
        }
    } else if tag == 5 {
        match string_value(v) {
            Some(x) => Some(ChatMessageView { content: x, ..m }),
            None => None,
        }
    } else if tag == 6 {
        match string_value(v) {
            Some(x) => Some(ChatMessageView { images_path: x, ..m }),
            None => None,
        }
    } else if tag == 7 {
        match string_value(v) {
            Some(x) => Some(ChatMessageView { files_path: x, ..m }),
            None => None,
        }
    } else if tag == 8 {
        match string_value(v) {
            Some(x) => Some(ChatMessageView { videos_path: x, ..m }),
            None => None,
        }
    } else if tag == 9 {
        match int64_value(v) {
            Some(x) => Some(ChatMessageView { send_time: x, ..m }),
            None => None,
        }
    } else if tag == 10 {
        match int64_value(v) {
            Some(x) => Some(ChatMessageView { created_time: x, ..m }),
            None => None,
        }
    } else if tag == 11 {
        match string_value(v) {
            Some(x) => Some(ChatMessageView { sender_name: x, ..m }),
            None => None,
        }
    } else if tag == 12 {
        match string_value(v) {
            Some(x) => Some(ChatMessageView { sender_avatar: x, ..m }),
            None => None,
        }
    } else if tag == 13 {
        match int32_value(v) {
            Some(x) => Some(ChatMessageView { receiver_id: x, ..m }),
            None => None,
        }
    } else if tag == 14 {
        match bool_value(v) {
            Some(x) => Some(ChatMessageView { is_read: x, ..m }),
            None => None,
        }
    } else if tag == 15 {
        match string_value(v) {
            Some(x) => Some(ChatMessageView { chat_room_name: x, ..m }),
            None => None,
        }
    } else if tag == 16 {
        match int32_value(v) {
            Some(x) => Some(ChatMessageView { read_count: x, ..m }),
            None => None,
        }
    } else if tag == 21 {
        match int32_value(v) {
            Some(x) => Some(ChatMessageView { receiver_count: x, ..m }),
            None => None,
        }
    } else if tag == 22 {
        match string_value(v) {
            Some(x) => Some(ChatMessageView { image_path_list: m.image_path_list.push(x), ..m }),
            None => None,
        }
    } else if tag == 23 {
        match string_value(v) {
            Some(x) => Some(ChatMessageView { file_path_list: m.file_path_list.push(x), ..m }),
            None => None,
        }
    } else if tag == 24 {
        match string_value(v) {
            Some(x) => Some(ChatMessageView { video_path_list: m.video_path_list.push(x), ..m }),
            None => None,
        }
    } else {
        skip_unknown(m, ctx)
    }
}

/// `chat_message_apply` as a function value.
pub open spec fn chat_message_step() -> spec_fn(ChatMessageView, u32, FieldValue, nat) -> Option<ChatMessageView> {
    |x: ChatMessageView, t: u32, v: FieldValue, c: nat| chat_message_apply(x, t, v, c)
}

/// Merges the fields encoded in `s` into a `ChatMessage`.
pub open spec fn merge_chat_message(m: ChatMessageView, s: Seq<u8>, ctx: nat) -> Option<ChatMessageView> {
    merge_fields(chat_message_step(), m, s, ctx)
}

/// Merges an embedded chat message, `p` being its payload: the fields of
/// every occurrence are merged into one message, one level deeper.
pub open spec fn chat_message_embed(cur: Option<ChatMessageView>, v: FieldValue, ctx: nat) -> Option<
    ChatMessageView,
> {
    match v {
        FieldValue::Bytes(p) => if ctx == 0 {
            None
        } else {
            let base = match cur {
                Some(c) => c,
                None => chat_message_default(),
            };
            merge_chat_message(base, p, (ctx - 1) as nat)
        },
        _ => None,
    }
}

/// Applies one field to a `SingleMessage` or a `GroupMessage`.
pub open spec fn addressed_apply(m: AddressedView, tag: u32, v: FieldValue, ctx: nat) -> Option<
    AddressedView,
> {
    if tag == 1 {
        match int32_value(v) {
            Some(x) => Some(AddressedView { id: x, ..m }),
            None => None,
        }
    } else if tag == 2 {
        match string_value(v) {
            Some(x) => Some(AddressedView { name: x, ..m }),
            None => None,
        }
    } else if tag == 3 {
        match chat_message_embed(m.chat_message, v, ctx) {
            Some(c) => Some(AddressedView { chat_message: Some(c), ..m }),
            None => None,
        }
    } else {
        skip_unknown(m, ctx)
    }
}

/// `addressed_apply` as a function value.
pub open spec fn addressed_step() -> spec_fn(AddressedView, u32, FieldValue, nat) -> Option<AddressedView> {
    |x: AddressedView, t: u32, v: FieldValue, c: nat| addressed_apply(x, t, v, c)
}

/// Merges the fields encoded in `s` into a `SingleMessage` or a
/// `GroupMessage`.
pub open spec fn merge_addressed(m: AddressedView, s: Seq<u8>, ctx: nat) -> Option<AddressedView> {
    merge_fields(addressed_step(), m, s, ctx)
}

/// Applies one field to an `AckMessage`.
pub open spec fn ack_apply(m: AckMessageView, tag: u32, v: FieldValue, ctx: nat) -> Option<
    AckMessageView,
> {
    if tag == 1 {
        match int32_value(v) {
            Some(x) => Some(AckMessageView { code: x, ..m }),
            None => None,
        }
    } else if tag == 2 {
        match string_value(v) {
            Some(x) => Some(AckMessageView { msg_content: x, ..m }),
            None => None,
        }
    } else if tag == 3 {
        match string_value(v) {
            Some(x) => Some(AckMessageView { msg_id: x, ..m }),
            None => None,
        }
    } else if tag == 4 {
        match int32_value(v) {
            Some(x) => Some(AckMessageView { room_id: x, ..m }),
            None => None,
        }
    } else if tag == 5 {
        match int32_value(v) {
            Some(x) => Some(AckMessageView { user_id: x, ..m }),
            None => None,
        }
    } else if tag == 6 {
        match int32_value(v) {
            Some(x) => Some(AckMessageView { msg_type: x, ..m }),
            None => None,
        }
    } else {
        skip_unknown(m, ctx)
    }
}

/// `ack_apply` as a function value.
pub open spec fn ack_step() -> spec_fn(AckMessageView, u32, FieldValue, nat) -> Option<AckMessageView> {
    |x: AckMessageView, t: u32, v: FieldValue, c: nat| ack_apply(x, t, v, c)
}

/// Merges the fields encoded in `s` into an `AckMessage`.
pub open spec fn merge_ack(m: AckMessageView, s: Seq<u8>, ctx: nat) -> Option<AckMessageView> {
    merge_fields(ack_step(), m, s, ctx)
}

/// Applies one field to a `RollbackMessage`.
pub open spec fn rollback_apply(m: RollbackMessageView, tag: u32, v: FieldValue, ctx: nat) -> Option<
    RollbackMessageView,
> {
    if tag == 1 {
        match string_value(v) {
            Some(x) => Some(RollbackMessageView { msg_id: x, ..m }),
            None => None,
        }
    } else if tag == 2 {
        match int32_value(v) {
            Some(x) => Some(RollbackMessageView { room_id: x, ..m }),
            None => None,
        }
    } else {
        skip_unknown(m, ctx)
    }
}

/// `rollback_apply` as a function value.
pub open spec fn rollback_step() -> spec_fn(RollbackMessageView, u32, FieldValue, nat) -> Option<RollbackMessageView> {
    |x: RollbackMessageView, t: u32, v: FieldValue, c: nat| rollback_apply(x, t, v, c)
}

/// Merges the fields encoded in `s` into a `RollbackMessage`.
pub open spec fn merge_rollback(m: RollbackMessageView, s: Seq<u8>, ctx: nat) -> Option<RollbackMessageView> {
    merge_fields(rollback_step(), m, s, ctx)
}

/// Applies one field to a `TaskReadMessage`.
pub open spec fn task_read_apply(m: TaskReadMessageView, tag: u32, v: FieldValue, ctx: nat) -> Option<
    TaskReadMessageView,
> {
    if tag == 1 {
        match string_value(v) {
            Some(x) => Some(TaskReadMessageView { msg_id: x, ..m }),
            None => None,
        }
    } else if tag == 2 {
        match int32_value(v) {
            Some(x) => Some(TaskReadMessageView { room_id: x, ..m }),
            None => None,
        }
    } else if tag == 3 {
        match string_value(v) {
            Some(x) => Some(TaskReadMessageView { user_id: x, ..m }),
            None => None,
        }
    } else {
        skip_unknown(m, ctx)
    }
}

/// `task_read_apply` as a function value.
pub open spec fn task_read_step() -> spec_fn(TaskReadMessageView, u32, FieldValue, nat) -> Option<TaskReadMessageView> {
    |x: TaskReadMessageView, t: u32, v: FieldValue, c: nat| task_read_apply(x, t, v, c)
}

/// Merges the fields encoded in `s` into a `TaskReadMessage`.
pub open spec fn merge_task_read(m: TaskReadMessageView, s: Seq<u8>, ctx: nat) -> Option<TaskReadMessageView> {
    merge_fields(task_read_step(), m, s, ctx)
}

/// Applies one field to a `ResponseMessage`.
pub open spec fn response_apply(m: ResponseMessageView, tag: u32, v: FieldValue, ctx: nat) -> Option<
    ResponseMessageView,
> {
    if tag == 1 {
        match int32_value(v) {
            Some(x) => Some(ResponseMessageView { code: x, ..m }),
            None => None,
        }
    } else if tag == 2 {
        match string_value(v) {
            Some(x) => Some(ResponseMessageView { msg: x, ..m }),
            None => None,
        }
    } else if tag == 3 {
        match string_value(v) {
            Some(x) => Some(ResponseMessageView { msg_id: x, ..m }),
            None => None,
        }
    } else {
        skip_unknown(m, ctx)
    }
}

/// `response_apply` as a function value.
pub open spec fn response_step() -> spec_fn(ResponseMessageView, u32, FieldValue, nat) -> Option<ResponseMessageView> {
    |x: ResponseMessageView, t: u32, v: FieldValue, c: nat| response_apply(x, t, v, c)
}

/// Merges the fields encoded in `s` into a `ResponseMessage`.
pub open spec fn merge_response(m: ResponseMessageView, s: Seq<u8>, ctx: nat) -> Option<ResponseMessageView> {
    merge_fields(response_step(), m, s, ctx)
}

/// Reads the payload of kind `tag` (4 to 10) from `p`, one level deeper:
/// merged into the current payload if it is of the same kind, else into a
/// payload at its defaults.
pub open spec fn obj_merge(cur: Option<ObjView>, tag: u32, p: Seq<u8>, ctx: nat) -> Option<ObjView> {
    if tag == 4 {
        let base = match cur {
            Some(ObjView::Login(x)) => x,
            _ => login_default(),
        };
        match merge_login(base, p, ctx) {
            Some(x) => Some(ObjView::Login(x)),
            None => None,
        }
    } else if tag == 5 {
        let base = match cur {
            Some(ObjView::Single(x)) => x,
            _ => addressed_default(),
        };
        match merge_addressed(base, p, ctx) {
            Some(x) => Some(ObjView::Single(x)),
            None => None,
        }
    } else if tag == 6 {
        let base = match cur {
            Some(ObjView::Group(x)) => x,
            _ => addressed_default(),
        };
        match merge_addressed(base, p, ctx) {
            Some(x) => Some(ObjView::Group(x)),
            None => None,
        }
    } else if tag == 7 {
        let base = match cur {
            Some(ObjView::Ack(x)) => x,
            _ => ack_default(),
        };
        match merge_ack(base, p, ctx) {
            Some(x) => Some(ObjView::Ack(x)),
            None => None,
        }
    } else if tag == 8 {
        let base = match cur {
            Some(ObjView::Rollback(x)) => x,
            _ => rollback_default(),
        };
        match merge_rollback(base, p, ctx) {
            Some(x) => Some(ObjView::Rollback(x)),
            None => None,
        }
    } else if tag == 9 {
        let base = match cur {
            Some(ObjView::TaskRead(x)) => x,
            _ => task_read_default(),
        };
        match merge_task_read(base, p, ctx) {
            Some(x) => Some(ObjView::TaskRead(x)),
            None => None,
        }
    } else {
        let base = match cur {
            Some(ObjView::Response(x)) => x,
            _ => response_default(),
        };
        match merge_response(base, p, ctx) {
            Some(x) => Some(ObjView::Response(x)),
            None => None,
        }
    }
}

/// Applies one field to a `ChatMessagePack`.
pub open spec fn pack_apply(m: PackView, tag: u32, v: FieldValue, ctx: nat) -> Option<PackView> {
    if tag == 2 {
        match string_value(v) {
            Some(x) => Some(PackView { token: x, ..m }),
            None => None,
        }
    } else if tag == 3 {
        match int32_value(v) {
            Some(x) => Some(PackView { msg_type: x, ..m }),
            None => None,
        }
    } else if 4 <= tag <= 10 {
        match v {
            FieldValue::Bytes(p) => if ctx == 0 {
                None
            } else {
                match obj_merge(m.obj, tag, p, (ctx - 1) as nat) {
                    Some(o) => Some(PackView { obj: Some(o), ..m }),
                    None => None,
                }
            },
            _ => None,
        }
    } else {
        skip_unknown(m, ctx)
    }
}

/// `pack_apply` as a function value.
pub open spec fn pack_step() -> spec_fn(PackView, u32, FieldValue, nat) -> Option<PackView> {
    |x: PackView, t: u32, v: FieldValue, c: nat| pack_apply(x, t, v, c)
}

/// Merges the fields encoded in `s` into a `ChatMessagePack`.
pub open spec fn merge_pack(m: PackView, s: Seq<u8>, ctx: nat) -> Option<PackView> {
    merge_fields(pack_step(), m, s, ctx)
}

/// The `ChatMessagePack` that `s` encodes, if it encodes one.
pub open spec fn decode_pack_spec(s: Seq<u8>) -> Option<PackView> {
    merge_pack(pack_default(), s, RECURSION_LIMIT as nat)
}

/// The `ChatMessage` that `s` encodes, if it encodes one.
pub open spec fn decode_chat_message_spec(s: Seq<u8>) -> Option<ChatMessageView> {
    merge_chat_message(chat_message_default(), s, RECURSION_LIMIT as nat)
}


fn read_int32(s: &[u8], val: &FieldRead, Ghost(sv): Ghost<FieldValue>) -> (r: Option<i32>)
    requires
        field_read_matches(*val, sv, s@),
    ensures
        r == int32_value(sv),
{
    match val {
        FieldRead::Varint(x) => Some(*x as i32),
        _ => None,
    }
}

fn read_int64(s: &[u8], val: &FieldRead, Ghost(sv): Ghost<FieldValue>) -> (r: Option<i64>)
    requires
        field_read_matches(*val, sv, s@),
    ensures
        r == int64_value(sv),
{
    match val {
        FieldRead::Varint(x) => Some(*x as i64),
        _ => None,
    }
}

fn read_bool(s: &[u8], val: &FieldRead, Ghost(sv): Ghost<FieldValue>) -> (r: Option<bool>)
    requires
        field_read_matches(*val, sv, s@),
    ensures
        r == bool_value(sv),
{
    match val {
        FieldRead::Varint(x) => Some(*x != 0),
        _ => None,
    }
}

fn read_string(s: &[u8], val: &FieldRead, Ghost(sv): Ghost<FieldValue>) -> (r: Option<String>)
    requires
        field_read_matches(*val, sv, s@),
    ensures
        (r is Some) == (string_value(sv) is Some),
        r matches Some(x) ==> string_value(sv) == Some(x@),
{
    match val {
        FieldRead::Bytes(a, b) => {
            let bytes = vstd::slice::slice_to_vec(&s[*a..*b]);
            string_from_utf8(bytes)
        },
        _ => None,
    }
}

/// The bounds of a length-delimited payload, if the field is one.
fn payload_bounds(s: &[u8], val: &FieldRead, Ghost(sv): Ghost<FieldValue>) -> (r: Option<
    (usize, usize),
>)
    requires
        field_read_matches(*val, sv, s@),
    ensures
        (r is Some) == (sv is Bytes),
        r matches Some((a, b)) ==> a <= b <= s@.len() && sv == FieldValue::Bytes(
            s@.subrange(a as int, b as int),
        ),
{
    match val {
        FieldRead::Bytes(a, b) => Some((*a, *b)),
        _ => None,
    }
}

/// Merges the fields encoded in `s` into a `LoginMessage`, as `merge_login` says.
pub fn merge_login_bytes(msg: LoginMessage, s: &[u8], ctx: u32) -> (r: Option<LoginMessage>)
    ensures
        (r is Some) == (merge_login(msg@, s@, ctx as nat) is Some),
        r matches Some(x) ==> merge_login(msg@, s@, ctx as nat) == Some(x@),
{
    let ghost target = merge_login(msg@, s@, ctx as nat);
    let mut m = msg;
    let mut pos: usize = 0;
    assert(s@.skip(0) =~= s@);
    while pos < s.len()
        invariant
            pos <= s@.len(),
            target == merge_login(msg@, s@, ctx as nat),
            merge_login(m@, s@.skip(pos as int), ctx as nat) == target,
        decreases s@.len() - pos,
    {
        let ghost rest = s@.skip(pos as int);
        let field = decode_field(s, pos, ctx);
        if field.is_none() {
            return None;
        }
        let (tag, _w, val, next) = field.unwrap();
        let ghost sv = read_field(rest, ctx as nat).unwrap().2;
        let ghost n = read_field(rest, ctx as nat).unwrap().3;
        if tag == 1 {
            match read_int32(s, &val, Ghost(sv)) {
                Some(x) => {
                    m.user_id = x;
                },
                None => {
                    return None;
                },
            }
        } else if tag == 2 {
            match read_string(s, &val, Ghost(sv)) {
                Some(x) => {
                    m.username = x;
                },
                None => {
                    return None;
                },
            }
        } else if ctx == 0 {
            return None;
        }
        assert(rest.skip(n as int) =~= s@.skip(next as int));
        pos = next;
    }
    Some(m)
}

/// Merges the fields encoded in `s` into a `ChatMessage`, as `merge_chat_message` says.
#[verifier::rlimit(60)]
pub fn merge_chat_message_bytes(msg: ChatMessage, s: &[u8], ctx: u32) -> (r: Option<ChatMessage>)
    ensures
        (r is Some) == (merge_chat_message(msg@, s@, ctx as nat) is Some),
        r matches Some(x) ==> merge_chat_message(msg@, s@, ctx as nat) == Some(x@),
{
    let ghost target = merge_chat_message(msg@, s@, ctx as nat);
    let mut m = msg;
    let mut pos: usize = 0;
    assert(s@.skip(0) =~= s@);
    while pos < s.len()
        invariant
            pos <= s@.len(),
            target == merge_chat_message(msg@, s@, ctx as nat),
            merge_chat_message(m@, s@.skip(pos as int), ctx as nat) == target,
        decreases s@.len() - pos,
    {
        let ghost rest = s@.skip(pos as int);
        let field = decode_field(s, pos, ctx);
        if field.is_none() {
            return None;
        }
        let (tag, _w, val, next) = field.unwrap();
        let ghost sv = read_field(rest, ctx as nat).unwrap().2;
        let ghost n = read_field(rest, ctx as nat).unwrap().3;
        if tag == 1 {
            match read_string(s, &val, Ghost(sv)) {
                Some(x) => {
                    m.id = x;
                },
                None => {
                    return None;
                },
            }
        } else if tag == 2 {
            match read_int32(s, &val, Ghost(sv)) {
                Some(x) => {
                    m.chat_room_id = x;
                },
                None => {
                    return None;
                },
            }
        } else if tag == 4 {
            match read_int32(s, &val, Ghost(sv)) {
                Some(x) => {
                    m.sender_id = x;
                },
                None => {
                    return None;
                },
            }
        } else if tag == 5 {
            match read_string(s, &val, Ghost(sv)) {
                Some(x) => {
                    m.content = x;
                },
                None => {
                    return None;
                },
            }
        } else if tag == 6 {
            match read_string(s, &val, Ghost(sv)) {
                Some(x) => {
                    m.images_path = x;
                },
                None => {
                    return None;
                },
            }
        } else if tag == 7 {
            match read_string(s, &val, Ghost(sv)) {
                Some(x) => {
                    m.files_path = x;
                },
                None => {
                    return None;
                },
            }
        } else if tag == 8 {
            match read_string(s, &val, Ghost(sv)) {
                Some(x) => {
                    m.videos_path = x;
                },
                None => {
                    return None;
                },
            }
        } else if tag == 9 {
            match read_int64(s, &val, Ghost(sv)) {
                Some(x) => {
                    m.send_time = x;
                },
                None => {
                    return None;
                },
            }
        } else if tag == 10 {
            match read_int64(s, &val, Ghost(sv)) {
                Some(x) => {
                    m.created_time = x;
                },
                None => {
                    return None;
                },
            }
        } else if tag == 11 {
            match read_string(s, &val, Ghost(sv)) {
                Some(x) => {
                    m.sender_name = x;
                },
                None => {
                    return None;
                },
            }
        } else if tag == 12 {
            match read_string(s, &val, Ghost(sv)) {
                Some(x) => {
                    m.sender_avatar = x;
                },
                None => {
                    return None;
                },
            }
        } else if tag == 13 {
            match read_int32(s, &val, Ghost(sv)) {
                Some(x) => {
                    m.receiver_id = x;
                },
                None => {
                    return None;
                },
            }
        } else if tag == 14 {
            match read_bool(s, &val, Ghost(sv)) {
                Some(x) => {
                    m.is_read = x;
                },
                None => {
                    return None;
                },
            }
        } else if tag == 15 {
            match read_string(s, &val, Ghost(sv)) {
                Some(x) => {
                    m.chat_room_name = x;
                },
                None => {
                    return None;
                },
            }
        } else if tag == 16 {
            match read_int32(s, &val, Ghost(sv)) {
                Some(x) => {
                    m.read_count = x;
                },
                None => {
                    return None;
                },
            }
        } else if tag == 21 {
            match read_int32(s, &val, Ghost(sv)) {
                Some(x) => {
                    m.receiver_count = x;
                },
                None => {
                    return None;
                },
            }
        } else if tag == 22 {
            match read_string(s, &val, Ghost(sv)) {
                Some(x) => {
                    let ghost before = m.image_path_list@;
                    m.image_path_list.push(x);
                    assert(strings_view(m.image_path_list@) =~= strings_view(before).push(x@));
                },
                None => {
                    return None;
                },
            }
        } else if tag == 23 {
            match read_string(s, &val, Ghost(sv)) {
                Some(x) => {
                    let ghost before = m.file_path_list@;
                    m.file_path_list.push(x);
                    assert(strings_view(m.file_path_list@) =~= strings_view(before).push(x@));
                },
                None => {
                    return None;
                },
            }
        } else if tag == 24 {
            match read_string(s, &val, Ghost(sv)) {
                Some(x) => {
                    let ghost before = m.video_path_list@;
                    m.video_path_list.push(x);
                    assert(strings_view(m.video_path_list@) =~= strings_view(before).push(x@));
                },
                None => {
                    return None;
                },
            }
        } else if ctx == 0 {
            return None;
        }
        assert(rest.skip(n as int) =~= s@.skip(next as int));
        pos = next;
    }
    Some(m)
}

/// Merges the fields encoded in `s` into a `SingleMessage`, as `merge_addressed` says.
pub fn merge_single_bytes(msg: SingleMessage, s: &[u8], ctx: u32) -> (r: Option<SingleMessage>)
    ensures
        (r is Some) == (merge_addressed(msg@, s@, ctx as nat) is Some),
        r matches Some(x) ==> merge_addressed(msg@, s@, ctx as nat) == Some(x@),
{
    let ghost target = merge_addressed(msg@, s@, ctx as nat);
    let mut m = msg;
    let mut pos: usize = 0;
    assert(s@.skip(0) =~= s@);
    while pos < s.len()
        invariant
            pos <= s@.len(),
            target == merge_addressed(msg@, s@, ctx as nat),
            merge_addressed(m@, s@.skip(pos as int), ctx as nat) == target,
        decreases s@.len() - pos,
    {
        let ghost rest = s@.skip(pos as int);
        let field = decode_field(s, pos, ctx);
        if field.is_none() {
            return None;
        }
        let (tag, _w, val, next) = field.unwrap();
        let ghost sv = read_field(rest, ctx as nat).unwrap().2;
        let ghost n = read_field(rest, ctx as nat).unwrap().3;
        if tag == 1 {
            match read_int32(s, &val, Ghost(sv)) {
                Some(x) => {
                    m.receiver_id = x;
                },
                None => {
                    return None;
                },
            }
        } else if tag == 2 {
            match read_string(s, &val, Ghost(sv)) {
                Some(x) => {
                    m.receiver_name = x;
                },
                None => {
                    return None;
                },
            }
        } else if tag == 3 {
            match payload_bounds(s, &val, Ghost(sv)) {
                Some((a, b)) => {
                    if ctx == 0 {
                        return None;
                    }
                    let base = match m.chat_message.take() {
                        Some(c) => c,
                        None => ChatMessage::new(),
                    };
                    match merge_chat_message_bytes(base, &s[a..b], ctx - 1) {
                        Some(c) => {
                            m.chat_message = Some(c);
                        },
                        None => {
                            return None;
                        },
                    }
                },
                None => {
                    return None;
                },
            }
        } else if ctx == 0 {
            return None;
        }
        assert(rest.skip(n as int) =~= s@.skip(next as int));
        pos = next;
    }
    Some(m)
}

/// Merges the fields encoded in `s` into a `GroupMessage`, as `merge_addressed` says.
pub fn merge_group_bytes(msg: GroupMessage, s: &[u8], ctx: u32) -> (r: Option<GroupMessage>)
    ensures
        (r is Some) == (merge_addressed(msg@, s@, ctx as nat) is Some),
        r matches Some(x) ==> merge_addressed(msg@, s@, ctx as nat) == Some(x@),
{
    let ghost target = merge_addressed(msg@, s@, ctx as nat);
    let mut m = msg;
    let mut pos: usize = 0;
    assert(s@.skip(0) =~= s@);
    while pos < s.len()
        invariant
            pos <= s@.len(),
            target == merge_addressed(msg@, s@, ctx as nat),
            merge_addressed(m@, s@.skip(pos as int), ctx as nat) == target,
        decreases s@.len() - pos,
    {
        let ghost rest = s@.skip(pos as int);
        let field = decode_field(s, pos, ctx);
        if field.is_none() {
            return None;
        }
        let (tag, _w, val, next) = field.unwrap();
        let ghost sv = read_field(rest, ctx as nat).unwrap().2;
        let ghost n = read_field(rest, ctx as nat).unwrap().3;
        if tag == 1 {
            match read_int32(s, &val, Ghost(sv)) {
                Some(x) => {
                    m.group_id = x;
                },
                None => {
                    return None;
                },
            }
        } else if tag == 2 {
            match read_string(s, &val, Ghost(sv)) {
                Some(x) => {
                    m.group_name = x;
                },
                None => {
                    return None;
                },
            }
        } else if tag == 3 {
            match payload_bounds(s, &val, Ghost(sv)) {
                Some((a, b)) => {
                    if ctx == 0 {
                        return None;
                    }
                    let base = match m.chat_message.take() {
                        Some(c) => c,
                        None => ChatMessage::new(),
                    };
                    match merge_chat_message_bytes(base, &s[a..b], ctx - 1) {
                        Some(c) => {
                            m.chat_message = Some(c);
                        },
                        None => {
                            return None;
                        },
                    }
                },
                None => {
                    return None;
                },
            }
        } else if ctx == 0 {
            return None;
        }
        assert(rest.skip(n as int) =~= s@.skip(next as int));
        pos = next;
    }
    Some(m)
}

/// Merges the fields encoded in `s` into an `AckMessage`, as `merge_ack` says.
pub fn merge_ack_bytes(msg: AckMessage, s: &[u8], ctx: u32) -> (r: Option<AckMessage>)
    ensures
        (r is Some) == (merge_ack(msg@, s@, ctx as nat) is Some),
        r matches Some(x) ==> merge_ack(msg@, s@, ctx as nat) == Some(x@),
{
    let ghost target = merge_ack(msg@, s@, ctx as nat);
    let mut m = msg;
    let mut pos: usize = 0;
    assert(s@.skip(0) =~= s@);
    while pos < s.len()
        invariant
            pos <= s@.len(),
            target == merge_ack(msg@, s@, ctx as nat),
            merge_ack(m@, s@.skip(pos as int), ctx as nat) == target,
        decreases s@.len() - pos,
    {
        let ghost rest = s@.skip(pos as int);
        let field = decode_field(s, pos, ctx);
        if field.is_none() {
            return None;
        }
        let (tag, _w, val, next) = field.unwrap();
        let ghost sv = read_field(rest, ctx as nat).unwrap().2;
        let ghost n = read_field(rest, ctx as nat).unwrap().3;
        if tag == 1 {
            match read_int32(s, &val, Ghost(sv)) {
                Some(x) => {
                    m.code = x;
                },
                None => {
                    return None;
                },
            }
        } else if tag == 2 {
            match read_string(s, &val, Ghost(sv)) {
                Some(x) => {
                    m.msg_content = x;
                },
                None => {
                    return None;
                },
            }
        } else if tag == 3 {
            match read_string(s, &val, Ghost(sv)) {
                Some(x) => {
                    m.msg_id = x;
                },
                None => {
                    return None;
                },
            }
        } else if tag == 4 {
            match read_int32(s, &val, Ghost(sv)) {
                Some(x) => {
                    m.room_id = x;
                },
                None => {
                    return None;
                },
            }
        } else if tag == 5 {
            match read_int32(s, &val, Ghost(sv)) {
                Some(x) => {
                    m.user_id = x;
                },
                None => {
                    return None;
                },
            }
        } else if tag == 6 {
            match read_int32(s, &val, Ghost(sv)) {
                Some(x) => {
                    m.msg_type = x;
                },
                None => {
                    return None;
                },
            }
        } else if ctx == 0 {
            return None;
        }
        assert(rest.skip(n as int) =~= s@.skip(next as int));
        pos = next;
    }
    Some(m)
}

/// Merges the fields encoded in `s` into a `RollbackMessage`, as `merge_rollback` says.
pub fn merge_rollback_bytes(msg: RollbackMessage, s: &[u8], ctx: u32) -> (r: Option<RollbackMessage>)
    ensures
        (r is Some) == (merge_rollback(msg@, s@, ctx as nat) is Some),
        r matches Some(x) ==> merge_rollback(msg@, s@, ctx as nat) == Some(x@),
{
    let ghost target = merge_rollback(msg@, s@, ctx as nat);
    let mut m = msg;
    let mut pos: usize = 0;
    assert(s@.skip(0) =~= s@);
    while pos < s.len()
        invariant
            pos <= s@.len(),
            target == merge_rollback(msg@, s@, ctx as nat),
            merge_rollback(m@, s@.skip(pos as int), ctx as nat) == target,
        decreases s@.len() - pos,
    {
        let ghost rest = s@.skip(pos as int);
        let field = decode_field(s, pos, ctx);
        if field.is_none() {
            return None;
        }
        let (tag, _w, val, next) = field.unwrap();
        let ghost sv = read_field(rest, ctx as nat).unwrap().2;
        let ghost n = read_field(rest, ctx as nat).unwrap().3;
        if tag == 1 {
            match read_string(s, &val, Ghost(sv)) {
                Some(x) => {
                    m.msg_id = x;
                },
                None => {
                    return None;
                },
            }
        } else if tag == 2 {
            match read_int32(s, &val, Ghost(sv)) {
                Some(x) => {
                    m.room_id = x;
                },
                None => {
                    return None;
                },
            }
        } else if ctx == 0 {
            return None;
        }
        assert(rest.skip(n as int) =~= s@.skip(next as int));
        pos = next;
    }
    Some(m)
}

/// Merges the fields encoded in `s` into a `TaskReadMessage`, as `merge_task_read` says.
pub fn merge_task_read_bytes(msg: TaskReadMessage, s: &[u8], ctx: u32) -> (r: Option<TaskReadMessage>)
    ensures
        (r is Some) == (merge_task_read(msg@, s@, ctx as nat) is Some),
        r matches Some(x) ==> merge_task_read(msg@, s@, ctx as nat) == Some(x@),
{
    let ghost target = merge_task_read(msg@, s@, ctx as nat);
    let mut m = msg;
    let mut pos: usize = 0;
    assert(s@.skip(0) =~= s@);
    while pos < s.len()
        invariant
            pos <= s@.len(),
            target == merge_task_read(msg@, s@, ctx as nat),
            merge_task_read(m@, s@.skip(pos as int), ctx as nat) == target,
        decreases s@.len() - pos,
    {
        let ghost rest = s@.skip(pos as int);
        let field = decode_field(s, pos, ctx);
        if field.is_none() {
            return None;
        }
        let (tag, _w, val, next) = field.unwrap();
        let ghost sv = read_field(rest, ctx as nat).unwrap().2;
        let ghost n = read_field(rest, ctx as nat).unwrap().3;
        if tag == 1 {
            match read_string(s, &val, Ghost(sv)) {
                Some(x) => {
                    m.msg_id = x;
                },
                None => {
                    return None;
                },
            }
        } else if tag == 2 {
            match read_int32(s, &val, Ghost(sv)) {
                Some(x) => {
                    m.room_id = x;
                },
                None => {
                    return None;
                },
            }
        } else if tag == 3 {
            match read_string(s, &val, Ghost(sv)) {
                Some(x) => {
                    m.user_id = x;
                },
                None => {
                    return None;
                },
            }
        } else if ctx == 0 {
            return None;
        }
        assert(rest.skip(n as int) =~= s@.skip(next as int));
        pos = next;
    }
    Some(m)
}

/// Merges the fields encoded in `s` into a `ResponseMessage`, as `merge_response` says.
pub fn merge_response_bytes(msg: ResponseMessage, s: &[u8], ctx: u32) -> (r: Option<ResponseMessage>)
    ensures
        (r is Some) == (merge_response(msg@, s@, ctx as nat) is Some),
        r matches Some(x) ==> merge_response(msg@, s@, ctx as nat) == Some(x@),
{
    let ghost target = merge_response(msg@, s@, ctx as nat);
    let mut m = msg;
    let mut pos: usize = 0;
    assert(s@.skip(0) =~= s@);
    while pos < s.len()
        invariant
            pos <= s@.len(),
            target == merge_response(msg@, s@, ctx as nat),
            merge_response(m@, s@.skip(pos as int), ctx as nat) == target,
        decreases s@.len() - pos,
    {
        let ghost rest = s@.skip(pos as int);
        let field = decode_field(s, pos, ctx);
        if field.is_none() {
            return None;
        }
        let (tag, _w, val, next) = field.unwrap();
        let ghost sv = read_field(rest, ctx as nat).unwrap().2;
        let ghost n = read_field(rest, ctx as nat).unwrap().3;
        if tag == 1 {
            match read_int32(s, &val, Ghost(sv)) {
                Some(x) => {
                    m.code = x;
                },
                None => {
                    return None;
                },
            }
        } else if tag == 2 {
            match read_string(s, &val, Ghost(sv)) {
                Some(x) => {
                    m.msg = x;
                },
                None => {
                    return None;
                },
            }
        } else if tag == 3 {
            match read_string(s, &val, Ghost(sv)) {
                Some(x) => {
                    m.msg_id = x;
                },
                None => {
                    return None;
                },
            }
        } else if ctx == 0 {
            return None;
        }
        assert(rest.skip(n as int) =~= s@.skip(next as int));
        pos = next;
    }
    Some(m)
}

/// Merges the fields encoded in `s` into a `ChatMessagePack`, as `merge_pack` says.
pub fn merge_pack_bytes(msg: ChatMessagePack, s: &[u8], ctx: u32) -> (r: Option<ChatMessagePack>)
    ensures
        (r is Some) == (merge_pack(msg@, s@, ctx as nat) is Some),
        r matches Some(x) ==> merge_pack(msg@, s@, ctx as nat) == Some(x@),
{
    let ghost target = merge_pack(msg@, s@, ctx as nat);
    let mut m = msg;
    let mut pos: usize = 0;
    assert(s@.skip(0) =~= s@);
    while pos < s.len()
        invariant
            pos <= s@.len(),
            target == merge_pack(msg@, s@, ctx as nat),
            merge_pack(m@, s@.skip(pos as int), ctx as nat) == target,
        decreases s@.len() - pos,
    {
        let ghost rest = s@.skip(pos as int);
        let field = decode_field(s, pos, ctx);
        if field.is_none() {
            return None;
        }
        let (tag, _w, val, next) = field.unwrap();
        let ghost sv = read_field(rest, ctx as nat).unwrap().2;
        let ghost n = read_field(rest, ctx as nat).unwrap().3;
        if tag == 2 {
            match read_string(s, &val, Ghost(sv)) {
                Some(x) => {
                    m.token = x;
                },
                None => {
                    return None;
                },
            }
        } else if tag == 3 {
            match read_int32(s, &val, Ghost(sv)) {
                Some(x) => {
                    m.msg_type = x;
                },
                None => {
                    return None;
                },
            }
        } else if 4 <= tag && tag <= 10 {
            match payload_bounds(s, &val, Ghost(sv)) {
                Some((a, b)) => {
                    if ctx == 0 {
                        return None;
                    }
                    match merge_obj_bytes(m.obj.take(), tag, &s[a..b], ctx - 1) {
                        Some(o) => {
                            m.obj = Some(o);
                        },
                        None => {
                            return None;
                        },
                    }
                },
                None => {
                    return None;
                },
            }
        } else if ctx == 0 {
            return None;
        }
        assert(rest.skip(n as int) =~= s@.skip(next as int));
        pos = next;
    }
    Some(m)
}

/// Reads a payload of kind `tag` from `p`, as `obj_merge` says.
fn merge_obj_bytes(cur: Option<Obj>, tag: u32, p: &[u8], ctx: u32) -> (r: Option<Obj>)
    requires
        4 <= tag <= 10,
    ensures
        (r is Some) == (obj_merge(obj_option_view(cur), tag, p@, ctx as nat) is Some),
        r matches Some(x) ==> obj_merge(obj_option_view(cur), tag, p@, ctx as nat) == Some(x@),
{
    if tag == 4 {
        let base = match cur {
            Some(Obj::LoginMessage(x)) => x,
            _ => LoginMessage::default(),
        };
        match merge_login_bytes(base, p, ctx) {
            Some(x) => Some(Obj::LoginMessage(x)),
            None => None,
        }
    } else if tag == 5 {
        let base = match cur {
            Some(Obj::SingleMessage(x)) => x,
            _ => SingleMessage::default(),
        };
        match merge_single_bytes(base, p, ctx) {
            Some(x) => Some(Obj::SingleMessage(x)),
            None => None,
        }
    } else if tag == 6 {
        let base = match cur {
            Some(Obj::GroupMessage(x)) => x,
            _ => GroupMessage::default(),
        };
        match merge_group_bytes(base, p, ctx) {
            Some(x) => Some(Obj::GroupMessage(x)),
            None => None,
        }
    } else if tag == 7 {
        let base = match cur {
            Some(Obj::AckMessage(x)) => x,
            _ => AckMessage::default(),
        };
        match merge_ack_bytes(base, p, ctx) {
            Some(x) => Some(Obj::AckMessage(x)),
            None => None,
        }
    } else if tag == 8 {
        let base = match cur {
            Some(Obj::RollbackMessage(x)) => x,
            _ => RollbackMessage::default(),
        };
        match merge_rollback_bytes(base, p, ctx) {
            Some(x) => Some(Obj::RollbackMessage(x)),
            None => None,
        }
    } else if tag == 9 {
        let base = match cur {
            Some(Obj::TaskReadMessage(x)) => x,
            _ => TaskReadMessage::default(),
        };
        match merge_task_read_bytes(base, p, ctx) {
            Some(x) => Some(Obj::TaskReadMessage(x)),
            None => None,
        }
    } else {
        let base = match cur {
            Some(Obj::ResponseMessage(x)) => x,
            _ => ResponseMessage::default(),
        };
        match merge_response_bytes(base, p, ctx) {
            Some(x) => Some(Obj::ResponseMessage(x)),
            None => None,
        }
    }
}

} // verus!
