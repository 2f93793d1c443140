//! The chat socket: whether it is connected, the packets the client sends,
//! and what it does with the packets it receives.
use vstd::prelude::*;
use crate::msg_type::{MsgType, msg_type_value};
use crate::message::{
    AckMessage, AckMessageView, AddressedView, ChatMessage, ChatMessagePack, ChatMessageView, GroupMessage,
    LoginMessage, LoginMessageView, Obj, ObjView, PackView, chat_message_default,
};
use crate::encode::pack_bytes;
use crate::decode::decode_pack_spec;
use crate::codec::law_pack_round_trip;
use crate::sqlite;

verus! {

/// Whether the chat socket is connected.
#[derive(Clone, Copy, Debug, PartialEq, Eq, Structural)]
pub enum ConnectedEnum {
    YES,
    NO,
}

/// What to do once a connection to the socket server is open.
#[derive(Clone, Copy, Debug, PartialEq, Eq, Structural)]
pub enum ConnectAction {
    /// Another connection is already running: drop this one.
    AlreadyConnected,
    /// Log in over this connection and start listening.
    Start,
}

/// The flag and the action after a connection opened.
pub open spec fn opened(flag: ConnectedEnum) -> (ConnectedEnum, ConnectAction) {
    match flag {
        ConnectedEnum::YES => (ConnectedEnum::YES, ConnectAction::AlreadyConnected),
        ConnectedEnum::NO => (ConnectedEnum::YES, ConnectAction::Start),
    }
}

/// A connection to the socket server opened while the flag was `flag`:
/// the new flag, and what to do with the connection.
pub fn on_socket_opened(flag: ConnectedEnum) -> (r: (ConnectedEnum, ConnectAction))
    ensures
        r == opened(flag),
{
    match flag {
        ConnectedEnum::YES => (ConnectedEnum::YES, ConnectAction::AlreadyConnected),
        ConnectedEnum::NO => (ConnectedEnum::YES, ConnectAction::Start),
    }
}

/// Reading from the socket failed: it counts as disconnected.
pub fn on_socket_closed(flag: ConnectedEnum) -> (r: ConnectedEnum)
    ensures
        r == ConnectedEnum::NO,
{
    ConnectedEnum::NO
}

/// At most one connection runs at a time: once one has started, a second
/// one that opens is dropped, until a read fails; after that a new one
/// starts.
pub proof fn law_single_connection(flag: ConnectedEnum)
    ensures
        opened(flag).0 == ConnectedEnum::YES,
        opened(opened(flag).0).1 == ConnectAction::AlreadyConnected,
        opened(ConnectedEnum::NO).1 == ConnectAction::Start,
{
}

/// The payload that logs a user in over the socket.
pub fn login_obj(user: &sqlite::User) -> (r: Obj)
    ensures
        r@ == ObjView::Login(LoginMessageView { user_id: user.id, username: user.username@ }),
{
    Obj::LoginMessage(LoginMessage { user_id: user.id, username: user.username.clone() })
}

/// The group message that a message typed in a chat room becomes: its id,
/// text and room, signed by `sender_id`. A message without an id, a text or
/// a room is not sent.
pub open spec fn group_message_spec(
    id: Option<Seq<char>>,
    content: Option<Seq<char>>,
    room: Option<i32>,
    sender_id: i32,
) -> Option<ObjView> {
    match (id, content, room) {
        (Some(i), Some(c), Some(r)) => Some(
            ObjView::Group(
                AddressedView {
                    id: r,
                    name: Seq::empty(),
                    chat_message: Some(
                        ChatMessageView {
                            id: i,
                            content: c,
                            chat_room_id: r,
                            sender_id,
                            ..chat_message_default()
                        },
                    ),
                },
            ),
        ),
        _ => None,
    }
}

/// The view of an optional string.
pub open spec fn opt_string_view(s: Option<String>) -> Option<Seq<char>> {
    match s {
        Some(x) => Some(x@),
        None => None,
    }
}

/// The payload of a message that the user sends to a chat room.
pub fn group_message_from_draft(msg: sqlite::ChatMessage, sender_id: i32) -> (r: Option<Obj>)
    ensures
        (r is Some) == (group_message_spec(
            opt_string_view(msg.id),
            opt_string_view(msg.content),
            msg.roomId,
            sender_id,
        ) is Some),
        r matches Some(o) ==> group_message_spec(
            opt_string_view(msg.id),
            opt_string_view(msg.content),
            msg.roomId,
            sender_id,
        ) == Some(o@),
        (r is Some) == (msg.id is Some && msg.content is Some && msg.roomId is Some),
        r matches Some(o) ==> (match o {
            Obj::GroupMessage(g) => msg.roomId == Some(g.group_id) && g.group_name@.len() == 0
                && (match g.chat_message {
                Some(c) => opt_string_view(msg.id) == Some(c.id@) && opt_string_view(msg.content)
                    == Some(c.content@) && msg.roomId == Some(c.chat_room_id) && c.sender_id
                    == sender_id && c.images_path@.len() == 0 && c.sender_name@.len() == 0
                    && c.send_time == 0 && c.receiver_id == 0,
                None => false,
            }),
            _ => false,
        }),
{
    let ghost target = group_message_spec(
        opt_string_view(msg.id),
        opt_string_view(msg.content),
        msg.roomId,
        sender_id,
    );
    let mut draft = msg;
    let mut chat_message = ChatMessage::new();
    match draft.id.take() {
        Some(id) => {
            chat_message.id = id;
        },
        None => {
            return None;
        },
    }
    match draft.content.take() {
        Some(content) => {
            chat_message.content = content;
        },
        None => {
            return None;
        },
    }
    match draft.roomId {
        Some(room_id) => {
            chat_message.chat_room_id = room_id;
        },
        None => {
            return None;
        },
    }
    chat_message.sender_id = sender_id;
    let group_id = chat_message.chat_room_id;
    let r = Obj::GroupMessage(
        GroupMessage { group_id, group_name: String::new(), chat_message: Some(chat_message) },
    );
    assert(r@ =~= target.unwrap());
    Some(r)
}

/// The bytes of a packet of kind `msg_type` carrying `obj`, signed with
/// `token`.
pub fn outgoing_packet(token: &str, msg_type: MsgType, obj: Obj) -> (r: Vec<u8>)
    ensures
        r@ == pack_bytes(
            PackView { token: token@, msg_type: msg_type_value(msg_type), obj: Some(obj@) },
        ),
{
    let pack = ChatMessagePack::new(token, msg_type, Some(obj));
    pack.encode_to_vec()
}

/// What a packet received over the socket asks of the user interface.
#[derive(Debug)]
pub enum Inbound {
    /// Show a chat message of a group.
    ChatMessage(ChatMessage),
    /// Report that the server acknowledged a message.
    Ack(AckMessage),
    /// Nothing.
    Ignored,
}

/// Why a packet received over the socket cannot be handled.
#[derive(Clone, Copy, Debug, PartialEq, Eq, Structural)]
pub enum InboundError {
    /// The bytes do not encode a packet.
    Malformed,
    /// The packet carries no payload.
    NoPayload,
    /// A group message without a chat message.
    NoChatMessage,
}

/// What a received packet asks of the user interface, as values.
pub enum InboundView {
    ChatMessage(ChatMessageView),
    Ack(AckMessageView),
    Ignored,
}

impl View for Inbound {
    type V = InboundView;

    open spec fn view(&self) -> InboundView {
        match self {
            Inbound::ChatMessage(m) => InboundView::ChatMessage(m@),
            Inbound::Ack(a) => InboundView::Ack(a@),
            Inbound::Ignored => InboundView::Ignored,
        }
    }
}

/// What a packet's payload asks of the user interface: a group message is
/// shown, an acknowledgement reported, anything else ignored.
pub open spec fn payload_route(obj: ObjView) -> Result<InboundView, InboundError> {
    match obj {
        ObjView::Group(g) => match g.chat_message {
            Some(c) => Ok(InboundView::ChatMessage(c)),
            None => Err(InboundError::NoChatMessage),
        },
        ObjView::Ack(a) => Ok(InboundView::Ack(a)),
        _ => Ok(InboundView::Ignored),
    }
}

/// What the bytes of a received packet ask of the user interface.
pub open spec fn route_spec(bytes: Seq<u8>) -> Result<InboundView, InboundError> {
    match decode_pack_spec(bytes) {
        None => Err(InboundError::Malformed),
        Some(p) => match p.obj {
            None => Err(InboundError::NoPayload),
            Some(o) => payload_route(o),
        },
    }
}

/// The view of a routing result.
pub open spec fn route_result_view(r: Result<Inbound, InboundError>) -> Result<
    InboundView,
    InboundError,
> {
    match r {
        Ok(i) => Ok(i@),
        Err(e) => Err(e),
    }
}

/// Handles a binary packet received over the socket.
pub fn route_incoming(bytes: &[u8]) -> (r: Result<Inbound, InboundError>)
    ensures
        route_result_view(r) == route_spec(bytes@),
        decode_pack_spec(bytes@) is None ==> r == Err::<Inbound, InboundError>(
            InboundError::Malformed,
        ),
        decode_pack_spec(bytes@) matches Some(p) ==> (p.obj is None ==> r == Err::<
            Inbound,
            InboundError,
        >(InboundError::NoPayload)),
        decode_pack_spec(bytes@) matches Some(p) ==> (p.obj matches Some(ObjView::Group(g)) ==> (
        g.chat_message matches Some(c) ==> (r matches Ok(Inbound::ChatMessage(m)) && m@ == c))),
        decode_pack_spec(bytes@) matches Some(p) ==> (p.obj matches Some(ObjView::Group(g)) ==> (
        g.chat_message is None ==> r == Err::<Inbound, InboundError>(
            InboundError::NoChatMessage,
        ))),
        decode_pack_spec(bytes@) matches Some(p) ==> (p.obj matches Some(ObjView::Ack(a)) ==> (
        r matches Ok(Inbound::Ack(m)) && m@ == a)),
        decode_pack_spec(bytes@) matches Some(p) ==> (p.obj matches Some(o) ==> (!(o is Group)
            && !(o is Ack) ==> (r matches Ok(Inbound::Ignored)))),
{
    let pack = match ChatMessagePack::decode(bytes) {
        Ok(p) => p,
        Err(_) => {
            return Err(InboundError::Malformed);
        },
    };
    match pack.obj {
        None => Err(InboundError::NoPayload),
        Some(Obj::GroupMessage(g)) => match g.chat_message {
            Some(c) => Ok(Inbound::ChatMessage(c)),
            None => Err(InboundError::NoChatMessage),
        },
        Some(Obj::AckMessage(a)) => Ok(Inbound::Ack(a)),
        Some(_) => Ok(Inbound::Ignored),
    }
}

/// Every group message that carries a chat message is shown, whatever the
/// group's id and name; every acknowledgement is reported; other payloads
/// are ignored.
pub proof fn law_group_messages_are_shown(bytes: Seq<u8>)
    ensures
        decode_pack_spec(bytes) matches Some(p) ==> (p.obj matches Some(ObjView::Group(g)) ==> (
        g.chat_message matches Some(c) ==> route_spec(bytes) == Ok::<InboundView, InboundError>(
            InboundView::ChatMessage(c),
        ))),
        decode_pack_spec(bytes) matches Some(p) ==> (p.obj matches Some(ObjView::Ack(a))
            ==> route_spec(bytes) == Ok::<InboundView, InboundError>(InboundView::Ack(a))),
        decode_pack_spec(bytes) matches Some(p) ==> (p.obj matches Some(o) ==> (!(o is Group)
            && !(o is Ack) ==> route_spec(bytes) == Ok::<InboundView, InboundError>(
            InboundView::Ignored,
        ))),
{
}

/// What one end sends, the other receives: a packet built as
/// `outgoing_packet` builds it is routed by its payload alone, whatever its
/// token and kind.
pub proof fn law_sent_packet_routes_by_payload(token: Seq<char>, msg_type: i32, obj: ObjView)
    requires
        pack_bytes(PackView { token, msg_type, obj: Some(obj) }).len() <= u64::MAX,
    ensures
        route_spec(pack_bytes(PackView { token, msg_type, obj: Some(obj) })) == payload_route(
            obj,
        ),
{
    law_pack_round_trip(PackView { token, msg_type, obj: Some(obj) });
}

} // verus!
