//! The messages of the chat protocol and their mathematical views.
use vstd::prelude::*;
use crate::msg_type::{MsgType, msg_type_value};

verus! {

/// The envelope of every packet sent over the chat socket.
#[derive(Clone, Debug, PartialEq)]
pub struct ChatMessagePack {
    /// Field 2: the session token of the sender.
    pub token: String,
    /// Field 3: the kind of the packet, a `MsgType` number.
    pub msg_type: i32,
    /// Fields 4 to 10: the payload, one message of the kind.
    pub obj: Option<Obj>,
}

/// The payload of a packet: exactly one of the protocol's messages.
#[derive(Clone, Debug, PartialEq)]
pub enum Obj {
    /// Field 4.
    LoginMessage(LoginMessage),
    /// Field 5.
    SingleMessage(SingleMessage),
    /// Field 6.
    GroupMessage(GroupMessage),
    /// Field 7.
    AckMessage(AckMessage),
    /// Field 8.
    RollbackMessage(RollbackMessage),
    /// Field 9.
    TaskReadMessage(TaskReadMessage),
    /// Field 10.
    ResponseMessage(ResponseMessage),
}

/// Authenticates the socket of a user.
#[derive(Clone, Debug, PartialEq)]
pub struct LoginMessage {
    /// Field 1.
    pub user_id: i32,
    /// Field 2.
    pub username: String,
}

/// A private message to one user.
#[derive(Clone, Debug, PartialEq)]
pub struct SingleMessage {
    /// Field 1.
    pub receiver_id: i32,
    /// Field 2.
    pub receiver_name: String,
    /// Field 3.
    pub chat_message: Option<ChatMessage>,
}

/// A message to a chat group.
#[derive(Clone, Debug, PartialEq)]
pub struct GroupMessage {
    /// Field 1.
    pub group_id: i32,
    /// Field 2.
    pub group_name: String,
    /// Field 3.
    pub chat_message: Option<ChatMessage>,
}

/// The server's acknowledgement of a message.
#[derive(Clone, Debug, PartialEq)]
pub struct AckMessage {
    /// Field 1.
    pub code: i32,
    /// Field 2.
    pub msg_content: String,
    /// Field 3.
    pub msg_id: String,
    /// Field 4.
    pub room_id: i32,
    /// Field 5.
    pub user_id: i32,
    /// Field 6.
    pub msg_type: i32,
}

/// Withdraws an earlier message.
#[derive(Clone, Debug, PartialEq)]
pub struct RollbackMessage {
    /// Field 1.
    pub msg_id: String,
    /// Field 2.
    pub room_id: i32,
}

/// Reports that a task message was read.
#[derive(Clone, Debug, PartialEq)]
pub struct TaskReadMessage {
    /// Field 1.
    pub msg_id: String,
    /// Field 2.
    pub room_id: i32,
    /// Field 3.
    pub user_id: String,
}

/// The server's answer to a request, such as "success" or "failure".
#[derive(Clone, Debug, PartialEq)]
pub struct ResponseMessage {
    /// Field 1.
    pub code: i32,
    /// Field 2: the text of the answer.
    pub msg: String,
    /// Field 3.
    pub msg_id: String,
}

/// One chat message.
#[derive(Clone, Debug, PartialEq)]
pub struct ChatMessage {
    /// Field 1: the message id, a uuid.
    pub id: String,
    /// Field 2: the chat room.
    pub chat_room_id: i32,
    /// Field 4: the sender.
    pub sender_id: i32,
    /// Field 5: the text.
    pub content: String,
    /// Field 6: path of the images.
    pub images_path: String,
    /// Field 7: path of the attachments.
    pub files_path: String,
    /// Field 8: path of the videos.
    pub videos_path: String,
    /// Field 9: when it was sent.
    pub send_time: i64,
    /// Field 10: when it was created.
    pub created_time: i64,
    /// Field 11: name of the sender.
    pub sender_name: String,
    /// Field 12: avatar of the sender.
    pub sender_avatar: String,
    /// Field 13: the receiver.
    pub receiver_id: i32,
    /// Field 14: whether it was read.
    pub is_read: bool,
    /// Field 15: name of the chat room.
    pub chat_room_name: String,
    /// Field 16: how many have read it.
    pub read_count: i32,
    /// Field 21: how many receive it.
    pub receiver_count: i32,
    /// Field 22: paths of the images.
    pub image_path_list: Vec<String>,
    /// Field 23: paths of the files.
    pub file_path_list: Vec<String>,
    /// Field 24: paths of the videos.
    pub video_path_list: Vec<String>,
}

/// The content of a `LoginMessage`.
#[verifier::ext_equal]
pub struct LoginMessageView {
    pub user_id: i32,
    pub username: Seq<char>,
}

/// The content of a `ChatMessage`.
#[verifier::ext_equal]
pub struct ChatMessageView {
    pub id: Seq<char>,
    pub chat_room_id: i32,
    pub sender_id: i32,
    pub content: Seq<char>,
    pub images_path: Seq<char>,
    pub files_path: Seq<char>,
    pub videos_path: Seq<char>,
    pub send_time: i64,
    pub created_time: i64,
    pub sender_name: Seq<char>,
    pub sender_avatar: Seq<char>,
    pub receiver_id: i32,
    pub is_read: bool,
    pub chat_room_name: Seq<char>,
    pub read_count: i32,
    pub receiver_count: i32,
    pub image_path_list: Seq<Seq<char>>,
    pub file_path_list: Seq<Seq<char>>,
    pub video_path_list: Seq<Seq<char>>,
}

/// The content of a `SingleMessage` or a `GroupMessage`: an id, a name and an
/// optional chat message.
#[verifier::ext_equal]
pub struct AddressedView {
    pub id: i32,
    pub name: Seq<char>,
    pub chat_message: Option<ChatMessageView>,
}

/// The content of an `AckMessage`.
#[verifier::ext_equal]
pub struct AckMessageView {
    pub code: i32,
    pub msg_content: Seq<char>,
    pub msg_id: Seq<char>,
    pub room_id: i32,
    pub user_id: i32,
    pub msg_type: i32,
}

/// The content of a `RollbackMessage`.
#[verifier::ext_equal]
pub struct RollbackMessageView {
    pub msg_id: Seq<char>,
    pub room_id: i32,
}

/// The content of a `TaskReadMessage`.
#[verifier::ext_equal]
pub struct TaskReadMessageView {
    pub msg_id: Seq<char>,
    pub room_id: i32,
    pub user_id: Seq<char>,
}

/// The content of a `ResponseMessage`.
#[verifier::ext_equal]
pub struct ResponseMessageView {
    pub code: i32,
    pub msg: Seq<char>,
    pub msg_id: Seq<char>,
}

/// The content of an `Obj`.
#[verifier::ext_equal]
pub enum ObjView {
    Login(LoginMessageView),
    Single(AddressedView),
    Group(AddressedView),
    Ack(AckMessageView),
    Rollback(RollbackMessageView),
    TaskRead(TaskReadMessageView),
    Response(ResponseMessageView),
}

/// The content of a `ChatMessagePack`.
#[verifier::ext_equal]
pub struct PackView {
    pub token: Seq<char>,
    pub msg_type: i32,
    pub obj: Option<ObjView>,
}

/// The characters of each string of a list.
pub open spec fn strings_view(v: Seq<String>) -> Seq<Seq<char>> {
    v.map_values(|s: String| s@)
}

impl View for LoginMessage {
    type V = LoginMessageView;

    open spec fn view(&self) -> LoginMessageView {
        LoginMessageView { user_id: self.user_id, username: self.username@ }
    }
}

impl View for ChatMessage {
    type V = ChatMessageView;

    open spec fn view(&self) -> ChatMessageView {
        ChatMessageView {
            id: self.id@,
            chat_room_id: self.chat_room_id,
            sender_id: self.sender_id,
            content: self.content@,
            images_path: self.images_path@,
            files_path: self.files_path@,
            videos_path: self.videos_path@,
            send_time: self.send_time,
            created_time: self.created_time,
            sender_name: self.sender_name@,
            sender_avatar: self.sender_avatar@,
            receiver_id: self.receiver_id,
            is_read: self.is_read,
            chat_room_name: self.chat_room_name@,
            read_count: self.read_count,
            receiver_count: self.receiver_count,
            image_path_list: strings_view(self.image_path_list@),
            file_path_list: strings_view(self.file_path_list@),
            video_path_list: strings_view(self.video_path_list@),
        }
    }
}

/// The view of an optional chat message.
pub open spec fn chat_message_option_view(c: Option<ChatMessage>) -> Option<ChatMessageView> {
    match c {
        Some(m) => Some(m@),
        None => None,
    }
}

impl View for SingleMessage {
    type V = AddressedView;

    open spec fn view(&self) -> AddressedView {
        AddressedView {
            id: self.receiver_id,
            name: self.receiver_name@,
            chat_message: chat_message_option_view(self.chat_message),
        }
    }
}

impl View for GroupMessage {
    type V = AddressedView;

    open spec fn view(&self) -> AddressedView {
        AddressedView {
            id: self.group_id,
            name: self.group_name@,
            chat_message: chat_message_option_view(self.chat_message),
        }
    }
}

impl View for AckMessage {
    type V = AckMessageView;

    open spec fn view(&self) -> AckMessageView {
        AckMessageView {
            code: self.code,
            msg_content: self.msg_content@,
            msg_id: self.msg_id@,
            room_id: self.room_id,
            user_id: self.user_id,
            msg_type: self.msg_type,
        }
    }
}

impl View for RollbackMessage {
    type V = RollbackMessageView;

    open spec fn view(&self) -> RollbackMessageView {
        RollbackMessageView { msg_id: self.msg_id@, room_id: self.room_id }
    }
}

impl View for TaskReadMessage {
    type V = TaskReadMessageView;

    open spec fn view(&self) -> TaskReadMessageView {
        TaskReadMessageView { msg_id: self.msg_id@, room_id: self.room_id, user_id: self.user_id@ }
    }
}

impl View for ResponseMessage {
    type V = ResponseMessageView;

    open spec fn view(&self) -> ResponseMessageView {
        ResponseMessageView { code: self.code, msg: self.msg@, msg_id: self.msg_id@ }
    }
}

impl View for Obj {
    type V = ObjView;

    open spec fn view(&self) -> ObjView {
        match self {
            Obj::LoginMessage(m) => ObjView::Login(m@),
            Obj::SingleMessage(m) => ObjView::Single(m@),
            Obj::GroupMessage(m) => ObjView::Group(m@),
            Obj::AckMessage(m) => ObjView::Ack(m@),
            Obj::RollbackMessage(m) => ObjView::Rollback(m@),
            Obj::TaskReadMessage(m) => ObjView::TaskRead(m@),
            Obj::ResponseMessage(m) => ObjView::Response(m@),
        }
    }
}

/// The view of an optional payload.
pub open spec fn obj_option_view(o: Option<Obj>) -> Option<ObjView> {
    match o {
        Some(m) => Some(m@),
        None => None,
    }
}

impl View for ChatMessagePack {
    type V = PackView;

    open spec fn view(&self) -> PackView {
        PackView { token: self.token@, msg_type: self.msg_type, obj: obj_option_view(self.obj) }
    }
}

/// Every field at its default: zero, false, empty.
pub open spec fn login_default() -> LoginMessageView {
    LoginMessageView { user_id: 0, username: Seq::empty() }
}

/// Every field at its default: zero, false, empty.
pub open spec fn chat_message_default() -> ChatMessageView {
    ChatMessageView {
        id: Seq::empty(),
        chat_room_id: 0,
        sender_id: 0,
        content: Seq::empty(),
        images_path: Seq::empty(),
        files_path: Seq::empty(),
        videos_path: Seq::empty(),
        send_time: 0,
        created_time: 0,
        sender_name: Seq::empty(),
        sender_avatar: Seq::empty(),
        receiver_id: 0,
        is_read: false,
        chat_room_name: Seq::empty(),
        read_count: 0,
        receiver_count: 0,
        image_path_list: Seq::empty(),
        file_path_list: Seq::empty(),
        video_path_list: Seq::empty(),
    }
}

/// Every field at its default: zero, empty, no chat message.
pub open spec fn addressed_default() -> AddressedView {
    AddressedView { id: 0, name: Seq::empty(), chat_message: None }
}

/// Every field at its default: zero, empty.
pub open spec fn ack_default() -> AckMessageView {
    AckMessageView {
        code: 0,
        msg_content: Seq::empty(),
        msg_id: Seq::empty(),
        room_id: 0,
        user_id: 0,
        msg_type: 0,
    }
}

/// Every field at its default: zero, empty.
pub open spec fn rollback_default() -> RollbackMessageView {
    RollbackMessageView { msg_id: Seq::empty(), room_id: 0 }
}

/// Every field at its default: zero, empty.
pub open spec fn task_read_default() -> TaskReadMessageView {
    TaskReadMessageView { msg_id: Seq::empty(), room_id: 0, user_id: Seq::empty() }
}

/// Every field at its default: zero, empty.
pub open spec fn response_default() -> ResponseMessageView {
    ResponseMessageView { code: 0, msg: Seq::empty(), msg_id: Seq::empty() }
}

/// Every field at its default: empty token, kind 0, no payload.
pub open spec fn pack_default() -> PackView {
    PackView { token: Seq::empty(), msg_type: 0, obj: None }
}

impl Default for LoginMessage {
    fn default() -> (r: Self)
        ensures
            r@ == login_default(),
    {
        LoginMessage { user_id: 0, username: String::new() }
    }
}

impl Default for ChatMessage {
    fn default() -> (r: Self)
        ensures
            r@ == chat_message_default(),
    {
        ChatMessage::new()
    }
}

impl Default for SingleMessage {
    fn default() -> (r: Self)
        ensures
            r@ == addressed_default(),
    {
        SingleMessage { receiver_id: 0, receiver_name: String::new(), chat_message: None }
    }
}

impl Default for GroupMessage {
    fn default() -> (r: Self)
        ensures
            r@ == addressed_default(),
    {
        GroupMessage { group_id: 0, group_name: String::new(), chat_message: None }
    }
}

impl Default for AckMessage {
    fn default() -> (r: Self)
        ensures
            r@ == ack_default(),
    {
        AckMessage {
            code: 0,
            msg_content: String::new(),
            msg_id: String::new(),
            room_id: 0,
            user_id: 0,
            msg_type: 0,
        }
    }
}

impl Default for RollbackMessage {
    fn default() -> (r: Self)
        ensures
            r@ == rollback_default(),
    {
        RollbackMessage { msg_id: String::new(), room_id: 0 }
    }
}

impl Default for TaskReadMessage {
    fn default() -> (r: Self)
        ensures
            r@ == task_read_default(),
    {
        TaskReadMessage { msg_id: String::new(), room_id: 0, user_id: String::new() }
    }
}

impl Default for ResponseMessage {
    fn default() -> (r: Self)
        ensures
            r@ == response_default(),
    {
        ResponseMessage { code: 0, msg: String::new(), msg_id: String::new() }
    }
}

impl Default for ChatMessagePack {
    fn default() -> (r: Self)
        ensures
            r@ == pack_default(),
    {
        ChatMessagePack { token: String::new(), msg_type: 0, obj: None }
    }
}

impl ChatMessagePack {
    /// A packet of kind `msg_type` carrying `obj`, signed with `token`.
    pub fn new(token: &str, msg_type: MsgType, obj: Option<Obj>) -> (r: Self)
        ensures
            r@ == (PackView {
                token: token@,
                msg_type: msg_type_value(msg_type),
                obj: obj_option_view(obj),
            }),
    {
        ChatMessagePack { token: token.to_owned(), msg_type: msg_type.get_value(), obj }
    }
}

impl ChatMessage {
    /// A chat message with every field at its default.
    pub fn new() -> (r: Self)
        ensures
            r@ == chat_message_default(),
    {
        let r = ChatMessage {
            id: String::new(),
            chat_room_id: 0,
            sender_id: 0,
            content: String::new(),
            images_path: String::new(),
            files_path: String::new(),
            videos_path: String::new(),
            send_time: 0,
            created_time: 0,
            sender_name: String::new(),
            sender_avatar: String::new(),
            receiver_id: 0,
            is_read: false,
            chat_room_name: String::new(),
            read_count: 0,
            receiver_count: 0,
            image_path_list: Vec::new(),
            file_path_list: Vec::new(),
            video_path_list: Vec::new(),
        };
        assert(r@ =~= chat_message_default());
        r
    }
}

} // verus!
