//! Client-side core of a desktop instant-messaging application: the
//! protobuf wire format of the chat protocol, the records exchanged with the
//! HTTP backend and the local token store, and the decisions that the
//! application shell takes on responses, socket events and menu clicks.

mod text;
pub mod wire;
pub mod msg_type;
pub mod message;
pub mod encode;
pub mod decode;
pub mod codec;
pub mod layout;
pub mod http;
pub mod sqlite;
pub mod socket;
pub mod commands;
pub mod menu;
pub mod secure;

pub use msg_type::MsgType;
pub use message::{
    AckMessage, ChatMessage, ChatMessagePack, GroupMessage, LoginMessage, Obj, ResponseMessage,
    RollbackMessage, SingleMessage, TaskReadMessage,
};
