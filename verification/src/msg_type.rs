use vstd::prelude::*;
use crate::text::str_equal;

verus! {

/// The kind of a packet exchanged over the chat socket, as declared in the
/// protocol's `MsgType` enumeration.
#[derive(Clone, Copy, Debug, PartialEq, Eq, Structural, Hash, PartialOrd, Ord)]
pub enum MsgType {
    /// Login packet, used to authenticate the socket.
    LoginMessageType,
    /// Private message to one user.
    SingleMessageType,
    /// Message to a chat group.
    GroupMessageType,
    /// Acknowledgement sent back by the server.
    AckMessageType,
    /// Withdrawal of an earlier message.
    RollbackMessageType,
    /// A task message was read.
    TaskReadMessageType,
    /// Notification from the server, such as an error or a delivery report.
    ResponseMessageType,
}

/// The number that the protocol assigns to each kind.
pub open spec fn msg_type_value(t: MsgType) -> i32 {
    match t {
        MsgType::LoginMessageType => 0,
        MsgType::SingleMessageType => 1,
        MsgType::GroupMessageType => 2,
        MsgType::AckMessageType => 3,
        MsgType::RollbackMessageType => 4,
        MsgType::TaskReadMessageType => 5,
        MsgType::ResponseMessageType => 6,
    }
}

/// The name of each kind in the protocol definition.
pub open spec fn msg_type_name(t: MsgType) -> Seq<char> {
    match t {
        MsgType::LoginMessageType => "LOGIN_MESSAGE_TYPE"@,
        MsgType::SingleMessageType => "SINGLE_MESSAGE_TYPE"@,
        MsgType::GroupMessageType => "GROUP_MESSAGE_TYPE"@,
        MsgType::AckMessageType => "ACK_MESSAGE_TYPE"@,
        MsgType::RollbackMessageType => "ROLLBACK_MESSAGE_TYPE"@,
        MsgType::TaskReadMessageType => "TASK_READ_MESSAGE_TYPE"@,
        MsgType::ResponseMessageType => "RESPONSE_MESSAGE_TYPE"@,
    }
}

/// The kind whose protocol name is `s`, if there is one.
pub open spec fn msg_type_from_name(s: Seq<char>) -> Option<MsgType> {
    if s == "LOGIN_MESSAGE_TYPE"@ {
        Some(MsgType::LoginMessageType)
    } else if s == "SINGLE_MESSAGE_TYPE"@ {
        Some(MsgType::SingleMessageType)
    } else if s == "GROUP_MESSAGE_TYPE"@ {
        Some(MsgType::GroupMessageType)
    } else if s == "ACK_MESSAGE_TYPE"@ {
        Some(MsgType::AckMessageType)
    } else if s == "ROLLBACK_MESSAGE_TYPE"@ {
        Some(MsgType::RollbackMessageType)
    } else if s == "TASK_READ_MESSAGE_TYPE"@ {
        Some(MsgType::TaskReadMessageType)
    } else if s == "RESPONSE_MESSAGE_TYPE"@ {
        Some(MsgType::ResponseMessageType)
    } else {
        None
    }
}

/// The kind whose number on the wire is `v`, if there is one.
pub open spec fn msg_type_of_value(v: i32) -> Option<MsgType> {
    if v == 0 {
        Some(MsgType::LoginMessageType)
    } else if v == 1 {
        Some(MsgType::SingleMessageType)
    } else if v == 2 {
        Some(MsgType::GroupMessageType)
    } else if v == 3 {
        Some(MsgType::AckMessageType)
    } else if v == 4 {
        Some(MsgType::RollbackMessageType)
    } else if v == 5 {
        Some(MsgType::TaskReadMessageType)
    } else if v == 6 {
        Some(MsgType::ResponseMessageType)
    } else {
        None
    }
}

impl MsgType {
    /// Whether `value` is the number of a kind.
    pub fn is_valid(value: i32) -> (r: bool)
        ensures
            r == (msg_type_of_value(value) is Some),
    {
        0 <= value && value <= 6
    }

    /// The kind whose number on the wire is `value`, if there is one.
    pub fn from_i32(value: i32) -> (r: Option<MsgType>)
        ensures
            r == msg_type_of_value(value),
    {
        match value {
            0 => Some(MsgType::LoginMessageType),
            1 => Some(MsgType::SingleMessageType),
            2 => Some(MsgType::GroupMessageType),
            3 => Some(MsgType::AckMessageType),
            4 => Some(MsgType::RollbackMessageType),
            5 => Some(MsgType::TaskReadMessageType),
            6 => Some(MsgType::ResponseMessageType),
            _ => None,
        }
    }

    /// The number of this kind on the wire.
    pub fn get_value(&self) -> (r: i32)
        ensures
            r == msg_type_value(*self),
    {
        match self {
            MsgType::LoginMessageType => 0,
            MsgType::SingleMessageType => 1,
            MsgType::GroupMessageType => 2,
            MsgType::AckMessageType => 3,
            MsgType::RollbackMessageType => 4,
            MsgType::TaskReadMessageType => 5,
            MsgType::ResponseMessageType => 6,
        }
    }

    /// String value of the enum field names used in the protocol definition.
    pub fn as_str_name(&self) -> (r: &'static str)
        ensures
            r@ == msg_type_name(*self),
    {
        match self {
            MsgType::LoginMessageType => "LOGIN_MESSAGE_TYPE",
            MsgType::SingleMessageType => "SINGLE_MESSAGE_TYPE",
            MsgType::GroupMessageType => "GROUP_MESSAGE_TYPE",
            MsgType::AckMessageType => "ACK_MESSAGE_TYPE",
            MsgType::RollbackMessageType => "ROLLBACK_MESSAGE_TYPE",
            MsgType::TaskReadMessageType => "TASK_READ_MESSAGE_TYPE",
            MsgType::ResponseMessageType => "RESPONSE_MESSAGE_TYPE",
        }
    }

    /// Creates an enum from field names used in the protocol definition.
    pub fn from_str_name(value: &str) -> (r: Option<MsgType>)
        ensures
            r == msg_type_from_name(value@),
    {
        if str_equal(value, "LOGIN_MESSAGE_TYPE") {
            Some(MsgType::LoginMessageType)
        } else if str_equal(value, "SINGLE_MESSAGE_TYPE") {
            Some(MsgType::SingleMessageType)
        } else if str_equal(value, "GROUP_MESSAGE_TYPE") {
            Some(MsgType::GroupMessageType)
        } else if str_equal(value, "ACK_MESSAGE_TYPE") {
            Some(MsgType::AckMessageType)
        } else if str_equal(value, "ROLLBACK_MESSAGE_TYPE") {
            Some(MsgType::RollbackMessageType)
        } else if str_equal(value, "TASK_READ_MESSAGE_TYPE") {
            Some(MsgType::TaskReadMessageType)
        } else if str_equal(value, "RESPONSE_MESSAGE_TYPE") {
            Some(MsgType::ResponseMessageType)
        } else {
            None
        }
    }
}

/// Reading back the name of a kind gives that kind.
pub proof fn law_name_round_trip(t: MsgType)
    ensures
        msg_type_from_name(msg_type_name(t)) == Some(t),
{
    reveal_strlit("LOGIN_MESSAGE_TYPE");
    reveal_strlit("SINGLE_MESSAGE_TYPE");
    reveal_strlit("GROUP_MESSAGE_TYPE");
    reveal_strlit("ACK_MESSAGE_TYPE");
    reveal_strlit("ROLLBACK_MESSAGE_TYPE");
    reveal_strlit("TASK_READ_MESSAGE_TYPE");
    reveal_strlit("RESPONSE_MESSAGE_TYPE");
    // The names differ in length, or else in their first or second letter.
    assert("LOGIN_MESSAGE_TYPE"@.len() == 18);
    assert("SINGLE_MESSAGE_TYPE"@.len() == 19);
    assert("GROUP_MESSAGE_TYPE"@.len() == 18);
    assert("ACK_MESSAGE_TYPE"@.len() == 16);
    assert("ROLLBACK_MESSAGE_TYPE"@.len() == 21);
    assert("TASK_READ_MESSAGE_TYPE"@.len() == 22);
    assert("RESPONSE_MESSAGE_TYPE"@.len() == 21);
    assert("LOGIN_MESSAGE_TYPE"@[0] != "GROUP_MESSAGE_TYPE"@[0]);
    assert("ROLLBACK_MESSAGE_TYPE"@[1] != "RESPONSE_MESSAGE_TYPE"@[1]);
}

/// The number of a kind on the wire.
impl From<MsgType> for i32 {
    fn from(t: MsgType) -> (r: i32) {
        t.get_value()
    }
}

impl vstd::std_specs::convert::FromSpecImpl<MsgType> for i32 {
    open spec fn obeys_from_spec() -> bool {
        true
    }

    open spec fn from_spec(t: MsgType) -> i32 {
        msg_type_value(t)
    }
}

/// Reading back the number of a kind gives that kind, and every number
/// that names a kind is the number of that kind.
pub proof fn law_value_round_trip(t: MsgType, v: i32)
    ensures
        msg_type_of_value(msg_type_value(t)) == Some(t),
        msg_type_of_value(v) matches Some(k) ==> msg_type_value(k) == v,
{
}

/// The numbers and names of the kinds, as the protocol definition gives
/// them.
pub proof fn law_kind_numbers_and_names()
    ensures
        msg_type_value(MsgType::LoginMessageType) == 0 && msg_type_name(MsgType::LoginMessageType)
            == "LOGIN_MESSAGE_TYPE"@,
        msg_type_value(MsgType::SingleMessageType) == 1 && msg_type_name(
            MsgType::SingleMessageType,
        ) == "SINGLE_MESSAGE_TYPE"@,
        msg_type_value(MsgType::GroupMessageType) == 2 && msg_type_name(MsgType::GroupMessageType)
            == "GROUP_MESSAGE_TYPE"@,
        msg_type_value(MsgType::AckMessageType) == 3 && msg_type_name(MsgType::AckMessageType)
            == "ACK_MESSAGE_TYPE"@,
        msg_type_value(MsgType::RollbackMessageType) == 4 && msg_type_name(
            MsgType::RollbackMessageType,
        ) == "ROLLBACK_MESSAGE_TYPE"@,
        msg_type_value(MsgType::TaskReadMessageType) == 5 && msg_type_name(
            MsgType::TaskReadMessageType,
        ) == "TASK_READ_MESSAGE_TYPE"@,
        msg_type_value(MsgType::ResponseMessageType) == 6 && msg_type_name(
            MsgType::ResponseMessageType,
        ) == "RESPONSE_MESSAGE_TYPE"@,
{
}

/// Distinct kinds have distinct numbers, and every number lies in `0..=6`.
pub proof fn law_value_injective(a: MsgType, b: MsgType)
    ensures
        msg_type_value(a) == msg_type_value(b) <==> a == b,
        0 <= msg_type_value(a) <= 6,
{
}

} // verus!
