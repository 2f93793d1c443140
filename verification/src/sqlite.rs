//! The records kept in the local database and received from the backend,
//! and the rules for the stored session token.
use vstd::prelude::*;

verus! {

/// An error of a request to the backend.
#[derive(Clone, Debug, PartialEq)]
pub enum HttpError {
    /// An error described in words.
    CustomError(String),
    /// The backend answered with this HTTP status.
    RequestError(u16),
}

impl HttpError {
    /// The text the application shows for any request error.
    pub fn to_string(&self) -> (r: String)
        ensures
            r@ == "custom error"@,
    {
        "custom error".to_owned()
    }
}

/// The envelope of every answer of the backend.
#[derive(Clone, Debug, PartialEq)]
pub struct HttpResult<T> {
    /// The backend's own status code; 401 and 403 mean the token expired.
    pub code: i32,
    /// A message for the user.
    pub msg: String,
    /// The payload, if any.
    pub data: Option<T>,
}

/// The session tokens of the logged-in user, one row of the local
/// database.
#[allow(non_snake_case)]
#[derive(Clone, Debug, PartialEq)]
pub struct AuthHeader {
    /// The user's key, which also names the user's database.
    pub key: String,
    /// The bearer token sent with every request.
    pub Authorization: String,
    pub refresh_token: String,
    /// Whether the login is kept when the application quits: 0 means no.
    pub remember_me: i32,
}

/// A user account.
#[allow(non_snake_case)]
#[derive(Clone, Debug, PartialEq)]
pub struct User {
    pub id: i32,
    pub username: String,
    pub nickName: String,
    pub avatarPath: String,
    pub createdBy: i32,
    pub createdTime: i64,
}

/// A chat room.
#[allow(non_snake_case)]
#[derive(Clone, Debug, PartialEq)]
pub struct ChatRoom {
    pub id: i32,
    pub isGroup: bool,
    pub roomName: String,
    pub roomAvatar: String,
    pub isTop: bool,
    pub isView: bool,
}

/// A chat message as the user interface and the database hold it; every
/// field may be missing.
#[allow(non_snake_case)]
#[derive(Clone, Debug, PartialEq)]
pub struct ChatMessage {
    pub id: Option<String>,
    pub roomId: Option<i32>,
    pub senderId: Option<i32>,
    pub senderName: Option<String>,
    pub content: Option<String>,
    pub senderAvatar: Option<String>,
    pub sendTime: Option<i64>,
    pub createdBy: Option<i32>,
    pub createdTime: Option<i64>,
}

/// The stored token: that of the first row, or nothing when the store is
/// empty or could not be read.
pub open spec fn stored_token(rows: Option<Seq<AuthHeader>>) -> Seq<char> {
    match rows {
        Some(r) => if r.len() > 0 {
            r[0].Authorization@
        } else {
            Seq::empty()
        },
        None => Seq::empty(),
    }
}

/// The stored bearer token; empty when there is none. `rows` is the content
/// of the token table, `None` when it could not be read.
pub fn get_token(rows: Option<&Vec<AuthHeader>>) -> (r: String)
    ensures
        rows matches Some(v) ==> (v@.len() > 0 ==> r@ == v@[0].Authorization@),
        rows matches Some(v) ==> (v@.len() == 0 ==> r@.len() == 0),
        rows is None ==> r@.len() == 0,
        r@ == stored_token(
            match rows {
                Some(v) => Some(v@),
                None => None,
            },
        ),
{
    match rows {
        Some(v) => {
            if v.len() > 0 {
                v[0].Authorization.clone()
            } else {
                String::new()
            }
        },
        None => String::new(),
    }
}

/// The stored token is the first row's, whatever that row's other fields;
/// there is none only when the table is empty or unreadable.
pub proof fn law_stored_token_is_first_rows(rows: Option<Seq<AuthHeader>>)
    ensures
        rows matches Some(r) ==> (r.len() > 0 ==> stored_token(rows) == r[0].Authorization@),
        rows matches Some(r) ==> (r.len() == 0 ==> stored_token(rows).len() == 0),
        rows is None ==> stored_token(rows).len() == 0,
{
}

/// Whether the stored token goes when the application quits: there is one,
/// and the user did not ask to be remembered.
pub fn token_expires_on_exit(rows: Option<&Vec<AuthHeader>>) -> (r: bool)
    ensures
        r == match rows {
            Some(v) => v@.len() > 0 && v@[0].remember_me == 0,
            None => false,
        },
{
    match rows {
        Some(v) => v.len() > 0 && v[0].remember_me == 0,
        None => false,
    }
}

} // verus!
