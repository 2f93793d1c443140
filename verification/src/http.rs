//! The records exchanged with the HTTP backend, and what the client makes
//! of the backend's answers.
use vstd::prelude::*;
use vstd::string::StringExecFns;

verus! {

/// An error of a request to the backend.
#[derive(Clone, Debug, PartialEq)]
pub enum HttpError {
    /// An error described in words.
    CustomError(String),
    /// The backend answered with this HTTP status.
    RequestError(u16),
}

impl HttpError {
    /// The text the application shows for any request error.
    pub fn to_string(&self) -> (r: String)
        ensures
            r@ == "custom error"@,
    {
        "custom error".to_owned()
    }
}

/// The envelope of every answer of the backend.
#[derive(Clone, Debug, PartialEq)]
pub struct HttpResult<T> {
    /// The backend's own status code; 401 and 403 mean the token expired.
    pub code: i32,
    /// A message for the user.
    pub msg: String,
    /// The payload, if any.
    pub data: Option<T>,
}

/// The tokens that authenticate requests.
#[allow(non_snake_case)]
#[derive(Clone, Debug, PartialEq)]
pub struct AuthHeader {
    pub Authorization: String,
    pub refresh_token: String,
    pub key: String,
}

/// A user account as the backend describes it.
#[allow(non_snake_case)]
#[derive(Clone, Debug, PartialEq)]
pub struct User {
    pub id: i32,
    pub username: String,
    pub nickName: String,
    pub password: String,
    pub avatarPath: String,
    pub locked: bool,
    pub createdBy: i32,
    pub createdTime: i64,
}

/// What became of a request: no answer, an answer whose body is not the
/// expected JSON, or the decoded body.
pub enum HttpOutcome<T> {
    /// The request could not be sent or no answer came.
    Failed,
    /// The answer's body could not be decoded.
    Unreadable,
    /// The decoded body.
    Answered(HttpResult<T>),
}

/// Whether the backend's code says that the session token has expired.
pub open spec fn token_expired(code: i32) -> bool {
    code == 401 || code == 403
}

/// Whether the backend's code says that the session token has expired.
pub fn is_token_expired(code: i32) -> (r: bool)
    ensures
        r == token_expired(code),
        r == (code == 401 || code == 403),
{
    code == 403 || code == 401
}

/// What the client returns for a request and whether it must end the
/// session: drop the token and go back to the login window. It ends the
/// session when the token expired, unless the login window is already open.
pub fn handle_response<T>(res: HttpOutcome<T>, login_window_open: bool) -> (r: (
    Result<HttpResult<T>, HttpError>,
    bool,
))
    ensures
        match res {
            HttpOutcome::Failed => r.0 matches Err(HttpError::CustomError(m)) && m@
                == "http error"@ && !r.1,
            HttpOutcome::Unreadable => r.0 matches Err(HttpError::CustomError(m)) && m@
                == "Error"@ && !r.1,
            HttpOutcome::Answered(data) => r.0 == Ok::<HttpResult<T>, HttpError>(data) && r.1
                == (token_expired(data.code) && !login_window_open),
        },
        res matches HttpOutcome::Answered(d) ==> r.1 == ((d.code == 401 || d.code == 403)
            && !login_window_open),
        !(res is Answered) ==> !r.1,
{
    match res {
        HttpOutcome::Failed => (Err(HttpError::CustomError("http error".to_owned())), false),
        HttpOutcome::Unreadable => (Err(HttpError::CustomError("Error".to_owned())), false),
        HttpOutcome::Answered(data) => {
            let expire = is_token_expired(data.code) && !login_window_open;
            (Ok(data), expire)
        },
    }
}

/// The session ends on exactly two codes of the backend, 401 and 403, and
/// only while the login window is closed; every other answer, and every
/// failed request, leaves it open.
pub proof fn law_session_ends_only_on_401_or_403(code: i32, login_window_open: bool)
    ensures
        (token_expired(code) && !login_window_open) == ((code == 401 || code == 403)
            && !login_window_open),
        !token_expired(200) && !token_expired(500) && !token_expired(404),
{
}

/// The text of a boolean, as Rust writes it.
pub open spec fn bool_text(b: bool) -> Seq<char> {
    if b {
        "true"@
    } else {
        "false"@
    }
}

/// The fields of the login request, in order: the encrypted user name and
/// password, whether to remember the login, and the client's public key.
pub fn login_form(username: String, password: String, remember_me: bool, public_key: String) -> (r:
    Vec<(String, String)>)
    ensures
        r@.len() == 4,
        r@[0].0@ == "username"@ && r@[0].1@ == username@,
        r@[1].0@ == "password"@ && r@[1].1@ == password@,
        r@[2].0@ == "rememberMe"@ && r@[2].1@ == bool_text(remember_me),
        r@[3].0@ == "publicKey"@ && r@[3].1@ == public_key@,
{
    let mut form: Vec<(String, String)> = Vec::new();
    form.push(("username".to_owned(), username));
    form.push(("password".to_owned(), password));
    let remember = if remember_me {
        "true".to_owned()
    } else {
        "false".to_owned()
    };
    form.push(("rememberMe".to_owned(), remember));
    form.push(("publicKey".to_owned(), public_key));
    form
}

/// The value of the `Authorization` header of an authenticated request.
pub fn auth_header_value(token: &str) -> (r: String)
    ensures
        r@ == "Bearer "@ + token@,
{
    let mut value = "Bearer ".to_owned();
    value.append(token);
    value
}

/// The address of the endpoint `path` of the backend at `host`.
pub fn request_url(host: &str, path: &str) -> (r: String)
    ensures
        r@ == host@ + path@,
{
    let mut url = host.to_owned();
    url.append(path);
    url
}

/// The endpoint that describes the chat room `room_id`.
pub fn room_info_path(room_id: &str) -> (r: String)
    ensures
        r@ == "/chat-room/"@ + room_id@,
{
    let mut path = "/chat-room/".to_owned();
    path.append(room_id);
    path
}

/// The body of a request for the messages of a room sent before a time:
/// the fields `roomId` and `sendTime`.
pub fn message_list_body(room_id: &str, send_time: &str) -> (r: Vec<(String, String)>)
    ensures
        r@.len() == 2,
        r@[0].0@ == "roomId"@ && r@[0].1@ == room_id@,
        r@[1].0@ == "sendTime"@ && r@[1].1@ == send_time@,
{
    let mut body: Vec<(String, String)> = Vec::new();
    body.push(("roomId".to_owned(), room_id.to_owned()));
    body.push(("sendTime".to_owned(), send_time.to_owned()));
    body
}

/// The path of the local database of a user: the configured prefix, the
/// user's key, and `.db`.
pub fn database_url(prefix: &str, key: &str) -> (r: String)
    ensures
        r@ == prefix@ + key@ + ".db"@,
{
    let mut url = prefix.to_owned();
    url.append(key);
    url.append(".db");
    url
}

} // verus!
