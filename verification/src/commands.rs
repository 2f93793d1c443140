//! The decisions behind the commands that the user interface invokes:
//! logging in, entering the main window, and returning to the login window.
use vstd::prelude::*;
use crate::sqlite::{AuthHeader, HttpError, HttpResult};
use vstd::string::{StringExecFns, StringSliceAdditionalSpecFns};
use crate::text::str_equal;
use crate::http::{bool_text, database_url, login_form};
use crate::secure::{
    SERVER_PUBLIC_KEY, SecureError, base64_no_pad_encoded, decode_msg, decoded_msg, encode_msg,
    encryptable, encrypted_text, get_public_key, pem_holds_public_key, spki_der_of_pem,
};

verus! {

/// The greeting of `name`.
pub fn greet(name: &str) -> (r: String)
    ensures
        r@ == "Hello "@ + name@,
{
    let mut text = "Hello ".to_owned();
    text.append(name);
    text
}

/// The fields of a login request: the user name and the password, each
/// encrypted with the server's public key; whether to remember the login;
/// and the client's public key from `public_pem`, which the server uses to
/// encrypt the user's key. Neither credential is sent in clear.
pub fn login_request(username: &str, password: &str, remember_me: bool, public_pem: &str) -> (r:
    Result<Vec<(String, String)>, SecureError>)
    ensures
        (r is Ok) == (encryptable(SERVER_PUBLIC_KEY@, username.spec_bytes()) && encryptable(
            SERVER_PUBLIC_KEY@,
            password.spec_bytes(),
        ) && pem_holds_public_key(public_pem@)),
        r matches Ok(f) ==> (f@.len() == 4 && f@[0].0@ == "username"@ && encrypted_text(
            SERVER_PUBLIC_KEY@,
            username.spec_bytes(),
            f@[0].1@,
        ) && f@[1].0@ == "password"@ && encrypted_text(
            SERVER_PUBLIC_KEY@,
            password.spec_bytes(),
            f@[1].1@,
        ) && f@[2].0@ == "rememberMe"@ && f@[2].1@ == bool_text(remember_me) && f@[3].0@
            == "publicKey"@ && f@[3].1@ == base64_no_pad_encoded(spki_der_of_pem(public_pem@))),
        (r == Err::<Vec<(String, String)>, SecureError>(SecureError::InvalidKey)) == (
        !pem_holds_public_key(SERVER_PUBLIC_KEY@) || (encryptable(
            SERVER_PUBLIC_KEY@,
            username.spec_bytes(),
        ) && encryptable(SERVER_PUBLIC_KEY@, password.spec_bytes()) && !pem_holds_public_key(
            public_pem@,
        ))),
        (r == Err::<Vec<(String, String)>, SecureError>(SecureError::EncryptionFailed)) == (
        pem_holds_public_key(SERVER_PUBLIC_KEY@) && !(encryptable(
            SERVER_PUBLIC_KEY@,
            username.spec_bytes(),
        ) && encryptable(SERVER_PUBLIC_KEY@, password.spec_bytes()))),
{
    let user = match encode_msg(username.as_bytes()) {
        Ok(u) => u,
        Err(e) => {
            return Err(e);
        },
    };
    let pass = match encode_msg(password.as_bytes()) {
        Ok(p) => p,
        Err(e) => {
            return Err(e);
        },
    };
    let public_key = match get_public_key(public_pem) {
        Ok(k) => k,
        Err(e) => {
            return Err(e);
        },
    };
    Ok(login_form(user, pass, remember_me, public_key))
}

/// What the login request came to.
#[derive(Debug)]
pub enum LoginOutcome {
    /// The backend accepted the login: its tokens, with the code and the
    /// message of its answer. The session is opened with them.
    Authorized(AuthHeader, i32, String),
    /// An answer to hand to the user interface as it is.
    Answered(HttpResult<String>),
    /// A request error to pass on.
    Failed(HttpError),
}

/// What the login request came to, from what the backend answered: tokens
/// open a session; an answer without tokens is passed on with its code and
/// message; an HTTP status becomes an answer with that code and no message;
/// any other error is passed on.
pub fn login_outcome(res: Result<HttpResult<AuthHeader>, HttpError>) -> (r: LoginOutcome)
    ensures
        match res {
            Ok(a) => match a.data {
                Some(d) => r == LoginOutcome::Authorized(d, a.code, a.msg),
                None => r matches LoginOutcome::Answered(h) && h.code == a.code && h.msg == a.msg
                    && h.data is None,
            },
            Err(HttpError::RequestError(status)) => r matches LoginOutcome::Answered(h) && h.code
                == status as i32 && h.msg@ == Seq::<char>::empty() && h.data is None,
            Err(e) => r == LoginOutcome::Failed(e),
        },
{
    match res {
        Ok(result) => match result.data {
            Some(data) => LoginOutcome::Authorized(data, result.code, result.msg),
            None => LoginOutcome::Answered(HttpResult { code: result.code, msg: result.msg, data: None }),
        },
        Err(HttpError::RequestError(status)) => LoginOutcome::Answered(
            HttpResult { code: status as i32, msg: String::new(), data: None },
        ),
        Err(e) => LoginOutcome::Failed(e),
    }
}

/// The session that an accepted login opens.
#[derive(Debug)]
pub struct Session {
    /// The backend's tokens, with the user's key in clear.
    pub auth: AuthHeader,
    /// The path of the user's local database.
    pub database_url: String,
    /// The answer handed to the user interface: the backend's code and
    /// message, and the user's key.
    pub answer: HttpResult<String>,
}

/// `s` is the session of the tokens `data` once their key reads `key` in
/// clear, answered with `code` and `msg`, whose database lies under
/// `prefix`.
pub open spec fn is_session(
    s: Session,
    data: AuthHeader,
    key: Seq<char>,
    code: i32,
    msg: String,
    prefix: Seq<char>,
) -> bool {
    &&& s.auth.key@ == key
    &&& s.auth.Authorization == data.Authorization
    &&& s.auth.refresh_token == data.refresh_token
    &&& s.auth.remember_me == data.remember_me
    &&& s.database_url@ == prefix + key + ".db"@
    &&& s.answer.code == code
    &&& s.answer.msg == msg
    &&& s.answer.data matches Some(k) && k@ == key
}

/// The session of an accepted login, once the user's key has been
/// decrypted to `key`.
pub fn session_from_login(
    data: AuthHeader,
    key: String,
    code: i32,
    msg: String,
    db_prefix: &str,
) -> (r: Session)
    ensures
        is_session(r, data, key@, code, msg, db_prefix@),
        r.auth.key@ == key@,
        r.auth.Authorization == data.Authorization,
        r.auth.refresh_token == data.refresh_token,
        r.auth.remember_me == data.remember_me,
        r.database_url@ == db_prefix@ + key@ + ".db"@,
        r.answer.code == code && r.answer.msg == msg,
        r.answer.data matches Some(k) && k@ == key@,
{
    let url = database_url(db_prefix, key.as_str());
    let answer_key = key.clone();
    let auth = AuthHeader {
        key,
        Authorization: data.Authorization,
        refresh_token: data.refresh_token,
        remember_me: data.remember_me,
    };
    Session { auth, database_url: url, answer: HttpResult { code, msg, data: Some(answer_key) } }
}

/// A session keeps the backend's tokens as they came, only the key read in
/// clear: whether the login is remembered is what the backend said.
pub proof fn law_session_keeps_tokens(
    s: Session,
    data: AuthHeader,
    key: Seq<char>,
    code: i32,
    msg: String,
    prefix: Seq<char>,
)
    requires
        is_session(s, data, key, code, msg, prefix),
    ensures
        s.auth.remember_me == data.remember_me,
        s.auth.Authorization == data.Authorization,
        s.auth.refresh_token == data.refresh_token,
        s.auth.key@ == key,
{
}

/// Opens the session of an accepted login: the backend sends the user's
/// key encrypted with the client's public key; it is decrypted with the
/// private key in `private_pem`.
pub fn open_session(
    data: AuthHeader,
    code: i32,
    msg: String,
    private_pem: &str,
    db_prefix: &str,
) -> (r: Result<Session, SecureError>)
    ensures
        match decoded_msg(data.key@, private_pem@) {
            Ok(key) => r matches Ok(s) && is_session(s, data, key, code, msg, db_prefix@),
            Err(e) => r == Err::<Session, SecureError>(e),
        },
        r matches Ok(s) ==> s.auth.Authorization == data.Authorization && s.auth.refresh_token
            == data.refresh_token && s.auth.remember_me == data.remember_me,
{
    let key = match decode_msg(data.key.as_str(), private_pem) {
        Ok(k) => k,
        Err(e) => {
            return Err(e);
        },
    };
    Ok(session_from_login(data, key, code, msg, db_prefix))
}

/// How to bring up the main window after a login.
#[derive(Clone, Copy, Debug, PartialEq, Eq, Structural)]
pub enum AdminRoute {
    /// The main window exists but is hidden: show it.
    ShowMain,
    /// The main window is already shown.
    Nothing,
    /// Create and show the main window, and close the login window.
    OpenMainCloseLogin,
    /// There is neither a main nor a login window.
    NoLoginWindow,
}

/// How to bring up the main window: `main` says whether it exists and, if
/// so, whether it is visible.
pub fn admin_route(main: Option<bool>, login_exists: bool) -> (r: AdminRoute)
    ensures
        r == match main {
            Some(visible) => if visible {
                AdminRoute::Nothing
            } else {
                AdminRoute::ShowMain
            },
            None => if login_exists {
                AdminRoute::OpenMainCloseLogin
            } else {
                AdminRoute::NoLoginWindow
            },
        },
{
    match main {
        Some(visible) => if visible {
            AdminRoute::Nothing
        } else {
            AdminRoute::ShowMain
        },
        None => if login_exists {
            AdminRoute::OpenMainCloseLogin
        } else {
            AdminRoute::NoLoginWindow
        },
    }
}

/// What a start-up check of the stored login does.
#[derive(Clone, Copy, Debug, PartialEq, Eq, Structural)]
pub enum ResumeAction {
    /// No stored token: stay at the login window.
    Stay,
    /// Keep the user's database and enter the main window.
    EnterMain,
    /// Keep the user's database; the main window is already there.
    KeepSession,
}

/// What to do with the token found in a user's database at start-up.
pub fn resume_action(token: &str, main_exists: bool) -> (r: ResumeAction)
    ensures
        r == if token@.len() == 0 {
            ResumeAction::Stay
        } else if main_exists {
            ResumeAction::KeepSession
        } else {
            ResumeAction::EnterMain
        },
{
    if token.is_empty() {
        ResumeAction::Stay
    } else if main_exists {
        ResumeAction::KeepSession
    } else {
        ResumeAction::EnterMain
    }
}

/// The labels of the windows that going back to the login window closes:
/// every window but the login window, in order.
pub open spec fn closing_labels(labels: Seq<Seq<char>>) -> Seq<Seq<char>>
    decreases labels.len(),
{
    if labels.len() == 0 {
        Seq::empty()
    } else {
        let before = closing_labels(labels.drop_last());
        if labels.last() == "login"@ {
            before
        } else {
            before.push(labels.last())
        }
    }
}

/// Going back to the login window leaves the login window alone and closes
/// every other window.
pub proof fn law_only_login_window_stays(labels: Seq<Seq<char>>)
    ensures
        forall|i: int|
            0 <= i < closing_labels(labels).len() ==> #[trigger] closing_labels(labels)[i]
                != "login"@,
        forall|l: Seq<char>| #[trigger]
            labels.contains(l) && l != "login"@ ==> closing_labels(labels).contains(l),
        forall|l: Seq<char>| #[trigger]
            closing_labels(labels).contains(l) ==> labels.contains(l),
    decreases labels.len(),
{
    if labels.len() > 0 {
        let init = labels.drop_last();
        law_only_login_window_stays(init);
        let before = closing_labels(init);
        assert forall|l: Seq<char>| labels.contains(l) && l != "login"@ implies closing_labels(
            labels,
        ).contains(l) by {
            let j = choose|j: int| 0 <= j < labels.len() && labels[j] == l;
            if j < labels.len() - 1 {
                assert(init[j] == l);
                assert(init.contains(l));
                let k = choose|k: int| 0 <= k < before.len() && before[k] == l;
                if labels.last() != "login"@ {
                    assert(before.push(labels.last())[k] == l);
                }
            } else {
                assert(before.push(labels.last())[before.len() as int] == l);
            }
        }
        assert forall|l: Seq<char>| closing_labels(labels).contains(l) implies labels.contains(
            l,
        ) by {
            let k = choose|k: int| 0 <= k < closing_labels(labels).len() && closing_labels(labels)[k] == l;
            if k < before.len() {
                assert(before[k] == l);
                assert(before.contains(l));
                let j = choose|j: int| 0 <= j < init.len() && init[j] == l;
                assert(labels[j] == l);
            } else {
                assert(labels[labels.len() - 1] == l);
            }
        }
    }
}

/// The windows to close when going back to the login window.
pub fn windows_to_close(labels: &Vec<String>) -> (r: Vec<String>)
    ensures
        r@.map_values(|s: String| s@) == closing_labels(labels@.map_values(|s: String| s@)),
{
    let ghost all = labels@.map_values(|s: String| s@);
    let mut r: Vec<String> = Vec::new();
    let n = labels.len();
    let mut i: usize = 0;
    while i < n
        invariant
            n == labels@.len(),
            i <= n,
            all == labels@.map_values(|s: String| s@),
            r@.map_values(|s: String| s@) == closing_labels(all.take(i as int)),
        decreases n - i,
    {
        let ghost before = r@.map_values(|s: String| s@);
        assert(all.take(i + 1).drop_last() =~= all.take(i as int));
        assert(all.take(i + 1).last() == labels@[i as int]@);
        if !str_equal(labels[i].as_str(), "login") {
            r.push(labels[i].clone());
            assert(r@.map_values(|s: String| s@) =~= before.push(labels@[i as int]@));
        }
        i = i + 1;
    }
    assert(all.take(n as int) =~= all);
    r
}

} // verus!
