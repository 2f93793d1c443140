use tauri_chat::commands::{
    admin_route, login_outcome, resume_action, windows_to_close, AdminRoute, LoginOutcome,
    ResumeAction,
};
use tauri_chat::http::{
    auth_header_value, message_list_body, request_url, room_info_path, database_url, handle_response, is_token_expired, login_form, HttpOutcome,
};
use tauri_chat::menu::{
    flicker_step, reminder_plays, FlickerStep, TrayIcon,
    app_menu, tray_menu, hides_window, menu_action, tray_click_action, tray_menu_action, MenuAction, TrayAction,
    TrayClick, WindowEventKind,
};
use tauri_chat::socket::{
    group_message_from_draft, login_obj, on_socket_closed, on_socket_opened, outgoing_packet,
    route_incoming, ConnectAction, ConnectedEnum, Inbound, InboundError,
};
use tauri_chat::sqlite::{self, get_token, token_expires_on_exit, AuthHeader};
use tauri_chat::{
    AckMessage, ChatMessage, ChatMessagePack, GroupMessage, LoginMessage, MsgType, Obj,
    RollbackMessage,
};

fn http_result(code: i32, msg: &str, data: Option<u32>) -> tauri_chat::http::HttpResult<u32> {
    tauri_chat::http::HttpResult { code, msg: msg.to_string(), data }
}

#[test]
fn token_expiry_codes() {
    assert!(is_token_expired(401));
    assert!(is_token_expired(403));
    assert!(!is_token_expired(200));
    assert!(!is_token_expired(404));
    assert!(!is_token_expired(0));
}

#[test]
fn handle_response_passes_answers_on() {
    let (r, expire) = handle_response(HttpOutcome::Answered(http_result(200, "ok", Some(7))), false);
    assert_eq!(r, Ok(http_result(200, "ok", Some(7))));
    assert!(!expire);
}

#[test]
fn handle_response_ends_an_expired_session() {
    let (r, expire) = handle_response(HttpOutcome::Answered(http_result(401, "expired", None)), false);
    assert_eq!(r, Ok(http_result(401, "expired", None)));
    assert!(expire);
    let (_, expire) = handle_response(HttpOutcome::Answered(http_result(403, "", None)), false);
    assert!(expire);
    // Not again while the login window is open.
    let (r, expire) = handle_response(HttpOutcome::Answered(http_result(403, "", None)), true);
    assert_eq!(r, Ok(http_result(403, "", None)));
    assert!(!expire);
}

#[test]
fn handle_response_errors() {
    let (r, expire) = handle_response::<u32>(HttpOutcome::Failed, false);
    assert_eq!(r, Err(tauri_chat::http::HttpError::CustomError("http error".to_string())));
    assert!(!expire);
    let (r, expire) = handle_response::<u32>(HttpOutcome::Unreadable, false);
    assert_eq!(r, Err(tauri_chat::http::HttpError::CustomError("Error".to_string())));
    assert!(!expire);
}

#[test]
fn http_error_text() {
    assert_eq!(tauri_chat::http::HttpError::RequestError(500).to_string(), "custom error");
    assert_eq!(
        tauri_chat::http::HttpError::CustomError("x".to_string()).to_string(),
        "custom error"
    );
    assert_eq!(sqlite::HttpError::RequestError(404).to_string(), "custom error");
}

#[test]
fn login_form_fields() {
    let form = login_form("u".to_string(), "p".to_string(), true, "k".to_string());
    assert_eq!(
        form,
        vec![
            ("username".to_string(), "u".to_string()),
            ("password".to_string(), "p".to_string()),
            ("rememberMe".to_string(), "true".to_string()),
            ("publicKey".to_string(), "k".to_string()),
        ]
    );
    let form = login_form(String::new(), String::new(), false, String::new());
    assert_eq!(form[2], ("rememberMe".to_string(), "false".to_string()));
}

#[test]
fn database_path() {
    assert_eq!(database_url("sqlite://", "abc"), "sqlite://abc.db");
    assert_eq!(database_url("", ""), ".db");
}

fn header(token: &str, remember_me: i32) -> AuthHeader {
    AuthHeader {
        key: "key".to_string(),
        Authorization: token.to_string(),
        refresh_token: "refresh".to_string(),
        remember_me,
    }
}

#[test]
fn stored_token() {
    assert_eq!(get_token(None), "");
    assert_eq!(get_token(Some(&vec![])), "");
    let rows = vec![header("first", 1), header("second", 0)];
    assert_eq!(get_token(Some(&rows)), "first");
}

#[test]
fn token_goes_on_exit_unless_remembered() {
    assert!(!token_expires_on_exit(None));
    assert!(!token_expires_on_exit(Some(&vec![])));
    assert!(token_expires_on_exit(Some(&vec![header("t", 0)])));
    assert!(!token_expires_on_exit(Some(&vec![header("t", 1)])));
    assert!(!token_expires_on_exit(Some(&vec![header("t", 1), header("u", 0)])));
}

#[test]
fn one_connection_at_a_time() {
    assert_eq!(on_socket_opened(ConnectedEnum::NO), (ConnectedEnum::YES, ConnectAction::Start));
    let (flag, _) = on_socket_opened(ConnectedEnum::NO);
    assert_eq!(on_socket_opened(flag), (ConnectedEnum::YES, ConnectAction::AlreadyConnected));
    let flag = on_socket_closed(flag);
    assert_eq!(flag, ConnectedEnum::NO);
    assert_eq!(on_socket_opened(flag).1, ConnectAction::Start);
    assert_eq!(on_socket_closed(ConnectedEnum::NO), ConnectedEnum::NO);
}

fn user() -> sqlite::User {
    sqlite::User {
        id: 12,
        username: "alice".to_string(),
        nickName: "Alice".to_string(),
        avatarPath: String::new(),
        createdBy: 1,
        createdTime: 0,
    }
}

#[test]
fn login_payload() {
    let obj = login_obj(&user());
    assert_eq!(obj, Obj::LoginMessage(LoginMessage { user_id: 12, username: "alice".to_string() }));
}

fn draft(id: Option<&str>, content: Option<&str>, room: Option<i32>) -> sqlite::ChatMessage {
    sqlite::ChatMessage {
        id: id.map(|s| s.to_string()),
        roomId: room,
        senderId: Some(99),
        senderName: Some("ignored".to_string()),
        content: content.map(|s| s.to_string()),
        senderAvatar: None,
        sendTime: Some(5),
        createdBy: None,
        createdTime: None,
    }
}

#[test]
fn group_message_of_a_draft() {
    let obj = group_message_from_draft(draft(Some("m1"), Some("hi"), Some(3)), 12).unwrap();
    let mut expected = ChatMessage::new();
    expected.id = "m1".to_string();
    expected.content = "hi".to_string();
    expected.chat_room_id = 3;
    expected.sender_id = 12;
    assert_eq!(
        obj,
        Obj::GroupMessage(GroupMessage {
            group_id: 3,
            group_name: String::new(),
            chat_message: Some(expected)
        })
    );
}

#[test]
fn incomplete_drafts_are_not_sent() {
    assert_eq!(group_message_from_draft(draft(None, Some("hi"), Some(3)), 12), None);
    assert_eq!(group_message_from_draft(draft(Some("m1"), None, Some(3)), 12), None);
    assert_eq!(group_message_from_draft(draft(Some("m1"), Some("hi"), None), 12), None);
}

#[test]
fn outgoing_packet_round_trips() {
    let obj = login_obj(&user());
    let bytes = outgoing_packet("tok", MsgType::LoginMessageType, obj.clone());
    let pack = ChatMessagePack::decode(&bytes).unwrap();
    assert_eq!(pack.token, "tok");
    assert_eq!(pack.msg_type, MsgType::LoginMessageType.get_value());
    assert_eq!(pack.obj, Some(obj));
    assert_eq!(bytes, ChatMessagePack::new("tok", MsgType::LoginMessageType, pack.obj.clone()).encode_to_vec());
}

#[test]
fn incoming_group_message_is_shown() {
    let mut m = ChatMessage::new();
    m.id = "x".to_string();
    m.content = "hello".to_string();
    m.chat_room_id = 4;
    let obj = Obj::GroupMessage(GroupMessage {
        group_id: 4,
        group_name: "g".to_string(),
        chat_message: Some(m.clone()),
    });
    let bytes = outgoing_packet("t", MsgType::GroupMessageType, obj);
    match route_incoming(&bytes) {
        Ok(Inbound::ChatMessage(c)) => assert_eq!(c, m),
        other => panic!("unexpected {:?}", other),
    }
}

#[test]
fn incoming_ack_is_reported() {
    let ack = AckMessage {
        code: 200,
        msg_content: "ok".to_string(),
        msg_id: "m".to_string(),
        room_id: 1,
        user_id: 2,
        msg_type: 3,
    };
    let bytes = outgoing_packet("t", MsgType::AckMessageType, Obj::AckMessage(ack.clone()));
    match route_incoming(&bytes) {
        Ok(Inbound::Ack(a)) => assert_eq!(a, ack),
        other => panic!("unexpected {:?}", other),
    }
}

#[test]
fn incoming_errors_and_other_payloads() {
    assert_eq!(route_incoming(&[0xff]).unwrap_err(), InboundError::Malformed);
    let empty = ChatMessagePack::new("t", MsgType::LoginMessageType, None).encode_to_vec();
    assert_eq!(route_incoming(&empty).unwrap_err(), InboundError::NoPayload);
    let bare_group = Obj::GroupMessage(GroupMessage {
        group_id: 1,
        group_name: String::new(),
        chat_message: None,
    });
    let bytes = outgoing_packet("t", MsgType::GroupMessageType, bare_group);
    assert_eq!(route_incoming(&bytes).unwrap_err(), InboundError::NoChatMessage);
    let rollback = Obj::RollbackMessage(RollbackMessage { msg_id: "m".to_string(), room_id: 1 });
    let bytes = outgoing_packet("t", MsgType::RollbackMessageType, rollback);
    assert!(matches!(route_incoming(&bytes), Ok(Inbound::Ignored)));
    assert!(matches!(route_incoming(&[]), Err(InboundError::NoPayload)));
}

fn auth(token: &str) -> AuthHeader {
    header(token, 0)
}

#[test]
fn login_outcomes() {
    let ok = sqlite::HttpResult { code: 200, msg: "ok".to_string(), data: Some(auth("t")) };
    match login_outcome(Ok(ok)) {
        LoginOutcome::Authorized(a, code, msg) => {
            assert_eq!(a, auth("t"));
            assert_eq!(code, 200);
            assert_eq!(msg, "ok");
        }
        other => panic!("unexpected {:?}", other),
    }
    let refused = sqlite::HttpResult { code: 500, msg: "bad password".to_string(), data: None };
    match login_outcome(Ok(refused)) {
        LoginOutcome::Answered(h) => {
            assert_eq!(h.code, 500);
            assert_eq!(h.msg, "bad password");
            assert_eq!(h.data, None);
        }
        other => panic!("unexpected {:?}", other),
    }
    match login_outcome(Err(sqlite::HttpError::RequestError(404))) {
        LoginOutcome::Answered(h) => {
            assert_eq!(h.code, 404);
            assert_eq!(h.msg, "");
            assert_eq!(h.data, None);
        }
        other => panic!("unexpected {:?}", other),
    }
    match login_outcome(Err(sqlite::HttpError::CustomError("http error".to_string()))) {
        LoginOutcome::Failed(e) => {
            assert_eq!(e, sqlite::HttpError::CustomError("http error".to_string()))
        }
        other => panic!("unexpected {:?}", other),
    }
}

#[test]
fn admin_routes() {
    assert_eq!(admin_route(Some(false), true), AdminRoute::ShowMain);
    assert_eq!(admin_route(Some(true), true), AdminRoute::Nothing);
    assert_eq!(admin_route(Some(true), false), AdminRoute::Nothing);
    assert_eq!(admin_route(None, true), AdminRoute::OpenMainCloseLogin);
    assert_eq!(admin_route(None, false), AdminRoute::NoLoginWindow);
}

#[test]
fn resume_actions() {
    assert_eq!(resume_action("", false), ResumeAction::Stay);
    assert_eq!(resume_action("", true), ResumeAction::Stay);
    assert_eq!(resume_action("tok", false), ResumeAction::EnterMain);
    assert_eq!(resume_action("tok", true), ResumeAction::KeepSession);
}

#[test]
fn closing_every_window_but_login() {
    let labels = vec!["main".to_string(), "login".to_string(), "add".to_string()];
    assert_eq!(windows_to_close(&labels), vec!["main".to_string(), "add".to_string()]);
    assert_eq!(windows_to_close(&vec![]), Vec::<String>::new());
    assert_eq!(windows_to_close(&vec!["login".to_string()]), Vec::<String>::new());
    assert_eq!(
        windows_to_close(&vec!["logins".to_string(), "Login".to_string()]),
        vec!["logins".to_string(), "Login".to_string()]
    );
}

#[test]
fn menu_items() {
    assert_eq!(menu_action("gpt"), MenuAction::OpenPage("https://chat.openai.com/".to_string()));
    assert_eq!(menu_action("bing"), MenuAction::OpenPage("https://www.bing.com".to_string()));
    assert_eq!(menu_action("open"), MenuAction::PickFile);
    assert_eq!(menu_action("add"), MenuAction::AddWindow("https://chat.openai.com/".to_string()));
    assert_eq!(menu_action("hide"), MenuAction::Hide);
    assert_eq!(menu_action("quit"), MenuAction::Quit);
    assert_eq!(menu_action("other"), MenuAction::Nothing);
    assert_eq!(menu_action(""), MenuAction::Nothing);
}

#[test]
fn tray_items() {
    assert_eq!(tray_menu_action("hide"), Some(TrayAction::HideAll));
    assert_eq!(tray_menu_action("quit"), Some(TrayAction::ConfirmQuit));
    assert_eq!(tray_menu_action("gpt"), None);
}

#[test]
fn request_parts() {
    assert_eq!(auth_header_value("abc"), "Bearer abc");
    assert_eq!(auth_header_value(""), "Bearer ");
    assert_eq!(request_url("http://localhost:9090", "/user/info"), "http://localhost:9090/user/info");
    assert_eq!(room_info_path("17"), "/chat-room/17");
    assert_eq!(
        message_list_body("3", "1700000000"),
        vec![
            ("roomId".to_string(), "3".to_string()),
            ("sendTime".to_string(), "1700000000".to_string())
        ]
    );
}

#[test]
fn greeting() {
    assert_eq!(tauri_chat::commands::greet("Bob"), "Hello Bob");
    assert_eq!(tauri_chat::commands::greet(""), "Hello ");
}

#[test]
fn session_of_a_login() {
    let data = AuthHeader {
        key: "encrypted".to_string(),
        Authorization: "tok".to_string(),
        refresh_token: "ref".to_string(),
        remember_me: 1,
    };
    let s = tauri_chat::commands::session_from_login(
        data,
        "u42".to_string(),
        200,
        "ok".to_string(),
        "sqlite://data/",
    );
    assert_eq!(
        s.auth,
        AuthHeader {
            key: "u42".to_string(),
            Authorization: "tok".to_string(),
            refresh_token: "ref".to_string(),
            remember_me: 1,
        }
    );
    assert_eq!(s.database_url, "sqlite://data/u42.db");
    assert_eq!(s.answer, sqlite::HttpResult { code: 200, msg: "ok".to_string(), data: Some("u42".to_string()) });
}

#[test]
fn tray_clicks_and_window_events() {
    assert_eq!(tray_click_action(TrayClick::Left), Some(TrayAction::ShowAll));
    assert_eq!(tray_click_action(TrayClick::Right), None);
    assert_eq!(tray_click_action(TrayClick::Double), None);
    assert!(hides_window(WindowEventKind::CloseRequested));
    assert!(!hides_window(WindowEventKind::Resized));
    assert!(!hides_window(WindowEventKind::Destroyed));
    assert!(!hides_window(WindowEventKind::Other));
}

#[test]
fn menus_and_their_entries() {
    let menu = app_menu();
    let titles: Vec<&str> = menu.iter().map(|g| g.title.as_str()).collect();
    assert_eq!(titles, vec!["file", "tab", "window"]);
    let ids: Vec<Vec<&str>> =
        menu.iter().map(|g| g.entries.iter().map(|e| e.id.as_str()).collect()).collect();
    assert_eq!(ids, vec![vec!["open"], vec!["gpt", "bing"], vec!["add", "hide", "quit"]]);
    assert_eq!(menu[0].entries[0].label, "打开文件");
    assert_eq!(menu[2].entries[1].label, "最小化");
    for group in &menu {
        for entry in &group.entries {
            assert_ne!(menu_action(&entry.id), MenuAction::Nothing);
        }
    }
    let tray = tray_menu();
    assert_eq!(tray.len(), 2);
    assert_eq!((tray[0].id.as_str(), tray[0].label.as_str()), ("hide", "最小化"));
    assert_eq!((tray[1].id.as_str(), tray[1].label.as_str()), ("quit", "退出"));
    for entry in &tray {
        assert!(tray_menu_action(&entry.id).is_some());
    }
}

#[test]
fn reminder_and_blinking_follow_the_main_window() {
    assert!(reminder_plays(false));
    assert!(!reminder_plays(true));
    assert_eq!(flicker_step(true), FlickerStep::Stop);
    assert_eq!(flicker_step(false), FlickerStep::Blink(vec![TrayIcon::Blank, TrayIcon::Original]));
}
