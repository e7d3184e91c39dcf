use gui::state::{State, WsAction, WsInput, WsPhase};

fn logged_in() -> State {
    let mut s = State::new();
    let mut u = s.user_state.clone();
    u.user_id = "u1".to_string();
    u.user_token = "tok\"en".to_string();
    s.set_user_state(u);
    s
}

#[test]
fn state_defaults_and_urls() {
    let s = State::new();
    assert_eq!(s.http_server, "http://127.0.0.1:34332");
    assert_eq!(s.ws_server, "ws://127.0.0.1:34332");
    assert_eq!(s.user_state.user_id, "");
    assert!(!s.dial_window_is_open);
    let s = logged_in();
    assert_eq!(s.endpoint("/join_group_chat"), "http://127.0.0.1:34332/join_group_chat");
    assert_eq!(s.user_message_group_url(), "http://127.0.0.1:34332/user_message_group?user_id=u1");
}

#[test]
fn one_dialog_at_a_time() {
    let mut s = State::new();
    assert!(s.try_open_dialog());
    assert!(!s.try_open_dialog());
    assert!(s.dial_window_is_open);
    s.close_dialog();
    assert!(s.try_open_dialog());
}

#[test]
fn ws_session_authenticates_then_forwards() {
    let s = logged_in();
    let (mut ws, first) = s.init_ws();
    assert_eq!(ws.url, "ws://127.0.0.1:34332/register_ws");
    assert!(matches!(&first, WsAction::Connect(u) if u == "ws://127.0.0.1:34332/register_ws"));
    match ws.step(WsInput::Connected) {
        WsAction::SendAuth(p) => assert_eq!(p, r#"{"id":"u1","token":"tok\"en"}"#),
        _ => panic!("expected the authentication message"),
    }
    // Text before the authentication is sent is not forwarded.
    assert!(matches!(ws.step(WsInput::Text("early".to_string())), WsAction::Ignore));
    assert!(matches!(ws.step(WsInput::AuthSent), WsAction::ReadNext));
    assert!(matches!(ws.step(WsInput::Text("hello".to_string())), WsAction::Forward(t) if t == "hello"));
    assert!(matches!(ws.phase, WsPhase::Forwarding));
    assert!(matches!(ws.step(WsInput::Forwarded), WsAction::ReadNext));
    assert!(matches!(ws.step(WsInput::Ping(vec![1, 2])), WsAction::SendPong(d) if d == vec![1, 2]));
    assert!(matches!(ws.step(WsInput::PongSent), WsAction::ReadNext));
    assert!(matches!(ws.step(WsInput::Binary), WsAction::ReadNext));
    assert!(matches!(ws.step(WsInput::Pong), WsAction::ReadNext));
    assert!(matches!(ws.step(WsInput::Close), WsAction::Sleep(3)));
    assert!(matches!(ws.step(WsInput::Slept), WsAction::Connect(_)));
    assert!(matches!(ws.phase, WsPhase::Connecting));
}

#[test]
fn ws_session_retries() {
    let (mut ws, _) = logged_in().init_ws();
    assert!(matches!(ws.step(WsInput::ConnectFailed), WsAction::Sleep(3)));
    assert!(matches!(ws.step(WsInput::Slept), WsAction::Connect(_)));
    assert!(matches!(ws.step(WsInput::Connected), WsAction::SendAuth(_)));
    // A failed authentication connects again without waiting.
    assert!(matches!(ws.step(WsInput::AuthFailed), WsAction::Connect(_)));
    assert!(matches!(ws.step(WsInput::Connected), WsAction::SendAuth(_)));
    assert!(matches!(ws.step(WsInput::AuthSent), WsAction::ReadNext));
    assert!(matches!(ws.step(WsInput::Text("x".to_string())), WsAction::Forward(_)));
    assert!(matches!(ws.step(WsInput::ForwardFailed), WsAction::Sleep(3)));
    assert!(matches!(ws.phase, WsPhase::Waiting));
    assert!(matches!(ws.step(WsInput::Text("y".to_string())), WsAction::Ignore));
    assert!(matches!(ws.step(WsInput::Slept), WsAction::Connect(_)));
    assert!(matches!(ws.step(WsInput::Connected), WsAction::SendAuth(_)));
    assert!(matches!(ws.step(WsInput::AuthSent), WsAction::ReadNext));
    assert!(matches!(ws.step(WsInput::ReadError), WsAction::Sleep(3)));
    assert!(matches!(ws.step(WsInput::Slept), WsAction::Connect(_)));
    assert!(matches!(ws.step(WsInput::Connected), WsAction::SendAuth(_)));
    assert!(matches!(ws.step(WsInput::AuthSent), WsAction::ReadNext));
    assert!(matches!(ws.step(WsInput::StreamEnded), WsAction::Sleep(3)));
}

#[test]
fn request_addresses() {
    let s = State::new();
    assert_eq!(s.create_group_chat_url(), "http://127.0.0.1:34332/create_group_chat");
    assert_eq!(s.send_message_url(), "http://127.0.0.1:34332/user_send_message");
    assert_eq!(s.search_url(), "http://127.0.0.1:34332/search_group_and_user");
    assert_eq!(s.join_group_chat_url(), "http://127.0.0.1:34332/join_group_chat");
}

#[test]
fn auth_message_escapes_like_json() {
    let mut s = State::new();
    let mut u = s.user_state.clone();
    u.user_id = "a\\b/c\u{1}\u{1f}\u{7f}é".to_string();
    u.user_token = "\u{8}\t\n\u{c}\r\"".to_string();
    s.set_user_state(u);
    let (ws, _) = s.init_ws();
    assert_eq!(ws.auth_payload, "{\"id\":\"a\\\\b/c\\u0001\\u001f\u{7f}é\",\"token\":\"\\b\\t\\n\\f\\r\\\"\"}");
}
