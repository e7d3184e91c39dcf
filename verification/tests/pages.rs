use gui::component::friend_page::FriendPage;
use gui::component::home::{HomePage, HomeView, ZoomAction};
use gui::component::login::{login_url, LoginError, LoginResponse, LoginResponseMsg, LoginView, Page};
use gui::component::{MessageGroup, User, WsEventData, WsMsgEvent};
use gui::left_nav::LeftNav;
use gui::state::EventBus;

fn user(id: &str, name: &str) -> User {
    User { id: id.to_string(), name: name.to_string(), avatar: format!("{}.png", id) }
}

#[test]
fn friend_page_adds_friends_from_events() {
    let mut p = FriendPage::new();
    p.init_component_data(vec![user("u1", "Ann")]);
    assert_eq!(p.friends.len(), 1);
    p.update_component_data(WsMsgEvent { msg_type: "add_friend".to_string(), data: WsEventData::Friend(user("u2", "Bob")) });
    assert_eq!(p.friends.len(), 2);
    assert_eq!(p.friends[1].id, "u2");
    p.update_component_data(WsMsgEvent { msg_type: "message".to_string(), data: WsEventData::Friend(user("u3", "C")) });
    p.update_component_data(WsMsgEvent { msg_type: "add_friend".to_string(), data: WsEventData::Invalid });
    assert_eq!(p.friends.len(), 2);
    let g = MessageGroup {
        id: "g".to_string(),
        name: String::new(),
        avatar: String::new(),
        history: vec![],
        members: vec![],
        group_type: String::new(),
    };
    p.update_component_data(WsMsgEvent { msg_type: "add_friend".to_string(), data: WsEventData::Group(g) });
    assert_eq!(p.friends.len(), 2);
}

#[test]
fn friend_page_labels_and_private_chat() {
    let mut p = FriendPage::new();
    p.init_component_data(vec![user("u1", "Bartholomew Montgomery")]);
    assert_eq!(p.friend_label(0), "Bartholomew Mon");
    p.select_user("u1");
    let f = p.send_message_form("me");
    assert_eq!(f[0], ("user_id".to_string(), "me".to_string()));
    assert_eq!(f[1], ("user_id".to_string(), "u1".to_string()));
    assert_eq!(f[2], ("type".to_string(), "private_chat".to_string()));
}

#[test]
fn home_view_pages_and_icons() {
    let mut h: HomeView<(i32, i32)> = HomeView::new();
    assert!(matches!(h.shown_page(), HomePage::Messages));
    assert_eq!(h.icon_background(0), 0x0099FF);
    assert_eq!(h.icon_background(1), 0xF5F5F5);
    assert_eq!(h.icon_hover_background(0), None);
    assert_eq!(h.icon_hover_background(1), Some(0xEBEBEB));
    h.select_icon(1);
    assert!(matches!(h.shown_page(), HomePage::Friends));
    h.handle_event(&EventBus::WebSocketText("x".to_string()));
    h.handle_event(&EventBus::ChangeMessageGroupSelectIndex(3));
    assert!(matches!(h.shown_page(), HomePage::Friends));
    h.handle_event(&EventBus::ChildrenChangeSelectIndex);
    assert!(matches!(h.shown_page(), HomePage::Messages));
    h.select_icon(5);
    assert!(matches!(h.shown_page(), HomePage::Placeholder));
}

#[test]
fn home_view_maximize_toggles() {
    let mut h: HomeView<(i32, i32)> = HomeView::new();
    assert!(matches!(h.toggle_maximize((800, 600), Some((1920, 1080))), ZoomAction::ZoomTo((1920, 1080))));
    assert!(h.is_maximized);
    assert_eq!(h.restore_bounds, Some((800, 600)));
    assert!(matches!(h.toggle_maximize((1920, 1080), None), ZoomAction::ZoomTo((800, 600))));
    assert!(!h.is_maximized);
    assert!(matches!(h.toggle_maximize((700, 500), None), ZoomAction::Stay));
    assert!(h.is_maximized);
    assert_eq!(h.restore_bounds, Some((700, 500)));
}

fn reply(code: &str, msg: &str) -> LoginResponse<LoginResponseMsg> {
    LoginResponse {
        code: code.to_string(),
        data: LoginResponseMsg { user_id: "u1".to_string(), user_avatar: "a".to_string(), user_token: "t".to_string() },
        msg: msg.to_string(),
    }
}

#[test]
fn login_requires_both_fields() {
    let mut v = LoginView::new();
    assert!(v.submit_login("", "pw").is_none());
    assert_eq!(v.err_msg, "请填写用户名密码");
    assert!(v.submit_login("me", "").is_none());
    let p = v.submit_login("me", "pw").unwrap();
    assert_eq!(p.username, "me");
    assert_eq!(p.password, "pw");
    assert!(!v.button_loading);
    assert_eq!(login_url("http://h:1"), "http://h:1/user/login");
}

#[test]
fn login_outcomes() {
    let mut v = LoginView::new();
    assert!(v.finish_login(Ok(reply("401", "bad password"))).is_none());
    assert_eq!(v.err_msg, "bad password");
    assert!(!v.login_state);
    assert!(v.finish_login(Err(LoginError::Send("refused".to_string()))).is_none());
    assert_eq!(v.err_msg, "请求失败: refused");
    let d = v.finish_login(Ok(reply("200", "ok"))).unwrap();
    assert_eq!(d.user_token, "t");
    assert!(v.login_state);
}

#[test]
fn login_pages_and_avatar() {
    let mut v = LoginView::new();
    assert!(matches!(v.page_to_render(), Page::LoginPage));
    v.current_page = Page::RegisterPage;
    assert!(matches!(v.page_to_render(), Page::RegisterPage));
    v.current_page = Page::ResetPasswordPage;
    assert!(matches!(v.page_to_render(), Page::LoginPage));
    v.set_avatar_path("D:\\me.png");
    assert_eq!(v.avatar_path, Some("D:/me.png".to_string()));
}

#[test]
fn left_nav_items() {
    let mut n = LeftNav::new();
    n.fill_items(12);
    assert_eq!(n.items.len(), 12);
    assert_eq!(n.items[0], "Item 0");
    assert_eq!(n.items[11], "Item 11");
    n.select_item(4321);
    assert_eq!(n.select_id, "4321");
    n.select_item(0);
    assert_eq!(n.select_id, "0");
}

#[test]
fn login_error_texts() {
    assert_eq!(LoginError::Send("refused".to_string()).text(), "请求失败: refused");
    assert_eq!(LoginError::Read("reset".to_string()).text(), "读取响应失败: reset");
    assert_eq!(
        LoginError::Decode { detail: "eof".to_string(), body: "{".to_string() }.text(),
        "JSON 解析失败: eof\n原始内容: {"
    );
    assert_eq!(LoginError::Task("cancelled".to_string()).text(), "cancelled");
    let mut v = LoginView::new();
    assert!(v.finish_login(Err(LoginError::Decode { detail: "eof".to_string(), body: "x".to_string() })).is_none());
    assert_eq!(v.err_msg, "JSON 解析失败: eof\n原始内容: x");
}
