use gui::component::message_page::create_group_chat_window::{
    create_group_form, creation_succeeded, normalize_path, CreateGroupChatWindow,
};
use gui::component::message_page::group_chat_member::{private_chat_form, GroupMemberEntity};
use gui::component::message_page::history_message::{attachment_file_name, HistoryMessageEntity};
use gui::component::message_page::search_group_and_user_window::{
    join_group_form, search_form, SearchGroupAndUserWindow, SearchResult,
};
use gui::component::message_page::send_message_entity::SendMessageEntity;
use gui::component::{GroupHistory, GroupMembers, MessageGroup};

fn strs(v: &[&str]) -> Vec<String> {
    v.iter().map(|s| s.to_string()).collect()
}

fn fields(v: &[(&str, &str)]) -> Vec<(String, String)> {
    v.iter().map(|(a, b)| (a.to_string(), b.to_string())).collect()
}

#[test]
fn pick_files_skips_already_picked() {
    let mut p = SendMessageEntity::new();
    p.pick_files(strs(&["/a", "/b"]));
    p.pick_files(strs(&["/b", "/c", "/a"]));
    assert_eq!(p.pick_send_files, strs(&["/a", "/b", "/c"]));
    assert_eq!(p.err_msg, "");
}

#[test]
fn pick_files_keeps_five_new_files_when_over_limit() {
    let mut p = SendMessageEntity::new();
    p.pick_files(strs(&["/1", "/2", "/3", "/4", "/5", "/6", "/7"]));
    assert_eq!(p.pick_send_files, strs(&["/1", "/2", "/3", "/4", "/5"]));
    assert_eq!(p.err_msg, "最多选择5个文件");
}

#[test]
fn pick_files_limit_is_per_pick() {
    let mut p = SendMessageEntity::new();
    p.pick_files(strs(&["/1", "/2", "/3", "/4", "/5"]));
    assert_eq!(p.err_msg, "");
    p.pick_files(strs(&["/6"]));
    assert_eq!(p.pick_send_files.len(), 6);
    assert_eq!(p.err_msg, "");
    // With more than five already picked, the error shows again.
    p.pick_files(strs(&["/7", "/8"]));
    assert_eq!(p.pick_send_files.len(), 8);
    assert_eq!(p.err_msg, "最多选择5个文件");
}

#[test]
fn pick_files_keeps_duplicates_within_one_pick() {
    let mut p = SendMessageEntity::new();
    p.pick_files(strs(&["/x", "/x"]));
    assert_eq!(p.pick_send_files, strs(&["/x", "/x"]));
}

#[test]
fn remove_picked_file_clears_error() {
    let mut p = SendMessageEntity::new();
    p.pick_files(strs(&["/1", "/2", "/3", "/4", "/5", "/6"]));
    p.remove_picked_file(1);
    assert_eq!(p.pick_send_files, strs(&["/1", "/3", "/4", "/5"]));
    assert_eq!(p.err_msg, "");
}

#[test]
fn send_message_builds_form_and_clears_files() {
    let mut p = SendMessageEntity::new();
    p.group_id = "g1".to_string();
    p.pick_files(strs(&["/tmp/a.png"]));
    let out = p.send_message("u1", "hello");
    assert_eq!(out.fields, fields(&[("send_user_id", "u1"), ("send_group_id", "g1"), ("message", "hello")]));
    assert_eq!(out.files, strs(&["/tmp/a.png"]));
    assert!(p.pick_send_files.is_empty());
    assert_eq!(p.group_id, "g1");
}

fn history(user: &str, text: &str, files: Vec<String>) -> GroupHistory {
    GroupHistory {
        group_id: "g".to_string(),
        message_id: "m".to_string(),
        send_group_id: "g".to_string(),
        send_user_id: user.to_string(),
        send_username: "n".to_string(),
        send_user_avatar: String::new(),
        message: text.to_string(),
        time: String::new(),
        files,
    }
}

#[test]
fn history_panel_wraps_and_attributes_messages() {
    let mut h = HistoryMessageEntity::new();
    assert_eq!(h.scroll_item_count, 0);
    let long: String = std::iter::repeat('a').take(85).collect();
    h.set_history(vec![history("me", &long, vec![]), history("you", "", strs(&["http://x/f.png"]))]);
    assert_eq!(h.scroll_item_count, 2);
    let expected = format!("{}\n{}\n{}", "a".repeat(40), "a".repeat(40), "a".repeat(5));
    assert_eq!(h.message_text(0), expected);
    assert_eq!(h.message_text(1), "");
    assert!(h.is_own_message(0, "me"));
    assert!(!h.is_own_message(1, "me"));
    assert!(!h.shows_files(0));
    assert!(h.shows_files(1));
}

#[test]
fn wrapping_exactly_forty_adds_no_break() {
    let mut h = HistoryMessageEntity::new();
    let forty = "b".repeat(40);
    h.set_history(vec![history("me", &forty, vec![]), history("me", "a\nb", vec![])]);
    assert_eq!(h.message_text(0), forty);
    assert_eq!(h.message_text(1), "a\nb");
}

#[test]
fn attachment_file_name_takes_last_segment() {
    assert_eq!(attachment_file_name("http://host/files/pic.png"), "pic.png");
    assert_eq!(attachment_file_name("plain"), "plain");
    assert_eq!(attachment_file_name("dir/"), "");
    assert_eq!(attachment_file_name(""), "");
}

fn member(id: &str, name: &str) -> GroupMembers {
    GroupMembers {
        group_id: "g".to_string(),
        id: id.to_string(),
        name: name.to_string(),
        avatar: String::new(),
        user_type: "admin".to_string(),
        status: String::new(),
    }
}

#[test]
fn member_panel_rules() {
    let mut m = GroupMemberEntity::new();
    assert!(!m.hides_panel());
    m.group_type = "private_chat".to_string();
    assert!(!m.hides_panel());
    m.group_users = vec![member("u1", "Alexander the Great")];
    assert!(m.hides_panel());
    m.group_type = "group_chat".to_string();
    assert!(!m.hides_panel());
    assert_eq!(m.member_label(0), "Alexander ");
    m.select_user("u1");
    assert_eq!(m.select_user_id, "u1");
    assert_eq!(m.send_message_form("me"), fields(&[("user_id", "me"), ("user_id", "u1"), ("type", "private_chat")]));
    assert_eq!(private_chat_form("a", "b"), fields(&[("user_id", "a"), ("user_id", "b"), ("type", "private_chat")]));
}

#[test]
fn search_window_forms_and_results() {
    assert_eq!(search_form("cats"), fields(&[("keyword", "cats")]));
    assert_eq!(join_group_form("u", "g"), fields(&[("user_id", "u"), ("group_id", "g")]));
    let mut w = SearchGroupAndUserWindow::new();
    assert!(w.search_result.groups.is_empty());
    let g = MessageGroup {
        id: "g42".to_string(),
        name: "Cats".to_string(),
        avatar: String::new(),
        history: vec![],
        members: vec![],
        group_type: "group_chat".to_string(),
    };
    w.set_search_result(SearchResult { groups: vec![g], users: vec![] });
    assert_eq!(w.join_form(0, "me"), fields(&[("user_id", "me"), ("group_id", "g42")]));
    assert!(SearchResult::empty().users.is_empty());
}

#[test]
fn create_group_window() {
    assert_eq!(create_group_form("u", "Team"), fields(&[("user_id", "u"), ("group_name", "Team"), ("type", "group_chat")]));
    assert!(creation_succeeded(Some("success")));
    assert!(!creation_succeeded(Some("fail")));
    assert!(!creation_succeeded(None));
    assert_eq!(normalize_path("C:\\Users\\me\\a.png"), "C:/Users/me/a.png");
    let mut w = CreateGroupChatWindow::new();
    assert_eq!(w.avatar_file_name(), None);
    w.set_avatar_path("C:\\pics\\me.jpg");
    assert_eq!(w.avatar_path, Some("C:/pics/me.jpg".to_string()));
    assert_eq!(w.avatar_file_name(), Some("me.jpg".to_string()));
}
