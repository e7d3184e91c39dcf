use gui::component::message_page::MessagePage;
use gui::component::{
    ws_msg_type, GroupHistory, GroupMembers, MessageGroup, WsEventData, WsMsgEvent, WsMsgType,
};

fn msg(group: &str, id: &str, user: &str, text: &str) -> GroupHistory {
    GroupHistory {
        group_id: group.to_string(),
        message_id: id.to_string(),
        send_group_id: group.to_string(),
        send_user_id: user.to_string(),
        send_username: format!("name-{}", user),
        send_user_avatar: String::new(),
        message: text.to_string(),
        time: "2024-01-02 03:04:05".to_string(),
        files: vec![],
    }
}

fn member(group: &str, id: &str, name: &str) -> GroupMembers {
    GroupMembers {
        group_id: group.to_string(),
        id: id.to_string(),
        name: name.to_string(),
        avatar: format!("{}.png", id),
        user_type: "member".to_string(),
        status: "online".to_string(),
    }
}

fn group(id: &str, history: Vec<GroupHistory>) -> MessageGroup {
    MessageGroup {
        id: id.to_string(),
        name: format!("Group {}", id),
        avatar: format!("{}.png", id),
        history,
        members: vec![member(id, "u1", "Alice")],
        group_type: "group_chat".to_string(),
    }
}

fn ids(page: &MessagePage) -> Vec<String> {
    page.message_group.iter().map(|g| g.id.clone()).collect()
}

fn loaded_page() -> MessagePage {
    let mut page = MessagePage::new();
    page.init_message_data(vec![
        group("g1", vec![msg("g1", "m1", "u1", "hi")]),
        group("g2", vec![]),
        group("g3", vec![msg("g3", "m2", "u2", "yo")]),
    ]);
    page
}

fn event(t: &str, data: WsEventData) -> WsMsgEvent {
    WsMsgEvent { msg_type: t.to_string(), data }
}

#[test]
fn ws_msg_type_classifies_event_types() {
    assert!(matches!(ws_msg_type("message"), WsMsgType::Message));
    assert!(matches!(ws_msg_type("create_group_chat"), WsMsgType::CreateGroupChat));
    assert!(matches!(ws_msg_type("other_join_group_chat"), WsMsgType::OtherJoinGroupChat));
    assert!(matches!(ws_msg_type("user_join_group_chat"), WsMsgType::UserJoinGroupChat));
    assert!(matches!(ws_msg_type("add_friend"), WsMsgType::AddFriend));
    assert!(matches!(ws_msg_type("Message"), WsMsgType::Unknown));
    assert!(matches!(ws_msg_type(""), WsMsgType::Unknown));
}

#[test]
fn new_page_is_empty() {
    let page = MessagePage::new();
    assert_eq!(page.select_index, 0);
    assert!(page.message_group.is_empty());
    assert!(!page.click_column.contains_key("g1"));
    assert!(page.history_message_entity.history_message.is_empty());
    assert_eq!(page.current_group_name(), "");
}

#[test]
fn init_message_data_shows_first_group() {
    let page = loaded_page();
    assert_eq!(ids(&page), vec!["g1", "g2", "g3"]);
    assert_eq!(page.sned_message_entity.group_id, "g1");
    assert_eq!(page.history_message_entity.history_message.len(), 1);
    assert_eq!(page.history_message_entity.scroll_item_count, 1);
    assert_eq!(page.group_members_entity.group_users.len(), 1);
    assert_eq!(page.group_members_entity.group_type, "group_chat");
    assert!(page.click_column.contains_key("g1"));
    assert_eq!(page.click_column.get("g1"), Some(&0));
    assert_eq!(page.current_group_name(), "Group g1");
}

#[test]
fn init_message_data_with_no_groups_changes_only_the_list() {
    let mut page = loaded_page();
    page.init_message_data(vec![]);
    assert!(page.message_group.is_empty());
    assert_eq!(page.sned_message_entity.group_id, "g1");
    assert_eq!(page.current_group_name(), "");
}

#[test]
fn message_moves_group_to_front() {
    let mut page = loaded_page();
    page.select_group(1);
    page.apply_ws_event(event("message", WsEventData::History(msg("g3", "m3", "u1", "new"))));
    assert_eq!(ids(&page), vec!["g3", "g1", "g2"]);
    assert_eq!(page.select_index, 0);
    let g3 = &page.message_group[0];
    assert_eq!(g3.history.len(), 2);
    assert_eq!(g3.history[1].message_id, "m3");
    assert_eq!(page.history_message_entity.history_message.len(), 2);
    assert_eq!(page.history_message_entity.scroll_item_count, 2);
    assert_eq!(page.history_message_entity.history_message[1].message, "new");
}

#[test]
fn message_for_front_group_keeps_selection() {
    let mut page = loaded_page();
    page.select_group(2);
    page.apply_ws_event(event("message", WsEventData::History(msg("g1", "m4", "u2", "x"))));
    assert_eq!(ids(&page), vec!["g1", "g2", "g3"]);
    assert_eq!(page.select_index, 2);
    assert_eq!(page.message_group[0].history.len(), 2);
    assert_eq!(page.history_message_entity.history_message.len(), 2);
}

#[test]
fn message_for_unknown_group_is_ignored() {
    let mut page = loaded_page();
    page.apply_ws_event(event("message", WsEventData::History(msg("nope", "m5", "u2", "x"))));
    assert_eq!(ids(&page), vec!["g1", "g2", "g3"]);
    assert_eq!(page.history_message_entity.history_message.len(), 1);
}

#[test]
fn create_group_chat_inserts_new_group_first() {
    let mut page = loaded_page();
    page.select_group(2);
    page.apply_ws_event(event("create_group_chat", WsEventData::Group(group("g9", vec![]))));
    assert_eq!(ids(&page), vec!["g9", "g1", "g2", "g3"]);
    assert_eq!(page.select_index, 0);
    assert_eq!(page.sned_message_entity.group_id, "g9");
    assert!(page.history_message_entity.history_message.is_empty());
    assert_eq!(page.history_message_entity.scroll_item_count, 0);
}

#[test]
fn create_group_chat_for_known_id_is_ignored() {
    let mut page = loaded_page();
    page.select_group(2);
    page.apply_ws_event(event("create_group_chat", WsEventData::Group(group("g2", vec![]))));
    assert_eq!(ids(&page), vec!["g1", "g2", "g3"]);
    assert_eq!(page.select_index, 2);
    assert_eq!(page.sned_message_entity.group_id, "g3");
}

#[test]
fn user_join_group_chat_inserts_without_clearing_history() {
    let mut page = loaded_page();
    page.apply_ws_event(event("user_join_group_chat", WsEventData::Group(group("g7", vec![]))));
    assert_eq!(ids(&page), vec!["g7", "g1", "g2", "g3"]);
    assert_eq!(page.sned_message_entity.group_id, "g7");
    assert_eq!(page.history_message_entity.history_message.len(), 1);
}

#[test]
fn other_join_group_chat_appends_member() {
    let mut page = loaded_page();
    page.apply_ws_event(event("other_join_group_chat", WsEventData::Member(member("g2", "u5", "Eve"))));
    assert_eq!(page.message_group[1].members.len(), 2);
    assert_eq!(page.message_group[1].members[1].id, "u5");
    assert_eq!(page.group_members_entity.group_users.len(), 2);
    assert_eq!(page.group_members_entity.group_users[1].name, "Eve");
    page.apply_ws_event(event("other_join_group_chat", WsEventData::Member(member("zz", "u6", "X"))));
    assert_eq!(page.group_members_entity.group_users.len(), 2);
}

#[test]
fn mismatched_or_unknown_events_are_ignored() {
    let mut page = loaded_page();
    page.apply_ws_event(event("message", WsEventData::Invalid));
    page.apply_ws_event(event("message", WsEventData::Group(group("g8", vec![]))));
    page.apply_ws_event(event("add_friend", WsEventData::Group(group("g8", vec![]))));
    page.apply_ws_event(event("something_else", WsEventData::Group(group("g8", vec![]))));
    assert_eq!(ids(&page), vec!["g1", "g2", "g3"]);
    assert_eq!(page.select_index, 0);
}

#[test]
fn select_group_marks_read_once_and_shows_group() {
    let mut page = loaded_page();
    page.select_group(2);
    assert_eq!(page.select_index, 2);
    assert_eq!(page.click_column.get("g3"), Some(&2));
    assert_eq!(page.sned_message_entity.group_id, "g3");
    assert_eq!(page.history_message_entity.history_message[0].message_id, "m2");
    assert_eq!(page.current_group_name(), "Group g3");
    // After a move, opening the same conversation keeps its first index.
    page.apply_ws_event(event("message", WsEventData::History(msg("g2", "m9", "u1", "z"))));
    assert_eq!(ids(&page), vec!["g2", "g1", "g3"]);
    page.select_group(2);
    assert_eq!(page.click_column.get("g3"), Some(&2));
    page.select_group(0);
    assert_eq!(page.click_column.get("g2"), Some(&0));
    assert_eq!(page.history_message_entity.scroll_item_count, 1);
}

#[test]
fn ids_stay_unique_after_events() {
    let mut page = loaded_page();
    page.apply_ws_event(event("create_group_chat", WsEventData::Group(group("g1", vec![]))));
    page.apply_ws_event(event("user_join_group_chat", WsEventData::Group(group("g3", vec![]))));
    page.apply_ws_event(event("message", WsEventData::History(msg("g3", "m", "u", "t"))));
    let mut seen = ids(&page);
    seen.sort();
    seen.dedup();
    assert_eq!(seen.len(), page.message_group.len());
    assert!(page.select_index < page.message_group.len());
}

#[test]
fn events_never_drop_a_conversation_and_add_at_most_one() {
    let mut page = loaded_page();
    let events = vec![
        event("message", WsEventData::History(msg("g3", "m3", "u1", "again"))),
        event("create_group_chat", WsEventData::Group(group("g4", vec![]))),
        event("create_group_chat", WsEventData::Group(group("g1", vec![]))),
        event("user_join_group_chat", WsEventData::Group(group("g5", vec![]))),
        event("other_join_group_chat", WsEventData::Member(member("g2", "u9", "Zed"))),
        event("message", WsEventData::History(msg("nowhere", "m4", "u1", "lost"))),
        event("add_friend", WsEventData::Invalid),
    ];
    for ev in events {
        let before = ids(&page);
        page.apply_ws_event(ev);
        let after = ids(&page);
        assert!(before.iter().all(|id| after.contains(id)));
        assert!(after.len() == before.len() || after.len() == before.len() + 1);
        assert!(after.iter().filter(|id| !before.contains(id)).count() <= 1);
    }
    assert_eq!(ids(&page), vec!["g5", "g4", "g3", "g1", "g2"]);
}
