//! The message page: the list of conversations, the open conversation's
//! messages and members, and the panel that sends messages.

use vstd::prelude::*;
use vstd::hash_map::StringHashMap;

pub mod entity;
pub mod group_chat_member;
pub mod history_message;
pub mod left_sidebar;
pub mod create_group_chat_window;
pub mod search_group_and_user_window;
pub mod send_message_entity;

use crate::component::{
    clone_histories, groups_model, histories_model, members_model, spec_ws_msg_type,
    ws_msg_type, GroupHistory, GroupHistoryModel, GroupMembers, GroupMembersModel, MessageGroup,
    MessageGroupModel, WsEventData, WsEventDataModel, WsMsgEvent, WsMsgEventModel, WsMsgType,
};
use group_chat_member::{GroupMemberEntity, GroupMemberEntityModel};
use history_message::{HistoryMessageEntity, HistoryMessageEntityModel};
use send_message_entity::{SendMessageEntity, SendMessageEntityModel};

verus! {

/// The message page's state: the conversations, newest first; the index of
/// the open one; the ids of the conversations the user has opened (so that
/// their unread count is no longer shown), each with the index it had when
/// first opened; and the three panels of the open conversation.
pub struct MessagePage {
    pub select_index: usize,
    pub message_group: Vec<MessageGroup>,
    pub click_column: StringHashMap<usize>,
    pub sned_message_entity: SendMessageEntity,
    pub history_message_entity: HistoryMessageEntity,
    pub group_members_entity: GroupMemberEntity,
}

/// The mathematical value of a [`MessagePage`].
pub struct MessagePageModel {
    pub select_index: nat,
    pub message_group: Seq<MessageGroupModel>,
    pub click_column: Map<Seq<char>, usize>,
    pub sned_message_entity: SendMessageEntityModel,
    pub history_message_entity: HistoryMessageEntityModel,
    pub group_members_entity: GroupMemberEntityModel,
}

impl View for MessagePage {
    type V = MessagePageModel;

    open spec fn view(&self) -> MessagePageModel {
        MessagePageModel {
            select_index: self.select_index as nat,
            message_group: groups_model(self.message_group@),
            click_column: self.click_column@,
            sned_message_entity: self.sned_message_entity@,
            history_message_entity: self.history_message_entity@,
            group_members_entity: self.group_members_entity@,
        }
    }
}

/// The index of the first conversation with id `id`, if any.
pub open spec fn first_group_index(gs: Seq<MessageGroupModel>, id: Seq<char>) -> Option<int>
    decreases gs.len(),
{
    if gs.len() == 0 {
        None
    } else {
        match first_group_index(gs.drop_last(), id) {
            Some(i) => Some(i),
            None => if gs.last().id == id {
                Some(gs.len() - 1)
            } else {
                None
            },
        }
    }
}

/// A conversation with one more message at the end of its history.
pub open spec fn with_history(g: MessageGroupModel, h: GroupHistoryModel) -> MessageGroupModel {
    MessageGroupModel { history: g.history.push(h), ..g }
}

/// A conversation with one more member at the end of its member list.
pub open spec fn with_member(g: MessageGroupModel, m: GroupMembersModel) -> MessageGroupModel {
    MessageGroupModel { members: g.members.push(m), ..g }
}

/// A new message `h` arrives: it is appended to its conversation, which
/// moves to the front of the list and is shown; when it was not already at
/// the front, it also becomes the open conversation. A message for an
/// unknown conversation changes nothing.
pub open spec fn spec_receive_message(m: MessagePageModel, h: GroupHistoryModel) -> MessagePageModel {
    match first_group_index(m.message_group, h.group_id) {
        Some(i) => {
            let g = with_history(m.message_group[i], h);
            MessagePageModel {
                message_group: m.message_group.remove(i).insert(0, g),
                select_index: if i != 0 { 0 } else { m.select_index },
                history_message_entity: HistoryMessageEntityModel {
                    history_message: g.history,
                    scroll_item_count: g.history.len(),
                },
                ..m
            }
        },
        None => m,
    }
}

/// This user created conversation `g`: unless a conversation with its id is
/// known, it is put first, opened, messages go to it, and the message list
/// is emptied.
pub open spec fn spec_create_group_chat(m: MessagePageModel, g: MessageGroupModel) -> MessagePageModel {
    if first_group_index(m.message_group, g.id) is None {
        MessagePageModel {
            message_group: m.message_group.insert(0, g),
            select_index: 0,
            sned_message_entity: SendMessageEntityModel { group_id: g.id, ..m.sned_message_entity },
            history_message_entity: HistoryMessageEntityModel {
                history_message: Seq::empty(),
                scroll_item_count: 0,
            },
            ..m
        }
    } else {
        m
    }
}

/// Someone joined a conversation: the member is appended to that
/// conversation's members and to the member panel.
pub open spec fn spec_other_join_group_chat(m: MessagePageModel, mb: GroupMembersModel) -> MessagePageModel {
    match first_group_index(m.message_group, mb.group_id) {
        Some(i) => MessagePageModel {
            message_group: m.message_group.update(i, with_member(m.message_group[i], mb)),
            group_members_entity: GroupMemberEntityModel {
                group_users: m.group_members_entity.group_users.push(mb),
                ..m.group_members_entity
            },
            ..m
        },
        None => m,
    }
}

/// This user joined conversation `g`: unless a conversation with its id is
/// known, it is put first and opened, and messages go to it.
pub open spec fn spec_user_join_group_chat(m: MessagePageModel, g: MessageGroupModel) -> MessagePageModel {
    if first_group_index(m.message_group, g.id) is None {
        MessagePageModel {
            message_group: m.message_group.insert(0, g),
            select_index: 0,
            sned_message_entity: SendMessageEntityModel { group_id: g.id, ..m.sned_message_entity },
            ..m
        }
    } else {
        m
    }
}

/// The page after a server event: each kind is handled when its payload
/// decoded as the record it carries; anything else changes nothing.
pub open spec fn spec_apply_ws_event(m: MessagePageModel, ev: WsMsgEventModel) -> MessagePageModel {
    match spec_ws_msg_type(ev.msg_type) {
        WsMsgType::Message => match ev.data {
            WsEventDataModel::History(h) => spec_receive_message(m, h),
            _ => m,
        },
        WsMsgType::CreateGroupChat => match ev.data {
            WsEventDataModel::Group(g) => spec_create_group_chat(m, g),
            _ => m,
        },
        WsMsgType::OtherJoinGroupChat => match ev.data {
            WsEventDataModel::Member(mb) => spec_other_join_group_chat(m, mb),
            _ => m,
        },
        WsMsgType::UserJoinGroupChat => match ev.data {
            WsEventDataModel::Group(g) => spec_user_join_group_chat(m, g),
            _ => m,
        },
        _ => m,
    }
}

/// The user opens conversation `k`: it becomes the open one, is marked as
/// read (recording `k` unless it was marked before), and its messages and
/// members are shown; messages go to it.
pub open spec fn spec_select_group(m: MessagePageModel, k: int) -> MessagePageModel {
    let g = m.message_group[k];
    MessagePageModel {
        select_index: k as nat,
        click_column: if m.click_column.contains_key(g.id) {
            m.click_column
        } else {
            m.click_column.insert(g.id, k as usize)
        },
        sned_message_entity: SendMessageEntityModel { group_id: g.id, ..m.sned_message_entity },
        history_message_entity: HistoryMessageEntityModel {
            history_message: g.history,
            scroll_item_count: g.history.len(),
        },
        group_members_entity: GroupMemberEntityModel {
            group_users: g.members,
            group_type: g.group_type,
            ..m.group_members_entity
        },
        ..m
    }
}

/// The conversations arrive from the server: they replace the list, and the
/// first one, if any, is shown, marked as read at index 0, and receives
/// messages. The open index is left as it was.
pub open spec fn spec_init_message_data(m: MessagePageModel, data: Seq<MessageGroupModel>) -> MessagePageModel {
    if data.len() == 0 {
        MessagePageModel { message_group: data, ..m }
    } else {
        let g = data[0];
        MessagePageModel {
            message_group: data,
            click_column: m.click_column.insert(g.id, 0usize),
            sned_message_entity: SendMessageEntityModel { group_id: g.id, ..m.sned_message_entity },
            history_message_entity: HistoryMessageEntityModel {
                history_message: g.history,
                scroll_item_count: g.history.len(),
            },
            group_members_entity: GroupMemberEntityModel {
                group_users: g.members,
                group_type: g.group_type,
                ..m.group_members_entity
            },
            ..m
        }
    }
}

/// The open index points at a conversation whenever there is one.
pub open spec fn page_wf(m: MessagePageModel) -> bool {
    m.message_group.len() == 0 || m.select_index < m.message_group.len()
}

/// No two conversations share an id.
pub open spec fn unique_ids(gs: Seq<MessageGroupModel>) -> bool {
    forall|i: int, j: int| 0 <= i < gs.len() && 0 <= j < gs.len() && i != j ==> gs[i].id != gs[j].id
}

proof fn lemma_first_group_index(gs: Seq<MessageGroupModel>, id: Seq<char>)
    ensures
        match first_group_index(gs, id) {
            Some(i) => 0 <= i < gs.len() && gs[i].id == id && forall|j: int| 0 <= j < i ==> gs[j].id != id,
            None => forall|j: int| 0 <= j < gs.len() ==> gs[j].id != id,
        },
    decreases gs.len(),
{
    if gs.len() > 0 {
        let d = gs.drop_last();
        lemma_first_group_index(d, id);
        assert forall|j: int| 0 <= j < d.len() implies d[j] == gs[j] by {}
    }
}

proof fn lemma_first_group_index_prefix(gs: Seq<MessageGroupModel>, k: int, id: Seq<char>)
    requires
        0 <= k <= gs.len(),
        first_group_index(gs.take(k), id) is Some,
    ensures
        first_group_index(gs, id) == first_group_index(gs.take(k), id),
    decreases gs.len(),
{
    if k == gs.len() {
        assert(gs.take(k) =~= gs);
    } else {
        assert(gs.drop_last().take(k) =~= gs.take(k));
        lemma_first_group_index_prefix(gs.drop_last(), k, id);
    }
}

fn find_group(groups: &Vec<MessageGroup>, id: &String) -> (r: Option<usize>)
    ensures
        match r {
            Some(i) => first_group_index(groups_model(groups@), id@) == Some(i as int) && i
                < groups@.len(),
            None => first_group_index(groups_model(groups@), id@) is None,
        },
{
    let ghost gs = groups_model(groups@);
    let mut i: usize = 0;
    while i < groups.len()
        invariant
            i <= groups@.len(),
            gs == groups_model(groups@),
            first_group_index(gs.take(i as int), id@) is None,
        decreases groups@.len() - i,
    {
        proof {
            assert(gs.take(i + 1).drop_last() =~= gs.take(i as int));
        }
        if groups[i].id == *id {
            proof {
                lemma_first_group_index_prefix(gs, i + 1, id@);
                lemma_first_group_index(gs, id@);
            }
            return Some(i);
        }
        i = i + 1;
    }
    assert(gs.take(groups@.len() as int) =~= gs);
    None
}

/// A message for a known conversation moves that conversation, with the
/// message appended to its history, to the front of the list; the other
/// conversations keep their order; the message list shows its history.
pub proof fn lemma_message_moves_group_to_front(m: MessagePageModel, ev: WsMsgEventModel, h: GroupHistoryModel)
    requires
        ev.msg_type == "message"@,
        ev.data == WsEventDataModel::History(h),
        first_group_index(m.message_group, h.group_id) is Some,
    ensures
        ({
            let r = spec_apply_ws_event(m, ev);
            let i = first_group_index(m.message_group, h.group_id)->0;
            &&& r.message_group.len() == m.message_group.len()
            &&& r.message_group[0] == with_history(m.message_group[i], h)
            &&& r.message_group[0].id == h.group_id
            &&& r.message_group[0].history.last() == h
            &&& r.message_group.drop_first() == m.message_group.remove(i)
            &&& r.history_message_entity.history_message == r.message_group[0].history
        }),
{
    lemma_first_group_index(m.message_group, h.group_id);
    let i = first_group_index(m.message_group, h.group_id)->0;
    let r = spec_apply_ws_event(m, ev);
    assert(r.message_group.drop_first() =~= m.message_group.remove(i));
}

/// No server event makes two conversations share an id: new conversations
/// are only added when their id is unknown, and a message only reorders.
pub proof fn lemma_ids_stay_unique(m: MessagePageModel, ev: WsMsgEventModel)
    requires
        unique_ids(m.message_group),
    ensures
        unique_ids(spec_apply_ws_event(m, ev).message_group),
{
    let gs = m.message_group;
    let r = spec_apply_ws_event(m, ev);
    match spec_ws_msg_type(ev.msg_type) {
        WsMsgType::Message => match ev.data {
            WsEventDataModel::History(h) => {
                lemma_first_group_index(gs, h.group_id);
                if let Some(i) = first_group_index(gs, h.group_id) {
                    let ns = r.message_group;
                    assert forall|a: int, b: int| 0 <= a < ns.len() && 0 <= b < ns.len() && a != b implies ns[a].id != ns[b].id by {
                        let oa = if a == 0 { i } else if a - 1 < i { a - 1 } else { a };
                        let ob = if b == 0 { i } else if b - 1 < i { b - 1 } else { b };
                        assert(ns[a].id == gs[oa].id);
                        assert(ns[b].id == gs[ob].id);
                    }
                }
            },
            _ => {},
        },
        WsMsgType::CreateGroupChat | WsMsgType::UserJoinGroupChat => match ev.data {
            WsEventDataModel::Group(g) => {
                lemma_first_group_index(gs, g.id);
                if first_group_index(gs, g.id) is None {
                    let ns = r.message_group;
                    assert forall|a: int, b: int| 0 <= a < ns.len() && 0 <= b < ns.len() && a != b implies ns[a].id != ns[b].id by {
                        if a != 0 && b != 0 {
                            assert(ns[a] == gs[a - 1]);
                            assert(ns[b] == gs[b - 1]);
                        } else if a == 0 {
                            assert(ns[b] == gs[b - 1]);
                        } else {
                            assert(ns[a] == gs[a - 1]);
                        }
                    }
                }
            },
            _ => {},
        },
        WsMsgType::OtherJoinGroupChat => match ev.data {
            WsEventDataModel::Member(mb) => {
                lemma_first_group_index(gs, mb.group_id);
                let ns = r.message_group;
                assert forall|a: int, b: int| 0 <= a < ns.len() && 0 <= b < ns.len() && a != b implies ns[a].id != ns[b].id by {
                    assert(ns[a].id == gs[a].id);
                    assert(ns[b].id == gs[b].id);
                }
            },
            _ => {},
        },
        _ => {},
    }
}

/// A message for a known conversation opens that conversation when it was
/// not first: afterwards the open index is 0, the conversation there is the
/// one the message is for, and the message list shows its earlier history
/// followed by the message. When it was first already, the open index does
/// not move.
pub proof fn lemma_message_opens_its_conversation(m: MessagePageModel, ev: WsMsgEventModel, h: GroupHistoryModel, i: int)
    requires
        ev.msg_type == "message"@,
        ev.data == WsEventDataModel::History(h),
        0 <= i < m.message_group.len(),
        m.message_group[i].id == h.group_id,
        forall|j: int| 0 <= j < i ==> m.message_group[j].id != h.group_id,
    ensures
        ({
            let r = spec_apply_ws_event(m, ev);
            &&& i != 0 ==> r.select_index == 0
            &&& i == 0 ==> r.select_index == m.select_index
            &&& r.message_group[0].id == h.group_id
            &&& i != 0 ==> r.message_group[r.select_index as int].id == h.group_id
            &&& r.history_message_entity.history_message == m.message_group[i].history.push(h)
            &&& r.history_message_entity.scroll_item_count == m.message_group[i].history.len() + 1
        }),
{
    lemma_first_group_index(m.message_group, h.group_id);
    assert(first_group_index(m.message_group, h.group_id) == Some(i));
}

/// A conversation the user created or joined, with an id not yet listed,
/// becomes the open one: it is listed first, the open index is 0, messages
/// go to it, and every conversation listed before follows it in order.
/// After a creation the message list is empty.
pub proof fn lemma_new_conversation_is_opened(m: MessagePageModel, ev: WsMsgEventModel, g: MessageGroupModel)
    requires
        ev.msg_type == "create_group_chat"@ || ev.msg_type == "user_join_group_chat"@,
        ev.data == WsEventDataModel::Group(g),
        forall|j: int| 0 <= j < m.message_group.len() ==> m.message_group[j].id != g.id,
    ensures
        ({
            let r = spec_apply_ws_event(m, ev);
            &&& r.select_index == 0
            &&& r.message_group.len() == m.message_group.len() + 1
            &&& r.message_group[0] == g
            &&& r.message_group[r.select_index as int].id == g.id
            &&& r.sned_message_entity.group_id == g.id
            &&& r.message_group.drop_first() == m.message_group
            &&& ev.msg_type == "create_group_chat"@ ==> r.history_message_entity.history_message.len() == 0
        }),
{
    reveal_strlit("message");
    reveal_strlit("create_group_chat");
    reveal_strlit("other_join_group_chat");
    reveal_strlit("user_join_group_chat");
    assert("create_group_chat"@.len() != "message"@.len());
    assert("user_join_group_chat"@.len() != "message"@.len());
    assert("user_join_group_chat"@.len() != "create_group_chat"@.len());
    assert("user_join_group_chat"@.len() != "other_join_group_chat"@.len());
    lemma_first_group_index(m.message_group, g.id);
    assert(first_group_index(m.message_group, g.id) is None);
    let r = spec_apply_ws_event(m, ev);
    if ev.msg_type == "create_group_chat"@ {
        assert(spec_ws_msg_type(ev.msg_type) == WsMsgType::CreateGroupChat);
        assert(r == spec_create_group_chat(m, g));
    } else {
        assert(spec_ws_msg_type(ev.msg_type) == WsMsgType::UserJoinGroupChat);
        assert(r == spec_user_join_group_chat(m, g));
    }
    assert(r.message_group.drop_first() =~= m.message_group);
}

/// Opening conversation `k` shows everything of it: it is the open one and
/// is marked as read, the message list shows its history, the member panel
/// shows its members and its kind, and messages go to it. Nothing else
/// changes: the list and the earlier read marks stay.
pub proof fn lemma_select_shows_conversation(m: MessagePageModel, k: int)
    requires
        0 <= k < m.message_group.len(),
    ensures
        ({
            let r = spec_select_group(m, k);
            let g = m.message_group[k];
            &&& r.select_index == k
            &&& r.message_group == m.message_group
            &&& r.click_column.contains_key(g.id)
            &&& forall|id: Seq<char>| #[trigger] m.click_column.contains_key(id) ==> r.click_column.contains_key(id)
                && r.click_column[id] == m.click_column[id]
            &&& r.history_message_entity.history_message == g.history
            &&& r.group_members_entity.group_users == g.members
            &&& r.group_members_entity.group_type == g.group_type
            &&& r.sned_message_entity.group_id == g.id
            &&& r.sned_message_entity.pick_send_files == m.sned_message_entity.pick_send_files
        }),
{
}

/// Someone joining a listed conversation is appended to that
/// conversation's members and to the member panel; every other
/// conversation, the order of the list and the open index stay as they were.
pub proof fn lemma_member_joins_its_conversation(m: MessagePageModel, ev: WsMsgEventModel, mb: GroupMembersModel, i: int)
    requires
        ev.msg_type == "other_join_group_chat"@,
        ev.data == WsEventDataModel::Member(mb),
        0 <= i < m.message_group.len(),
        m.message_group[i].id == mb.group_id,
        forall|j: int| 0 <= j < i ==> m.message_group[j].id != mb.group_id,
    ensures
        ({
            let r = spec_apply_ws_event(m, ev);
            &&& r.message_group.len() == m.message_group.len()
            &&& r.message_group[i].members == m.message_group[i].members.push(mb)
            &&& r.message_group[i].id == m.message_group[i].id
            &&& r.message_group[i].history == m.message_group[i].history
            &&& forall|j: int| 0 <= j < m.message_group.len() && j != i ==> r.message_group[j] == m.message_group[j]
            &&& r.group_members_entity.group_users == m.group_members_entity.group_users.push(mb)
            &&& r.select_index == m.select_index
        }),
{
    reveal_strlit("message");
    reveal_strlit("create_group_chat");
    reveal_strlit("other_join_group_chat");
    assert("other_join_group_chat"@.len() != "message"@.len());
    assert("other_join_group_chat"@.len() != "create_group_chat"@.len());
    assert(spec_ws_msg_type(ev.msg_type) == WsMsgType::OtherJoinGroupChat);
    lemma_first_group_index(m.message_group, mb.group_id);
    assert(first_group_index(m.message_group, mb.group_id) == Some(i));
}

/// The conversations sent at start-up replace the list; when there is one,
/// the first is marked as read at index 0 and shown: its messages, its
/// members and its kind, and messages go to it. The open index stays.
pub proof fn lemma_loaded_conversations_show_the_first(m: MessagePageModel, data: Seq<MessageGroupModel>)
    ensures
        ({
            let r = spec_init_message_data(m, data);
            &&& r.message_group == data
            &&& r.select_index == m.select_index
            &&& data.len() > 0 ==> r.click_column.contains_key(data[0].id) && r.click_column[data[0].id] == 0
                && r.history_message_entity.history_message == data[0].history
                && r.group_members_entity.group_users == data[0].members
                && r.group_members_entity.group_type == data[0].group_type
                && r.sned_message_entity.group_id == data[0].id
            &&& data.len() == 0 ==> r.click_column == m.click_column
        }),
{
}

/// Whether some conversation of `gs` has id `id`.
pub open spec fn has_group_id(gs: Seq<MessageGroupModel>, id: Seq<char>) -> bool {
    exists|i: int| 0 <= i < gs.len() && (#[trigger] gs[i]).id == id
}

/// No server event removes a conversation or adds more than one: every id
/// listed before is still listed, the list grows by at most one, and of the
/// ids listed afterwards at most one is new.
pub proof fn lemma_events_keep_conversations(m: MessagePageModel, ev: WsMsgEventModel)
    ensures
        ({
            let before = m.message_group;
            let after = spec_apply_ws_event(m, ev).message_group;
            &&& forall|k: int| 0 <= k < before.len() ==> has_group_id(after, (#[trigger] before[k]).id)
            &&& before.len() <= after.len() <= before.len() + 1
            &&& forall|a: int, b: int|
                0 <= a < b < after.len() && !has_group_id(before, (#[trigger] after[a]).id) ==> has_group_id(
                    before,
                    (#[trigger] after[b]).id,
                )
        }),
{
    let before = m.message_group;
    let after = spec_apply_ws_event(m, ev).message_group;
    match spec_ws_msg_type(ev.msg_type) {
        WsMsgType::Message => match ev.data {
            WsEventDataModel::History(h) => {
                lemma_first_group_index(before, h.group_id);
                if let Some(i) = first_group_index(before, h.group_id) {
                    assert forall|k: int| 0 <= k < before.len() implies has_group_id(after, (#[trigger] before[k]).id) by {
                        let a = if k == i { 0 } else if k < i { k + 1 } else { k };
                        assert(after[a].id == before[k].id);
                    }
                    assert forall|a: int| 0 <= a < after.len() implies has_group_id(before, (#[trigger] after[a]).id) by {
                        let k = if a == 0 { i } else if a - 1 < i { a - 1 } else { a };
                        assert(after[a].id == before[k].id);
                    }
                }
            },
            _ => {},
        },
        WsMsgType::CreateGroupChat | WsMsgType::UserJoinGroupChat => match ev.data {
            WsEventDataModel::Group(g) => {
                if first_group_index(before, g.id) is None {
                    assert forall|k: int| 0 <= k < before.len() implies has_group_id(after, (#[trigger] before[k]).id) by {
                        assert(after[k + 1] == before[k]);
                    }
                    assert forall|b: int| 1 <= b < after.len() implies has_group_id(before, (#[trigger] after[b]).id) by {
                        assert(after[b] == before[b - 1]);
                    }
                }
            },
            _ => {},
        },
        WsMsgType::OtherJoinGroupChat => match ev.data {
            WsEventDataModel::Member(mb) => {
                lemma_first_group_index(before, mb.group_id);
                assert forall|k: int| 0 <= k < before.len() implies has_group_id(after, (#[trigger] before[k]).id) by {
                    assert(after[k].id == before[k].id);
                }
                assert forall|a: int| 0 <= a < after.len() implies has_group_id(before, (#[trigger] after[a]).id) by {
                    assert(after[a].id == before[a].id);
                }
            },
            _ => {},
        },
        _ => {},
    }
    // An event that changes nothing keeps each conversation where it was.
    assert forall|k: int| 0 <= k < before.len() implies has_group_id(after, (#[trigger] before[k]).id) by {
        if after == before {
            assert(after[k] == before[k]);
        }
    }
}

/// No server event leaves the open index pointing past the list, and
/// opening a conversation always points at one.
pub proof fn lemma_selection_stays_in_range(m: MessagePageModel, ev: WsMsgEventModel, k: int)
    requires
        page_wf(m),
    ensures
        page_wf(spec_apply_ws_event(m, ev)),
        0 <= k < m.message_group.len() ==> page_wf(spec_select_group(m, k)),
{
    match spec_ws_msg_type(ev.msg_type) {
        WsMsgType::Message => match ev.data {
            WsEventDataModel::History(h) => lemma_first_group_index(m.message_group, h.group_id),
            _ => {},
        },
        WsMsgType::OtherJoinGroupChat => match ev.data {
            WsEventDataModel::Member(mb) => lemma_first_group_index(m.message_group, mb.group_id),
            _ => {},
        },
        _ => {},
    }
}

/// A conversation marked as read stays marked, with the index it was first
/// opened at: server events leave the marks alone and opening a
/// conversation only adds a mark.
pub proof fn lemma_read_marks_persist(m: MessagePageModel, ev: WsMsgEventModel, k: int, id: Seq<char>)
    requires
        m.click_column.contains_key(id),
    ensures
        spec_apply_ws_event(m, ev).click_column == m.click_column,
        0 <= k < m.message_group.len() ==> spec_select_group(m, k).click_column.contains_key(id)
            && spec_select_group(m, k).click_column[id] == m.click_column[id],
{
}

/// Events of a kind the message page does not handle, or whose payload
/// did not decode, change nothing.
pub proof fn lemma_other_events_ignored(m: MessagePageModel, ev: WsMsgEventModel)
    requires
        ev.data == WsEventDataModel::Invalid || !(ev.msg_type == "message"@ || ev.msg_type
            == "create_group_chat"@ || ev.msg_type == "other_join_group_chat"@ || ev.msg_type
            == "user_join_group_chat"@),
    ensures
        spec_apply_ws_event(m, ev) == m,
{
}

impl MessagePage {
    /// An empty page.
    pub fn new() -> (s: Self)
        ensures
            s@.select_index == 0,
            s@.message_group == Seq::<MessageGroupModel>::empty(),
            s@.click_column == Map::<Seq<char>, usize>::empty(),
            s@.sned_message_entity == SendMessageEntity::new_model(),
            s@.history_message_entity == HistoryMessageEntity::new_model(),
            s@.group_members_entity == GroupMemberEntity::new_model(),
    {
        let s = MessagePage {
            select_index: 0,
            message_group: Vec::new(),
            click_column: StringHashMap::new(),
            sned_message_entity: SendMessageEntity::new(),
            history_message_entity: HistoryMessageEntity::new(),
            group_members_entity: GroupMemberEntity::new(),
        };
        assert(s@.message_group =~= Seq::<MessageGroupModel>::empty());
        s
    }

    fn receive_message(&mut self, h: GroupHistory)
        ensures
            final(self)@ == spec_receive_message(old(self)@, h@),
    {
        match find_group(&self.message_group, &h.group_id) {
            Some(i) => {
                let ghost gs = groups_model(self.message_group@);
                let mut g = self.message_group.remove(i);
                let ghost hs = g.history@;
                g.history.push(h);
                assert(histories_model(g.history@) =~= histories_model(hs).push(h@));
                assert(g@ == with_history(gs[i as int], h@));
                let hist = clone_histories(&g.history);
                let ghost rest = self.message_group@;
                self.message_group.insert(0, g);
                assert(groups_model(self.message_group@) =~= gs.remove(i as int).insert(0, g@)) by {
                    assert(groups_model(rest) =~= gs.remove(i as int));
                }
                if i != 0 {
                    self.select_index = 0;
                }
                self.history_message_entity.set_history(hist);
            },
            None => {},
        }
    }

    fn create_group_chat(&mut self, g: MessageGroup)
        ensures
            final(self)@ == spec_create_group_chat(old(self)@, g@),
    {
        if find_group(&self.message_group, &g.id).is_none() {
            let ghost gs = groups_model(self.message_group@);
            let id = g.id.clone();
            self.message_group.insert(0, g);
            assert(groups_model(self.message_group@) =~= gs.insert(0, g@));
            self.sned_message_entity.group_id = id;
            self.select_index = 0;
            self.history_message_entity.set_history(Vec::new());
            assert(self@.history_message_entity.history_message =~= Seq::<GroupHistoryModel>::empty());
        }
    }

    fn other_join_group_chat(&mut self, mb: GroupMembers)
        ensures
            final(self)@ == spec_other_join_group_chat(old(self)@, mb@),
    {
        match find_group(&self.message_group, &mb.group_id) {
            Some(i) => {
                let ghost gs = groups_model(self.message_group@);
                let mut g = self.message_group.remove(i);
                let ghost ms = g.members@;
                g.members.push(mb.clone());
                assert(members_model(g.members@) =~= members_model(ms).push(mb@));
                let ghost rest = self.message_group@;
                self.message_group.insert(i, g);
                assert(groups_model(self.message_group@) =~= gs.update(i as int, with_member(gs[i as int], mb@))) by {
                    assert(groups_model(rest) =~= gs.remove(i as int));
                }
                let ghost us = self.group_members_entity.group_users@;
                self.group_members_entity.group_users.push(mb);
                assert(members_model(self.group_members_entity.group_users@) =~= members_model(us).push(mb@));
            },
            None => {},
        }
    }

    fn user_join_group_chat(&mut self, g: MessageGroup)
        ensures
            final(self)@ == spec_user_join_group_chat(old(self)@, g@),
    {
        if find_group(&self.message_group, &g.id).is_none() {
            let ghost gs = groups_model(self.message_group@);
            let id = g.id.clone();
            self.message_group.insert(0, g);
            assert(groups_model(self.message_group@) =~= gs.insert(0, g@));
            self.sned_message_entity.group_id = id;
            self.select_index = 0;
        }
    }

    /// Applies an event pushed by the server.
    pub fn apply_ws_event(&mut self, event: WsMsgEvent)
        ensures
            final(self)@ == spec_apply_ws_event(old(self)@, event@),
    {
        let kind = ws_msg_type(event.msg_type.as_str());
        match kind {
            WsMsgType::Message => match event.data {
                WsEventData::History(h) => self.receive_message(h),
                _ => {},
            },
            WsMsgType::CreateGroupChat => match event.data {
                WsEventData::Group(g) => self.create_group_chat(g),
                _ => {},
            },
            WsMsgType::OtherJoinGroupChat => match event.data {
                WsEventData::Member(mb) => self.other_join_group_chat(mb),
                _ => {},
            },
            WsMsgType::UserJoinGroupChat => match event.data {
                WsEventData::Group(g) => self.user_join_group_chat(g),
                _ => {},
            },
            _ => {},
        }
    }

    /// The user opens conversation `vm_index`.
    pub fn select_group(&mut self, vm_index: usize)
        requires
            vm_index < old(self)@.message_group.len(),
        ensures
            final(self)@ == spec_select_group(old(self)@, vm_index as int),
    {
        self.select_index = vm_index;
        let group_data = self.message_group[vm_index].clone();
        if !self.click_column.contains_key(group_data.id.as_str()) {
            self.click_column.insert(group_data.id.clone(), vm_index);
        }
        self.sned_message_entity.group_id = group_data.id;
        self.history_message_entity.set_history(group_data.history);
        self.group_members_entity.group_users = group_data.members;
        self.group_members_entity.group_type = group_data.group_type;
    }

    /// Installs the conversations the server sent at start-up.
    pub fn init_message_data(&mut self, data: Vec<MessageGroup>)
        ensures
            final(self)@ == spec_init_message_data(old(self)@, groups_model(data@)),
    {
        if data.len() > 0 {
            let first = data[0].clone();
            self.click_column.insert(first.id.clone(), 0);
            self.sned_message_entity.group_id = first.id;
            self.history_message_entity.set_history(first.history);
            self.group_members_entity.group_users = first.members;
            self.group_members_entity.group_type = first.group_type;
        }
        self.message_group = data;
    }

    /// The name in the page's header: that of the open conversation, or
    /// nothing when there is none.
    pub fn current_group_name(&self) -> (n: String)
        requires
            page_wf(self@),
        ensures
            n@ == if self@.message_group.len() != 0 {
                self@.message_group[self@.select_index as int].name
            } else {
                Seq::<char>::empty()
            },
    {
        if self.message_group.len() != 0 {
            self.message_group[self.select_index].name.clone()
        } else {
            String::new()
        }
    }
}

} // verus!
