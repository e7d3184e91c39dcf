//! The records exchanged with the chat server and the pages built on them.

use vstd::prelude::*;

pub mod friend_page;
pub mod home;
pub mod login;
pub mod message_page;

verus! {

/// Packs three colour channels into `0xRRGGBB`.
pub fn rgb_to_u32(r: u8, g: u8, b: u8) -> (c: u32)
    ensures
        c == r as int * 65536 + g as int * 256 + b as int,
{
    let rr: u32 = r as u32;
    let gg: u32 = g as u32;
    let bb: u32 = b as u32;
    assert(((rr << 16u32) | (gg << 8u32) | bb) == rr * 65536 + gg * 256 + bb) by (bit_vector)
        requires
            rr < 256,
            gg < 256,
            bb < 256,
    ;
    (rr << 16u32) | (gg << 8u32) | bb
}

/// Each channel can be read back from a packed colour: packing loses nothing.
pub proof fn lemma_rgb_channels_recoverable(r: u8, g: u8, b: u8)
    ensures
        (r as int * 65536 + g as int * 256 + b as int) / 65536 == r,
        ((r as int * 65536 + g as int * 256 + b as int) / 256) % 256 == g,
        (r as int * 65536 + g as int * 256 + b as int) % 256 == b,
{
    let c = r as int * 65536 + g as int * 256 + b as int;
    vstd::arithmetic::div_mod::lemma_fundamental_div_mod_converse(c, 65536, r as int, g as int * 256 + b as int);
    vstd::arithmetic::div_mod::lemma_fundamental_div_mod_converse(c, 256, r as int * 256 + g as int, b as int);
    vstd::arithmetic::div_mod::lemma_fundamental_div_mod_converse(r as int * 256 + g as int, 256, r as int, g as int);
}

/// Two colours pack to the same value only when all their channels agree.
pub proof fn lemma_rgb_injective(r1: u8, g1: u8, b1: u8, r2: u8, g2: u8, b2: u8)
    requires
        r1 as int * 65536 + g1 as int * 256 + b1 as int == r2 as int * 65536 + g2 as int * 256
            + b2 as int,
    ensures
        r1 == r2,
        g1 == g2,
        b1 == b2,
{
    lemma_rgb_channels_recoverable(r1, g1, b1);
    lemma_rgb_channels_recoverable(r2, g2, b2);
}

/// A user as the server describes one.
pub struct User {
    pub id: String,
    pub name: String,
    pub avatar: String,
}

/// The mathematical value of a [`User`].
pub struct UserModel {
    pub id: Seq<char>,
    pub name: Seq<char>,
    pub avatar: Seq<char>,
}

impl View for User {
    type V = UserModel;

    open spec fn view(&self) -> UserModel {
        UserModel { id: self.id@, name: self.name@, avatar: self.avatar@ }
    }
}

impl Clone for User {
    fn clone(&self) -> (r: Self)
        ensures
            r@ == self@,
    {
        User { id: self.id.clone(), name: self.name.clone(), avatar: self.avatar.clone() }
    }
}

/// One message of a group's history.
pub struct GroupHistory {
    pub group_id: String,
    pub message_id: String,
    pub send_group_id: String,
    pub send_user_id: String,
    pub send_username: String,
    pub send_user_avatar: String,
    pub message: String,
    pub time: String,
    pub files: Vec<String>,
}

/// The mathematical value of a [`GroupHistory`].
pub struct GroupHistoryModel {
    pub group_id: Seq<char>,
    pub message_id: Seq<char>,
    pub send_group_id: Seq<char>,
    pub send_user_id: Seq<char>,
    pub send_username: Seq<char>,
    pub send_user_avatar: Seq<char>,
    pub message: Seq<char>,
    pub time: Seq<char>,
    pub files: Seq<Seq<char>>,
}

/// The views of a list of strings.
pub open spec fn strings_model(v: Seq<String>) -> Seq<Seq<char>> {
    v.map_values(|s: String| s@)
}

impl View for GroupHistory {
    type V = GroupHistoryModel;

    open spec fn view(&self) -> GroupHistoryModel {
        GroupHistoryModel {
            group_id: self.group_id@,
            message_id: self.message_id@,
            send_group_id: self.send_group_id@,
            send_user_id: self.send_user_id@,
            send_username: self.send_username@,
            send_user_avatar: self.send_user_avatar@,
            message: self.message@,
            time: self.time@,
            files: strings_model(self.files@),
        }
    }
}

/// Copies a list of strings.
pub fn clone_strings(v: &Vec<String>) -> (r: Vec<String>)
    ensures
        strings_model(r@) == strings_model(v@),
{
    let r = v.clone();
    assert(strings_model(r@) =~= strings_model(v@));
    r
}

impl Clone for GroupHistory {
    fn clone(&self) -> (r: Self)
        ensures
            r@ == self@,
    {
        GroupHistory {
            group_id: self.group_id.clone(),
            message_id: self.message_id.clone(),
            send_group_id: self.send_group_id.clone(),
            send_user_id: self.send_user_id.clone(),
            send_username: self.send_username.clone(),
            send_user_avatar: self.send_user_avatar.clone(),
            message: self.message.clone(),
            time: self.time.clone(),
            files: clone_strings(&self.files),
        }
    }
}

/// A member of a group chat.
pub struct GroupMembers {
    pub group_id: String,
    pub id: String,
    pub name: String,
    pub avatar: String,
    pub user_type: String,
    pub status: String,
}

/// The mathematical value of a [`GroupMembers`].
pub struct GroupMembersModel {
    pub group_id: Seq<char>,
    pub id: Seq<char>,
    pub name: Seq<char>,
    pub avatar: Seq<char>,
    pub user_type: Seq<char>,
    pub status: Seq<char>,
}

impl View for GroupMembers {
    type V = GroupMembersModel;

    open spec fn view(&self) -> GroupMembersModel {
        GroupMembersModel {
            group_id: self.group_id@,
            id: self.id@,
            name: self.name@,
            avatar: self.avatar@,
            user_type: self.user_type@,
            status: self.status@,
        }
    }
}

impl Clone for GroupMembers {
    fn clone(&self) -> (r: Self)
        ensures
            r@ == self@,
    {
        GroupMembers {
            group_id: self.group_id.clone(),
            id: self.id.clone(),
            name: self.name.clone(),
            avatar: self.avatar.clone(),
            user_type: self.user_type.clone(),
            status: self.status.clone(),
        }
    }
}

/// A conversation: a group chat or a private chat between two users.
pub struct MessageGroup {
    pub id: String,
    pub name: String,
    pub avatar: String,
    pub history: Vec<GroupHistory>,
    pub members: Vec<GroupMembers>,
    /// `"group_chat"` or `"private_chat"`.
    pub group_type: String,
}

/// The mathematical value of a [`MessageGroup`].
pub struct MessageGroupModel {
    pub id: Seq<char>,
    pub name: Seq<char>,
    pub avatar: Seq<char>,
    pub history: Seq<GroupHistoryModel>,
    pub members: Seq<GroupMembersModel>,
    pub group_type: Seq<char>,
}

/// The views of a list of users.
pub open spec fn users_model(v: Seq<User>) -> Seq<UserModel> {
    v.map_values(|u: User| u@)
}

/// The views of a message history.
pub open spec fn histories_model(v: Seq<GroupHistory>) -> Seq<GroupHistoryModel> {
    v.map_values(|h: GroupHistory| h@)
}

/// The views of a member list.
pub open spec fn members_model(v: Seq<GroupMembers>) -> Seq<GroupMembersModel> {
    v.map_values(|m: GroupMembers| m@)
}

/// The views of a list of conversations.
pub open spec fn groups_model(v: Seq<MessageGroup>) -> Seq<MessageGroupModel> {
    v.map_values(|g: MessageGroup| g@)
}

impl View for MessageGroup {
    type V = MessageGroupModel;

    open spec fn view(&self) -> MessageGroupModel {
        MessageGroupModel {
            id: self.id@,
            name: self.name@,
            avatar: self.avatar@,
            history: histories_model(self.history@),
            members: members_model(self.members@),
            group_type: self.group_type@,
        }
    }
}

/// Copies a list of users.
pub fn clone_users(v: &Vec<User>) -> (r: Vec<User>)
    ensures
        users_model(r@) == users_model(v@),
{
    let r = v.clone();
    assert(users_model(r@) =~= users_model(v@));
    r
}

/// Copies a message history.
pub fn clone_histories(v: &Vec<GroupHistory>) -> (r: Vec<GroupHistory>)
    ensures
        histories_model(r@) == histories_model(v@),
{
    let r = v.clone();
    assert(histories_model(r@) =~= histories_model(v@));
    r
}

/// Copies a member list.
pub fn clone_members(v: &Vec<GroupMembers>) -> (r: Vec<GroupMembers>)
    ensures
        members_model(r@) == members_model(v@),
{
    let r = v.clone();
    assert(members_model(r@) =~= members_model(v@));
    r
}

/// Copies a list of conversations.
pub fn clone_groups(v: &Vec<MessageGroup>) -> (r: Vec<MessageGroup>)
    ensures
        groups_model(r@) == groups_model(v@),
{
    let r = v.clone();
    assert(groups_model(r@) =~= groups_model(v@));
    r
}

impl Clone for MessageGroup {
    fn clone(&self) -> (r: Self)
        ensures
            r@ == self@,
    {
        MessageGroup {
            id: self.id.clone(),
            name: self.name.clone(),
            avatar: self.avatar.clone(),
            history: clone_histories(&self.history),
            members: clone_members(&self.members),
            group_type: self.group_type.clone(),
        }
    }
}

/// The kinds of event that the server pushes over the WebSocket, told
/// apart by the event's `type` field.
pub enum WsMsgType {
    /// `"message"`: a new message in a conversation.
    Message,
    /// `"create_group_chat"`: a conversation this user created.
    CreateGroupChat,
    /// `"other_join_group_chat"`: someone joined one of this user's conversations.
    OtherJoinGroupChat,
    /// `"user_join_group_chat"`: this user joined a conversation.
    UserJoinGroupChat,
    /// `"add_friend"`: a new friend.
    AddFriend,
    /// Any other type.
    Unknown,
}

/// The kind named by an event's `type` field.
pub open spec fn spec_ws_msg_type(t: Seq<char>) -> WsMsgType {
    if t == "message"@ {
        WsMsgType::Message
    } else if t == "create_group_chat"@ {
        WsMsgType::CreateGroupChat
    } else if t == "other_join_group_chat"@ {
        WsMsgType::OtherJoinGroupChat
    } else if t == "user_join_group_chat"@ {
        WsMsgType::UserJoinGroupChat
    } else if t == "add_friend"@ {
        WsMsgType::AddFriend
    } else {
        WsMsgType::Unknown
    }
}

/// Tells the kind of a server event from its `type` field.
pub fn ws_msg_type(t: &str) -> (k: WsMsgType)
    ensures
        k == spec_ws_msg_type(t@),
{
    let t: String = t.to_owned();
    if t == "message".to_owned() {
        WsMsgType::Message
    } else if t == "create_group_chat".to_owned() {
        WsMsgType::CreateGroupChat
    } else if t == "other_join_group_chat".to_owned() {
        WsMsgType::OtherJoinGroupChat
    } else if t == "user_join_group_chat".to_owned() {
        WsMsgType::UserJoinGroupChat
    } else if t == "add_friend".to_owned() {
        WsMsgType::AddFriend
    } else {
        WsMsgType::Unknown
    }
}

/// The payload of a server event, decoded as the record its kind carries.
pub enum WsEventData {
    /// The payload of a `"message"` event.
    History(GroupHistory),
    /// The payload of a `"create_group_chat"` or `"user_join_group_chat"` event.
    Group(MessageGroup),
    /// The payload of an `"other_join_group_chat"` event.
    Member(GroupMembers),
    /// The payload of an `"add_friend"` event.
    Friend(User),
    /// A payload that did not decode as the record its kind carries.
    Invalid,
}

/// The mathematical value of a [`WsEventData`].
pub enum WsEventDataModel {
    History(GroupHistoryModel),
    Group(MessageGroupModel),
    Member(GroupMembersModel),
    Friend(UserModel),
    Invalid,
}

impl View for WsEventData {
    type V = WsEventDataModel;

    open spec fn view(&self) -> WsEventDataModel {
        match self {
            WsEventData::History(h) => WsEventDataModel::History(h@),
            WsEventData::Group(g) => WsEventDataModel::Group(g@),
            WsEventData::Member(m) => WsEventDataModel::Member(m@),
            WsEventData::Friend(u) => WsEventDataModel::Friend(u@),
            WsEventData::Invalid => WsEventDataModel::Invalid,
        }
    }
}

/// An event pushed by the server over the WebSocket.
pub struct WsMsgEvent {
    /// The event's `type` field.
    pub msg_type: String,
    /// The event's `data` field, decoded.
    pub data: WsEventData,
}

/// The mathematical value of a [`WsMsgEvent`].
pub struct WsMsgEventModel {
    pub msg_type: Seq<char>,
    pub data: WsEventDataModel,
}

impl View for WsMsgEvent {
    type V = WsMsgEventModel;

    open spec fn view(&self) -> WsMsgEventModel {
        WsMsgEventModel { msg_type: self.msg_type@, data: self.data@ }
    }
}

/// Everything the server sends about the logged-in user at start-up.
pub struct UserDetailInfo {
    pub friends: Vec<User>,
    pub message_groups: Vec<MessageGroup>,
}

} // verus!
