//! The friends page: the user's friends and the menu that opens a private
//! chat with one of them.

use vstd::prelude::*;

use crate::component::message_page::group_chat_member::{private_chat_form, spec_private_chat_form};
use crate::component::{
    groups_model, spec_ws_msg_type, users_model, ws_msg_type, MessageGroup, MessageGroupModel, User,
    UserModel, WsEventData, WsEventDataModel, WsMsgEvent, WsMsgEventModel, WsMsgType,
};
use crate::service::http_request::form_model;
use crate::text::{min_int, take_chars};

verus! {

/// The friends page's state.
pub struct FriendPage {
    pub user_notice: String,
    pub group_notice: String,
    pub friends: Vec<User>,
    pub groups: Vec<MessageGroup>,
    /// The friend last right-clicked.
    pub select_user_id: String,
}

/// The mathematical value of a [`FriendPage`].
pub struct FriendPageModel {
    pub user_notice: Seq<char>,
    pub group_notice: Seq<char>,
    pub friends: Seq<UserModel>,
    pub groups: Seq<MessageGroupModel>,
    pub select_user_id: Seq<char>,
}

impl View for FriendPage {
    type V = FriendPageModel;

    open spec fn view(&self) -> FriendPageModel {
        FriendPageModel {
            user_notice: self.user_notice@,
            group_notice: self.group_notice@,
            friends: users_model(self.friends@),
            groups: groups_model(self.groups@),
            select_user_id: self.select_user_id@,
        }
    }
}

/// Characters of a friend's name that the page shows.
pub const FRIEND_NAME_CHARS: usize = 15;

/// The page after a server event: a new friend is appended to the list;
/// any other event changes nothing.
pub open spec fn spec_update_component_data(m: FriendPageModel, ev: WsMsgEventModel) -> FriendPageModel {
    match spec_ws_msg_type(ev.msg_type) {
        WsMsgType::AddFriend => match ev.data {
            WsEventDataModel::Friend(u) => FriendPageModel { friends: m.friends.push(u), ..m },
            _ => m,
        },
        _ => m,
    }
}

impl FriendPage {
    /// An empty page.
    pub fn new() -> (p: Self)
        ensures
            p@.user_notice == Seq::<char>::empty(),
            p@.group_notice == Seq::<char>::empty(),
            p@.friends == Seq::<UserModel>::empty(),
            p@.groups == Seq::<MessageGroupModel>::empty(),
            p@.select_user_id == Seq::<char>::empty(),
    {
        let p = FriendPage {
            user_notice: String::new(),
            group_notice: String::new(),
            friends: Vec::new(),
            groups: Vec::new(),
            select_user_id: String::new(),
        };
        assert(p@.friends =~= Seq::<UserModel>::empty());
        assert(p@.groups =~= Seq::<MessageGroupModel>::empty());
        p
    }

    /// Installs the friends the server sent at start-up.
    pub fn init_component_data(&mut self, data: Vec<User>)
        ensures
            final(self)@ == (FriendPageModel { friends: users_model(data@), ..old(self)@ }),
    {
        self.friends = data;
    }

    /// Applies an event pushed by the server.
    pub fn update_component_data(&mut self, event: WsMsgEvent)
        ensures
            final(self)@ == spec_update_component_data(old(self)@, event@),
    {
        match ws_msg_type(event.msg_type.as_str()) {
            WsMsgType::AddFriend => match event.data {
                WsEventData::Friend(u) => {
                    let ghost before = self.friends@;
                    self.friends.push(u);
                    assert(users_model(self.friends@) =~= users_model(before).push(u@));
                },
                _ => {},
            },
            _ => {},
        }
    }

    /// Remembers the friend the user right-clicked.
    pub fn select_user(&mut self, id: &str)
        ensures
            final(self)@ == (FriendPageModel { select_user_id: id@, ..old(self)@ }),
    {
        self.select_user_id = id.to_owned();
    }

    /// The name of friend `index` as the page shows it: its first fifteen
    /// characters.
    pub fn friend_label(&self, index: usize) -> (l: String)
        requires
            index < self@.friends.len(),
        ensures
            l@ == self@.friends[index as int].name.take(
                min_int(FRIEND_NAME_CHARS as int, self@.friends[index as int].name.len() as int),
            ),
    {
        take_chars(self.friends[index].name.as_str(), FRIEND_NAME_CHARS)
    }

    /// The form that opens a private chat with the friend last
    /// right-clicked, on behalf of `own_id`.
    pub fn send_message_form(&self, own_id: &str) -> (f: Vec<(String, String)>)
        ensures
            form_model(f@) == spec_private_chat_form(own_id@, self@.select_user_id),
    {
        private_chat_form(own_id, self.select_user_id.as_str())
    }
}

} // verus!
