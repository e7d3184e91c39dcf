//! The panel that lists the members of the open conversation.

use vstd::prelude::*;

use crate::component::{members_model, GroupMembers, GroupMembersModel};
use crate::service::http_request::{form_field, form_model};
use crate::text::{min_int, take_chars};

verus! {

/// The members on display, the kind of the open conversation, and the
/// member last right-clicked.
pub struct GroupMemberEntity {
    pub group_type: String,
    pub group_users: Vec<GroupMembers>,
    pub select_user_id: String,
}

/// The mathematical value of a [`GroupMemberEntity`].
pub struct GroupMemberEntityModel {
    pub group_type: Seq<char>,
    pub group_users: Seq<GroupMembersModel>,
    pub select_user_id: Seq<char>,
}

impl View for GroupMemberEntity {
    type V = GroupMemberEntityModel;

    open spec fn view(&self) -> GroupMemberEntityModel {
        GroupMemberEntityModel {
            group_type: self.group_type@,
            group_users: members_model(self.group_users@),
            select_user_id: self.select_user_id@,
        }
    }
}

/// Characters of a member's name that the panel shows.
pub const MEMBER_NAME_CHARS: usize = 10;

/// The fields of the form that opens a private chat between two users.
pub open spec fn spec_private_chat_form(own_id: Seq<char>, other_id: Seq<char>) -> Seq<(Seq<char>, Seq<char>)> {
    seq![("user_id"@, own_id), ("user_id"@, other_id), ("type"@, "private_chat"@)]
}

/// The form that asks the server for a private chat between `own_id` and
/// `other_id`: the field `user_id` twice, then `type`.
pub fn private_chat_form(own_id: &str, other_id: &str) -> (f: Vec<(String, String)>)
    ensures
        form_model(f@) == spec_private_chat_form(own_id@, other_id@),
{
    let mut f = Vec::new();
    f.push(form_field("user_id", own_id));
    f.push(form_field("user_id", other_id));
    f.push(form_field("type", "private_chat"));
    assert(form_model(f@) =~= spec_private_chat_form(own_id@, other_id@));
    f
}

impl GroupMemberEntity {
    /// The value of an empty panel.
    pub open spec fn new_model() -> GroupMemberEntityModel {
        GroupMemberEntityModel { group_type: Seq::empty(), group_users: Seq::empty(), select_user_id: Seq::empty() }
    }

    /// An empty panel.
    pub fn new() -> (s: Self)
        ensures
            s@ == Self::new_model(),
    {
        let s = GroupMemberEntity { group_type: String::new(), group_users: Vec::new(), select_user_id: String::new() };
        assert(s@.group_users =~= Seq::<GroupMembersModel>::empty());
        assert(s@.group_type =~= Seq::<char>::empty());
        s
    }

    /// Whether the panel is hidden: it is for a private chat with members.
    pub fn hides_panel(&self) -> (b: bool)
        ensures
            b == (self@.group_users.len() != 0 && self@.group_type == "private_chat"@),
    {
        self.group_users.len() != 0 && self.group_type == "private_chat".to_owned()
    }

    /// The name of member `index` as the panel shows it: its first ten
    /// characters.
    pub fn member_label(&self, index: usize) -> (l: String)
        requires
            index < self.group_users@.len(),
        ensures
            l@ == self@.group_users[index as int].name.take(
                min_int(MEMBER_NAME_CHARS as int, self@.group_users[index as int].name.len() as int),
            ),
    {
        take_chars(self.group_users[index].name.as_str(), MEMBER_NAME_CHARS)
    }

    /// Remembers the member the user right-clicked.
    pub fn select_user(&mut self, id: &str)
        ensures
            final(self)@ == (GroupMemberEntityModel { select_user_id: id@, ..old(self)@ }),
    {
        self.select_user_id = id.to_owned();
    }

    /// The form that opens a private chat with the member last
    /// right-clicked, on behalf of `own_id`.
    pub fn send_message_form(&self, own_id: &str) -> (f: Vec<(String, String)>)
        ensures
            form_model(f@) == spec_private_chat_form(own_id@, self@.select_user_id),
    {
        private_chat_form(own_id, self.select_user_id.as_str())
    }
}

} // verus!
