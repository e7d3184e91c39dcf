//! The window that searches conversations and users and joins a
//! conversation.

use vstd::prelude::*;

use crate::component::{groups_model, users_model, MessageGroup, MessageGroupModel, User, UserModel};
use crate::service::http_request::{form_field, form_model};

verus! {

/// What a search found.
pub struct SearchResult {
    pub groups: Vec<MessageGroup>,
    pub users: Vec<User>,
}

/// The mathematical value of a [`SearchResult`].
pub struct SearchResultModel {
    pub groups: Seq<MessageGroupModel>,
    pub users: Seq<UserModel>,
}

impl View for SearchResult {
    type V = SearchResultModel;

    open spec fn view(&self) -> SearchResultModel {
        SearchResultModel { groups: groups_model(self.groups@), users: users_model(self.users@) }
    }
}

impl SearchResult {
    /// A result with nothing in it, which stands for a reply that did not
    /// decode.
    pub fn empty() -> (r: Self)
        ensures
            r@.groups == Seq::<MessageGroupModel>::empty(),
            r@.users == Seq::<UserModel>::empty(),
    {
        let r = SearchResult { groups: Vec::new(), users: Vec::new() };
        assert(r@.groups =~= Seq::<MessageGroupModel>::empty());
        assert(r@.users =~= Seq::<UserModel>::empty());
        r
    }
}

/// The search window's state: the last result.
pub struct SearchGroupAndUserWindow {
    pub search_result: SearchResult,
}

/// The fields of the search form.
pub open spec fn spec_search_form(keyword: Seq<char>) -> Seq<(Seq<char>, Seq<char>)> {
    seq![("keyword"@, keyword)]
}

/// The fields of the form that joins a conversation.
pub open spec fn spec_join_group_form(user_id: Seq<char>, group_id: Seq<char>) -> Seq<(Seq<char>, Seq<char>)> {
    seq![("user_id"@, user_id), ("group_id"@, group_id)]
}

/// The form that searches for `keyword`.
pub fn search_form(keyword: &str) -> (f: Vec<(String, String)>)
    ensures
        form_model(f@) == spec_search_form(keyword@),
{
    let mut f = Vec::new();
    f.push(form_field("keyword", keyword));
    assert(form_model(f@) =~= spec_search_form(keyword@));
    f
}

/// The form by which `user_id` joins conversation `group_id`.
pub fn join_group_form(user_id: &str, group_id: &str) -> (f: Vec<(String, String)>)
    ensures
        form_model(f@) == spec_join_group_form(user_id@, group_id@),
{
    let mut f = Vec::new();
    f.push(form_field("user_id", user_id));
    f.push(form_field("group_id", group_id));
    assert(form_model(f@) =~= spec_join_group_form(user_id@, group_id@));
    f
}

impl SearchGroupAndUserWindow {
    /// A window with an empty result.
    pub fn new() -> (w: Self)
        ensures
            w.search_result@.groups == Seq::<MessageGroupModel>::empty(),
            w.search_result@.users == Seq::<UserModel>::empty(),
    {
        SearchGroupAndUserWindow { search_result: SearchResult::empty() }
    }

    /// Shows the result of a search.
    pub fn set_search_result(&mut self, result: SearchResult)
        ensures
            final(self).search_result@ == result@,
    {
        self.search_result = result;
    }

    /// The form by which `user_id` joins the conversation found at `index`.
    pub fn join_form(&self, index: usize, user_id: &str) -> (f: Vec<(String, String)>)
        requires
            index < self.search_result@.groups.len(),
        ensures
            form_model(f@) == spec_join_group_form(user_id@, self.search_result@.groups[index as int].id),
    {
        join_group_form(user_id, self.search_result.groups[index].id.as_str())
    }
}

} // verus!
