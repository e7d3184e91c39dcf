//! The window that creates a group chat.

use vstd::prelude::*;

use crate::service::http_request::{form_field, form_model};
use crate::text::{after_last, last_segment, replace_char, replaced_char};

verus! {

/// The window's state: the avatar picked for the new conversation.
pub struct CreateGroupChatWindow {
    pub avatar_path: Option<String>,
}

/// The fields of the form that creates a group chat.
pub open spec fn spec_create_group_form(user_id: Seq<char>, group_name: Seq<char>) -> Seq<(Seq<char>, Seq<char>)> {
    seq![("user_id"@, user_id), ("group_name"@, group_name), ("type"@, "group_chat"@)]
}

/// A picked path with its backslashes turned into slashes.
pub open spec fn normalized_path(path: Seq<char>) -> Seq<char> {
    replaced_char(path, '\\', '/')
}

/// Turns the backslashes of a picked path into slashes.
pub fn normalize_path(path: &str) -> (p: String)
    ensures
        p@ == normalized_path(path@),
{
    replace_char(path, '\\', '/')
}

/// The form by which `user_id` creates a group chat named `group_name`.
pub fn create_group_form(user_id: &str, group_name: &str) -> (f: Vec<(String, String)>)
    ensures
        form_model(f@) == spec_create_group_form(user_id@, group_name@),
{
    let mut f = Vec::new();
    f.push(form_field("user_id", user_id));
    f.push(form_field("group_name", group_name));
    f.push(form_field("type", "group_chat"));
    assert(form_model(f@) =~= spec_create_group_form(user_id@, group_name@));
    f
}

/// Whether the server's reply payload says the conversation was created:
/// it is the text `success`.
pub fn creation_succeeded(data: Option<&str>) -> (b: bool)
    ensures
        b == (data matches Some(d) && d@ == "success"@),
{
    match data {
        Some(d) => d.to_owned() == "success".to_owned(),
        None => false,
    }
}

impl CreateGroupChatWindow {
    /// A window with no avatar picked.
    pub fn new() -> (w: Self)
        ensures
            w.avatar_path is None,
    {
        CreateGroupChatWindow { avatar_path: None }
    }

    /// Records the avatar the user picked, with slashes for separators.
    pub fn set_avatar_path(&mut self, picked: &str)
        ensures
            final(self).avatar_path matches Some(p) && p@ == normalized_path(picked@),
    {
        self.avatar_path = Some(normalize_path(picked));
    }

    /// The file name under which the picked avatar is uploaded: the part of
    /// its path after the last `'/'`.
    pub fn avatar_file_name(&self) -> (n: Option<String>)
        ensures
            match self.avatar_path {
                Some(p) => n matches Some(x) && x@ == last_segment(p@, '/'),
                None => n is None,
            },
    {
        match &self.avatar_path {
            Some(p) => Some(after_last(p.as_str(), '/')),
            None => None,
        }
    }
}

} // verus!
