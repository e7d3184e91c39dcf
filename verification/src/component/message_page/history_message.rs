//! The panel that lists the messages of the open conversation.

use vstd::prelude::*;

use crate::component::{histories_model, GroupHistory, GroupHistoryModel};
use crate::text::{last_segment, after_last, wrap_chars, wrap_text};

verus! {

/// The messages on display and the length the list's scroll state was
/// last reset to.
pub struct HistoryMessageEntity {
    pub history_message: Vec<GroupHistory>,
    pub scroll_item_count: usize,
}

/// The mathematical value of a [`HistoryMessageEntity`].
pub struct HistoryMessageEntityModel {
    pub history_message: Seq<GroupHistoryModel>,
    pub scroll_item_count: nat,
}

impl View for HistoryMessageEntity {
    type V = HistoryMessageEntityModel;

    open spec fn view(&self) -> HistoryMessageEntityModel {
        HistoryMessageEntityModel {
            history_message: histories_model(self.history_message@),
            scroll_item_count: self.scroll_item_count as nat,
        }
    }
}

/// Characters per line of a displayed message.
pub const MESSAGE_LINE_WIDTH: usize = 40;

impl HistoryMessageEntity {
    /// The value of an empty panel.
    pub open spec fn new_model() -> HistoryMessageEntityModel {
        HistoryMessageEntityModel { history_message: Seq::empty(), scroll_item_count: 0 }
    }

    /// An empty panel.
    pub fn new() -> (s: Self)
        ensures
            s@ == Self::new_model(),
    {
        let s = HistoryMessageEntity { history_message: Vec::new(), scroll_item_count: 0 };
        assert(s@.history_message =~= Seq::<GroupHistoryModel>::empty());
        s
    }

    /// Shows `history`, resetting the scroll state to its length.
    pub fn set_history(&mut self, history: Vec<GroupHistory>)
        ensures
            final(self)@.history_message == histories_model(history@),
            final(self)@.scroll_item_count == history@.len(),
    {
        self.scroll_item_count = history.len();
        self.history_message = history;
    }

    /// The text of message `index`, cut into lines of forty characters.
    pub fn message_text(&self, index: usize) -> (t: String)
        requires
            index < self.history_message@.len(),
        ensures
            t@ == wrap_text(self@.history_message[index as int].message, MESSAGE_LINE_WIDTH as nat),
    {
        wrap_chars(self.history_message[index].message.as_str(), MESSAGE_LINE_WIDTH)
    }

    /// Whether message `index` was sent by the user `user_id`; the panel
    /// shows such messages on the right.
    pub fn is_own_message(&self, index: usize, user_id: &str) -> (b: bool)
        requires
            index < self.history_message@.len(),
        ensures
            b == (self@.history_message[index as int].send_user_id == user_id@),
    {
        user_id.to_owned() == self.history_message[index].send_user_id
    }

    /// Whether the message `index` is shown as its attached files rather
    /// than as text.
    pub fn shows_files(&self, index: usize) -> (b: bool)
        requires
            index < self.history_message@.len(),
        ensures
            b == (self@.history_message[index as int].files.len() > 0),
    {
        self.history_message[index].files.len() > 0
    }
}

/// The name under which a downloaded attachment is stored: the last part
/// of its address after `'/'`.
pub fn attachment_file_name(file_url: &str) -> (n: String)
    ensures
        n@ == last_segment(file_url@, '/'),
{
    after_last(file_url, '/')
}

} // verus!
