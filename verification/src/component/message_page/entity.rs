//! The records the message page works with.

use vstd::prelude::*;

pub use crate::component::{GroupHistory, GroupMembers, MessageGroup, User, WsMsgEvent};

verus! {

/// What the conversation list shows of one conversation: its id, the name
/// to display and the avatar to display.
pub struct LeftSidebarMessageGroup {
    pub id: String,
    pub name: String,
    pub avatar: String,
}

} // verus!
