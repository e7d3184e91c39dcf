//! What the list of conversations shows of each conversation.

use vstd::prelude::*;

use chrono::{Datelike, Timelike};

use crate::component::message_page::entity::LeftSidebarMessageGroup;
use crate::component::message_page::{MessagePage, MessagePageModel};
use crate::component::{
    rgb_to_u32, GroupHistoryModel, GroupMembersModel, MessageGroupModel,
};
use crate::text::{
    decimal, min_int, push_char, push_decimal, push_two_digits, remove_char, take_chars,
    two_digits, without_char,
};

verus! {

/// Characters of a name or of a message preview that the list shows.
pub const SIDEBAR_TEXT_CHARS: usize = 15;

/// The largest unread count the list shows.
pub const MAX_BADGE_COUNT: usize = 99;

/// The format of message timestamps, in chrono's notation.
pub open spec fn message_time_format() -> Seq<char> {
    "%Y-%m-%d %H:%M:%S"@
}

/// The date and time `text` denotes when chrono's
/// `NaiveDateTime::parse_from_str` reads it in `format`: year, month, day,
/// hour and minute, or nothing when the text does not match the format.
pub uninterp spec fn parsed_message_time(text: Seq<char>, format: Seq<char>) -> Option<(i32, u32, u32, u32, u32)>;

/// Reads a timestamp with chrono's `NaiveDateTime::parse_from_str` in the
/// given format. The contract claims that the result depends on the text
/// and the format alone, and that a parsed date-time has a month in
/// 1..=12, a day in 1..=31, an hour below 24 and a minute below 60, as
/// chrono documents for `NaiveDateTime`.
#[verifier::external_body]
fn parse_message_time(text: &str, format: &str) -> (r: Option<(i32, u32, u32, u32, u32)>)
    ensures
        r == parsed_message_time(text@, format@),
        r matches Some(t) ==> 1 <= t.1 <= 12 && 1 <= t.2 <= 31 && t.3 < 24 && t.4 < 60,
{
    match chrono::NaiveDateTime::parse_from_str(text, format) {
        Ok(dt) => Some((dt.year(), dt.month(), dt.day(), dt.hour(), dt.minute())),
        Err(_) => None,
    }
}

/// Today's date in the machine's time zone, from chrono's `Local::now()`:
/// year, month and day. The contract claims only that the month is in
/// 1..=12 and the day in 1..=31; which day it is depends on the clock.
#[verifier::external_body]
fn local_today() -> (r: (i32, u32, u32))
    ensures
        1 <= r.1 <= 12,
        1 <= r.2 <= 31,
{
    let d = chrono::Local::now().date_naive();
    (d.year(), d.month(), d.day())
}

/// The time shown beside a conversation for its last message's timestamp
/// `text`: `HH:MM` when it is from `today`, `MM-DD` otherwise, and the text
/// itself when it is not a timestamp.
pub open spec fn spec_time_label(
    text: Seq<char>,
    parsed: Option<(i32, u32, u32, u32, u32)>,
    today: (i32, u32, u32),
) -> Seq<char> {
    match parsed {
        Some(t) => if t.0 == today.0 && t.1 == today.1 && t.2 == today.2 {
            two_digits(t.3 as nat) + seq![':'] + two_digits(t.4 as nat)
        } else {
            two_digits(t.1 as nat) + seq!['-'] + two_digits(t.2 as nat)
        },
        None => text,
    }
}

/// The label of a timestamp, given how it parsed and today's date.
pub fn message_time_label(text: &str, parsed: Option<(i32, u32, u32, u32, u32)>, today: (i32, u32, u32)) -> (l: String)
    requires
        parsed matches Some(t) ==> t.1 < 100 && t.2 < 100 && t.3 < 100 && t.4 < 100,
    ensures
        l@ == spec_time_label(text@, parsed, today),
{
    match parsed {
        Some(t) => {
            let mut l = String::new();
            if t.0 == today.0 && t.1 == today.1 && t.2 == today.2 {
                push_two_digits(&mut l, t.3);
                push_char(&mut l, ':');
                push_two_digits(&mut l, t.4);
            } else {
                push_two_digits(&mut l, t.1);
                push_char(&mut l, '-');
                push_two_digits(&mut l, t.2);
            }
            assert(l@ =~= spec_time_label(text@, parsed, today));
            l
        },
        None => text.to_owned(),
    }
}

/// The label of a timestamp on the machine's current date; what it is
/// depends on which day it is.
pub fn sidebar_time_label(text: &str) -> (l: String)
    ensures
        exists|today: (i32, u32, u32)|
            1 <= today.1 <= 12 && 1 <= today.2 <= 31 && l@ == spec_time_label(
                text@,
                parsed_message_time(text@, message_time_format()),
                today,
            ),
{
    let parsed = parse_message_time(text, "%Y-%m-%d %H:%M:%S");
    let today = local_today();
    message_time_label(text, parsed, today)
}

/// A name as the list shows it: its first fifteen characters and `...`.
pub open spec fn display_name(name: Seq<char>) -> Seq<char> {
    name.take(min_int(SIDEBAR_TEXT_CHARS as int, name.len() as int)) + seq!['.', '.', '.']
}

/// The last member of a conversation who is not the user `user_id`.
pub open spec fn last_peer(members: Seq<GroupMembersModel>, user_id: Seq<char>) -> Option<GroupMembersModel>
    decreases members.len(),
{
    if members.len() == 0 {
        None
    } else if members.last().id != user_id {
        Some(members.last())
    } else {
        last_peer(members.drop_last(), user_id)
    }
}

/// The other member shown for a private chat, if the conversation is one
/// and has such a member.
pub open spec fn shown_peer(g: MessageGroupModel, user_id: Seq<char>) -> Option<GroupMembersModel> {
    if g.group_type == "private_chat"@ {
        last_peer(g.members, user_id)
    } else {
        None
    }
}

/// The name the list shows for a conversation: that of the other member of
/// a private chat, else the conversation's own.
pub open spec fn entry_name(g: MessageGroupModel, user_id: Seq<char>) -> Seq<char> {
    match shown_peer(g, user_id) {
        Some(p) => display_name(p.name),
        None => display_name(g.name),
    }
}

/// The avatar the list shows for a conversation.
pub open spec fn entry_avatar(g: MessageGroupModel, user_id: Seq<char>) -> Seq<char> {
    match shown_peer(g, user_id) {
        Some(p) => p.avatar,
        None => g.avatar,
    }
}

/// A message with every field empty, standing in for the last message of
/// an empty conversation.
pub open spec fn empty_history() -> GroupHistoryModel {
    GroupHistoryModel {
        group_id: Seq::empty(),
        message_id: Seq::empty(),
        send_group_id: Seq::empty(),
        send_user_id: Seq::empty(),
        send_username: Seq::empty(),
        send_user_avatar: Seq::empty(),
        message: Seq::empty(),
        time: Seq::empty(),
        files: Seq::empty(),
    }
}

/// The last message of a conversation, or the empty one.
pub open spec fn last_message(g: MessageGroupModel) -> GroupHistoryModel {
    if g.history.len() == 0 {
        empty_history()
    } else {
        g.history.last()
    }
}

/// The preview of a message: `sender:text`, the text without line breaks
/// and cut to fifteen characters; nothing when both parts are empty.
pub open spec fn spec_preview(h: GroupHistoryModel) -> Seq<char> {
    let text = without_char(h.message, '\n');
    let raw = h.send_username + seq![':'] + text.take(min_int(SIDEBAR_TEXT_CHARS as int, text.len() as int));
    if raw == seq![':'] {
        Seq::empty()
    } else {
        raw
    }
}

/// The unread count shown for conversation `k`: none when the conversation
/// is open, was opened before, or has no message; otherwise its number of
/// messages, at most 99.
pub open spec fn spec_badge(m: MessagePageModel, k: int) -> Option<Seq<char>> {
    let g = m.message_group[k];
    if m.click_column.contains_key(g.id) || g.history.len() == 0 || m.select_index == k {
        None
    } else {
        Some(decimal(min_int(g.history.len() as int, MAX_BADGE_COUNT as int) as nat))
    }
}

/// The open conversation never shows an unread count, whatever its
/// messages and read marks; a conversation that is not open, was never
/// opened and has messages shows their number, at most 99.
pub proof fn lemma_open_conversation_has_no_badge(m: MessagePageModel, k: int)
    requires
        0 <= k < m.message_group.len(),
    ensures
        k == m.select_index ==> spec_badge(m, k) is None,
        k != m.select_index && !m.click_column.contains_key(m.message_group[k].id)
            && m.message_group[k].history.len() > 0 ==> spec_badge(m, k) == Some(
            decimal(
                if m.message_group[k].history.len() < 99 {
                    m.message_group[k].history.len()
                } else {
                    99
                },
            ),
        ),
{
}

/// The background of an entry: grey when the conversation is open, white
/// otherwise.
pub open spec fn spec_entry_background(m: MessagePageModel, k: int) -> u32 {
    if m.select_index == k {
        0xE2E2E2u32
    } else {
        0xFFFFFFu32
    }
}

/// What the list shows of one conversation.
pub struct SidebarEntry {
    /// The conversation's id, and the name and avatar to display.
    pub group: LeftSidebarMessageGroup,
    /// The preview of the last message.
    pub preview: String,
    /// The unread count, when one is shown.
    pub unread_badge: Option<String>,
    /// The time of the last message.
    pub time_label: String,
    /// The background colour, as `0xRRGGBB`.
    pub background: u32,
}

fn push_str(s: &mut String, t: &str)
    ensures
        final(s)@ == old(s)@ + t@,
{
    s.append(t);
}

impl MessagePage {
    /// What the list shows of conversation `vm_index` to the user `user_id`.
    pub fn sidebar_entry(&self, vm_index: usize, user_id: &str) -> (e: SidebarEntry)
        requires
            vm_index < self@.message_group.len(),
        ensures
            e.group.id@ == self@.message_group[vm_index as int].id,
            e.group.name@ == entry_name(self@.message_group[vm_index as int], user_id@),
            e.group.avatar@ == entry_avatar(self@.message_group[vm_index as int], user_id@),
            e.preview@ == spec_preview(last_message(self@.message_group[vm_index as int])),
            match e.unread_badge {
                Some(b) => spec_badge(self@, vm_index as int) == Some(b@),
                None => spec_badge(self@, vm_index as int) is None,
            },
            e.background == spec_entry_background(self@, vm_index as int),
            exists|today: (i32, u32, u32)|
                1 <= today.1 <= 12 && 1 <= today.2 <= 31 && e.time_label@ == spec_time_label(
                    last_message(self@.message_group[vm_index as int]).time,
                    parsed_message_time(last_message(self@.message_group[vm_index as int]).time, message_time_format()),
                    today,
                ),
    {
        proof {
            reveal_strlit("...");
            reveal_strlit(":");
            reveal_strlit("private_chat");
        }
        assert("..."@ =~= seq!['.', '.', '.']);
        assert(":"@ =~= seq![':']);
        let group = &self.message_group[vm_index];
        let ghost g = self@.message_group[vm_index as int];
        // The name and avatar, possibly those of the other member of a private chat.
        let mut name = take_chars(group.name.as_str(), SIDEBAR_TEXT_CHARS);
        push_str(&mut name, "...");
        let mut avatar = group.avatar.clone();
        if group.group_type == "private_chat".to_owned() {
            let mut j: usize = 0;
            let uid: String = user_id.to_owned();
            while j < group.members.len()
                invariant
                    j <= group.members@.len(),
                    g == self@.message_group[vm_index as int],
                    group@ == g,
                    uid@ == user_id@,
                    "..."@ == seq!['.', '.', '.'],
                    g.group_type == "private_chat"@,
                    match last_peer(g.members.take(j as int), user_id@) {
                        Some(p) => name@ == display_name(p.name) && avatar@ == p.avatar,
                        None => name@ == display_name(g.name) && avatar@ == g.avatar,
                    },
                decreases group.members@.len() - j,
            {
                proof {
                    assert(g.members.take(j + 1).drop_last() =~= g.members.take(j as int));
                    assert(g.members.take(j + 1).last() == group.members@[j as int]@);
                }
                if !(group.members[j].id == uid) {
                    name = take_chars(group.members[j].name.as_str(), SIDEBAR_TEXT_CHARS);
                    push_str(&mut name, "...");
                    avatar = group.members[j].avatar.clone();
                }
                j = j + 1;
            }
            assert(g.members.take(group.members@.len() as int) =~= g.members);
        }
        // The preview and the time of the last message.
        let n = group.history.len();
        let mut preview = String::new();
        let time_label;
        if n > 0 {
            let last = &group.history[n - 1];
            assert(last@ == last_message(g));
            preview = last.send_username.clone();
            push_char(&mut preview, ':');
            let text = remove_char(last.message.as_str(), '\n');
            let cut = take_chars(text.as_str(), SIDEBAR_TEXT_CHARS);
            push_str(&mut preview, cut.as_str());
            time_label = sidebar_time_label(last.time.as_str());
            assert(preview@ =~= last@.send_username + seq![':'] + without_char(last@.message, '\n').take(
                min_int(SIDEBAR_TEXT_CHARS as int, without_char(last@.message, '\n').len() as int),
            ));
        } else {
            push_char(&mut preview, ':');
            time_label = sidebar_time_label("");
            assert(without_char(Seq::<char>::empty(), '\n') =~= Seq::<char>::empty());
            assert(""@ =~= Seq::<char>::empty()) by {
                reveal_strlit("");
            }
        }
        let ghost raw = preview@;
        if preview == ":".to_owned() {
            preview = String::new();
        }
        proof {
            assert(preview@ =~= spec_preview(last_message(g)));
        }
        // The unread count.
        let unread_badge = if self.click_column.contains_key(group.id.as_str()) || n == 0 || self.select_index == vm_index {
            None
        } else {
            let mut b = String::new();
            push_decimal(&mut b, if n > MAX_BADGE_COUNT { MAX_BADGE_COUNT } else { n });
            assert(b@ =~= decimal(min_int(n as int, MAX_BADGE_COUNT as int) as nat));
            Some(b)
        };
        let background = if self.select_index == vm_index {
            rgb_to_u32(226, 226, 226)
        } else {
            rgb_to_u32(255, 255, 255)
        };
        SidebarEntry {
            group: LeftSidebarMessageGroup { id: group.id.clone(), name, avatar },
            preview,
            unread_badge,
            time_label,
            background,
        }
    }
}

} // verus!
