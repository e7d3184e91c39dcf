//! A navigation list of numbered items.

use vstd::prelude::*;

pub use crate::component::rgb_to_u32;
use crate::text::{decimal, push_decimal};

verus! {

/// The list's state: its item labels and the item last right-clicked.
pub struct LeftNav {
    pub items: Vec<String>,
    pub select_id: String,
}

/// The label of item `i`: `Item ` and its number.
pub open spec fn item_label(i: nat) -> Seq<char> {
    "Item "@ + decimal(i)
}

impl LeftNav {
    /// An empty list.
    pub fn new() -> (n: Self)
        ensures
            n.items@.len() == 0,
            n.select_id@ == Seq::<char>::empty(),
    {
        LeftNav { items: Vec::new(), select_id: String::new() }
    }

    /// Fills the list with `count` items labelled `Item 0`, `Item 1`, ...
    pub fn fill_items(&mut self, count: usize)
        ensures
            final(self).items@.len() == count,
            forall|i: int| 0 <= i < count ==> #[trigger] final(self).items@[i]@ == item_label(i as nat),
            final(self).select_id == old(self).select_id,
    {
        let mut items: Vec<String> = Vec::new();
        let mut i: usize = 0;
        while i < count
            invariant
                i <= count,
                items@.len() == i,
                forall|j: int| 0 <= j < i ==> #[trigger] items@[j]@ == item_label(j as nat),
            decreases count - i,
        {
            let mut label = "Item ".to_owned();
            push_decimal(&mut label, i);
            items.push(label);
            i = i + 1;
        }
        self.items = items;
    }

    /// Remembers the item the user right-clicked, by its number.
    pub fn select_item(&mut self, ix: usize)
        ensures
            final(self).select_id@ == decimal(ix as nat),
            final(self).items == old(self).items,
    {
        let mut s = String::new();
        push_decimal(&mut s, ix);
        assert(s@ =~= decimal(ix as nat));
        self.select_id = s;
    }
}

} // verus!
