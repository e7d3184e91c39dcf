//! The main window: which page it shows, and the maximise button.

use vstd::prelude::*;

use crate::component::rgb_to_u32;
use crate::state::EventBus;

verus! {

/// The pages of the main window.
pub enum HomePage {
    /// Icon 0: the conversations.
    Messages,
    /// Icon 1: the friends.
    Friends,
    /// Any other index: a placeholder.
    Placeholder,
}

/// What the maximise button asks of the window.
pub enum ZoomAction<B> {
    /// Zoom the window and resize it to the given bounds.
    ZoomTo(B),
    /// Leave the window as it is.
    Stay,
}

/// The main window's state: the index of the page shown, whether the window
/// is maximised, and the bounds to restore it to.
pub struct HomeView<B> {
    pub select_page: i32,
    pub is_maximized: bool,
    pub restore_bounds: Option<B>,
}

/// The page shown for an index.
pub open spec fn spec_shown_page(select_page: i32) -> HomePage {
    if select_page == 0 {
        HomePage::Messages
    } else if select_page == 1 {
        HomePage::Friends
    } else {
        HomePage::Placeholder
    }
}

impl<B: Copy> HomeView<B> {
    /// A window showing the conversations, not maximised.
    pub fn new() -> (h: Self)
        ensures
            h.select_page == 0,
            !h.is_maximized,
            h.restore_bounds is None,
    {
        HomeView { select_page: 0, is_maximized: false, restore_bounds: None }
    }

    /// The user clicked the icon at `index`.
    pub fn select_icon(&mut self, index: usize)
        ensures
            final(self).select_page == index as i32,
            final(self).is_maximized == old(self).is_maximized,
            final(self).restore_bounds == old(self).restore_bounds,
    {
        self.select_page = index as i32;
    }

    /// The page on display.
    pub fn shown_page(&self) -> (p: HomePage)
        ensures
            p == spec_shown_page(self.select_page),
    {
        if self.select_page == 0 {
            HomePage::Messages
        } else if self.select_page == 1 {
            HomePage::Friends
        } else {
            HomePage::Placeholder
        }
    }

    /// The background of the icon at `index`: blue when its page is shown,
    /// light grey otherwise.
    pub fn icon_background(&self, index: usize) -> (c: u32)
        ensures
            c == if self.select_page == index as i32 { 0x0099FFu32 } else { 0xF5F5F5u32 },
    {
        if self.select_page == index as i32 {
            rgb_to_u32(0, 153, 255)
        } else {
            rgb_to_u32(245, 245, 245)
        }
    }

    /// The background of the icon at `index` under the pointer: grey,
    /// except for the icon of the page shown, which keeps its own.
    pub fn icon_hover_background(&self, index: usize) -> (c: Option<u32>)
        ensures
            c == if self.select_page != index as i32 { Some(0xEBEBEBu32) } else { None::<u32> },
    {
        if self.select_page != index as i32 {
            Some(rgb_to_u32(235, 235, 235))
        } else {
            None
        }
    }

    /// An event on the application's bus: a child page asked to show the
    /// conversations.
    pub fn handle_event(&mut self, event: &EventBus)
        ensures
            match event {
                EventBus::ChildrenChangeSelectIndex => final(self).select_page == 0,
                _ => final(self).select_page == old(self).select_page,
            },
            final(self).is_maximized == old(self).is_maximized,
            final(self).restore_bounds == old(self).restore_bounds,
    {
        match event {
            EventBus::ChildrenChangeSelectIndex => {
                self.select_page = 0;
            },
            _ => {},
        }
    }

    /// The maximise button: a window that is not maximised remembers
    /// `current` and is zoomed to `usable`, the display's visible bounds,
    /// when the display is known; a maximised one is zoomed back to the
    /// bounds it remembered, if any.
    pub fn toggle_maximize(&mut self, current: B, usable: Option<B>) -> (a: ZoomAction<B>)
        ensures
            !old(self).is_maximized ==> final(self).is_maximized && final(self).restore_bounds
                == Some(current) && a == match usable {
                Some(u) => ZoomAction::ZoomTo(u),
                None => ZoomAction::<B>::Stay,
            },
            old(self).is_maximized ==> !final(self).is_maximized && final(self).restore_bounds
                == old(self).restore_bounds && a == match old(self).restore_bounds {
                Some(b) => ZoomAction::ZoomTo(b),
                None => ZoomAction::<B>::Stay,
            },
            final(self).select_page == old(self).select_page,
    {
        if !self.is_maximized {
            self.restore_bounds = Some(current);
            self.is_maximized = true;
            match usable {
                Some(u) => ZoomAction::ZoomTo(u),
                None => ZoomAction::Stay,
            }
        } else {
            self.is_maximized = false;
            match self.restore_bounds {
                Some(b) => ZoomAction::ZoomTo(b),
                None => ZoomAction::Stay,
            }
        }
    }
}

} // verus!
