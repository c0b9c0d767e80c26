//! The selectable menu tabs of the front-end.

use vstd::prelude::*;

verus! {

/// The menu tabs, in display order.
#[derive(Copy, Clone, Debug)]
pub enum MenuTabs {
    Queue,
    Directories,
    Artists,
    Albums,
    Playlists,
    Search,
}

/// Position of each tab in the tab bar.
pub open spec fn tab_index(t: MenuTabs) -> usize {
    match t {
        MenuTabs::Queue => 0,
        MenuTabs::Directories => 1,
        MenuTabs::Artists => 2,
        MenuTabs::Albums => 3,
        MenuTabs::Playlists => 4,
        MenuTabs::Search => 5,
    }
}

impl From<MenuTabs> for usize {
    /// The tab's position in the tab bar.
    fn from(input: MenuTabs) -> usize {
        match input {
            MenuTabs::Queue => 0,
            MenuTabs::Directories => 1,
            MenuTabs::Artists => 2,
            MenuTabs::Albums => 3,
            MenuTabs::Playlists => 4,
            MenuTabs::Search => 5,
        }
    }
}

impl vstd::std_specs::convert::FromSpecImpl<MenuTabs> for usize {
    open spec fn obeys_from_spec() -> bool {
        true
    }

    open spec fn from_spec(t: MenuTabs) -> usize {
        tab_index(t)
    }
}

} // verus!
