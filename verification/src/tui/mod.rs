//! The terminal screens: tabs, the entry form and the state they are in.

use vstd::prelude::*;
use crate::tui::data::Data;
use crate::tui::state::State;
use crate::tui::tabs::Tabs;

pub mod cursor;
pub mod data;
pub mod field;
pub mod input;
pub mod key;
pub mod state;
pub mod tabs;
pub mod widgets;

verus! {

/// The tabbed screen: the tab in front, what the screen is doing, and the
/// data it shows.
#[derive(Debug)]
pub struct Tui {
    pub selected_tab: Tabs,
    pub state: State,
    pub data: Data,
}

impl Tui {
    /// The screen before it has reached the presence service, with the first
    /// tab in front.
    pub fn new(data: Data) -> (tui: Tui)
        ensures
            tui.selected_tab == Tabs::Selecting,
            tui.state is NotConnected,
            tui.data == data,
    {
        Tui { selected_tab: Tabs::Selecting, state: State::NotConnected, data }
    }
}

} // verus!
