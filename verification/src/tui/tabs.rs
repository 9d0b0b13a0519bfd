//! The tabs of the tabbed screen.

use vstd::prelude::*;

verus! {

/// The tabs, left to right.
#[derive(Debug, Clone, Copy, PartialEq, Eq, Structural)]
pub enum Tabs {
    Selecting,
    Adding,
    Editing,
}

impl Default for Tabs {
    fn default() -> (tab: Tabs)
        ensures
            tab == Tabs::Selecting,
    {
        Tabs::Selecting
    }
}

impl Tabs {
    /// The place of the tab, from the left and from 0.
    pub open spec fn index(self) -> nat {
        match self {
            Tabs::Selecting => 0,
            Tabs::Adding => 1,
            Tabs::Editing => 2,
        }
    }

    /// The tab at a place, if there is one.
    pub open spec fn at(index: nat) -> Option<Tabs> {
        if index == 0 {
            Some(Tabs::Selecting)
        } else if index == 1 {
            Some(Tabs::Adding)
        } else if index == 2 {
            Some(Tabs::Editing)
        } else {
            None
        }
    }

    /// The tab's title.
    pub open spec fn title(self) -> Seq<char> {
        match self {
            Tabs::Selecting => "Selecting"@,
            Tabs::Adding => "Add"@,
            Tabs::Editing => "Edit"@,
        }
    }

    /// The place of the tab, from the left and from 0.
    pub fn to_repr(self) -> (index: usize)
        ensures
            index == self.index(),
    {
        match self {
            Tabs::Selecting => 0,
            Tabs::Adding => 1,
            Tabs::Editing => 2,
        }
    }

    /// The tab at a place, if there is one.
    pub fn from_repr(index: usize) -> (tab: Option<Tabs>)
        ensures
            tab == Tabs::at(index as nat),
    {
        if index == 0 {
            Some(Tabs::Selecting)
        } else if index == 1 {
            Some(Tabs::Adding)
        } else if index == 2 {
            Some(Tabs::Editing)
        } else {
            None
        }
    }

    /// The tab's title.
    pub fn to_string(&self) -> (text: String)
        ensures
            text@ == self.title(),
    {
        match self {
            Tabs::Selecting => "Selecting".to_owned(),
            Tabs::Adding => "Add".to_owned(),
            Tabs::Editing => "Edit".to_owned(),
        }
    }

    /// The tab to the left, or this one where it is the leftmost.
    pub fn previous(self) -> (tab: Tabs)
        ensures
            tab.index() == if self.index() == 0 {
                0
            } else {
                self.index() - 1
            },
    {
        let current_index: usize = self.to_repr();
        let previous_index: usize = current_index.saturating_sub(1);
        match Tabs::from_repr(previous_index) {
            Some(tab) => tab,
            None => self,
        }
    }

    /// The tab to the right, or this one where it is the rightmost.
    pub fn next(self) -> (tab: Tabs)
        ensures
            tab.index() == if self.index() == 2 {
                2
            } else {
                self.index() + 1
            },
    {
        let current_index: usize = self.to_repr();
        let next_index: usize = current_index.saturating_add(1);
        match Tabs::from_repr(next_index) {
            Some(tab) => tab,
            None => self,
        }
    }
}

/// A tab is found again at its place, and only three places hold a tab.
pub proof fn law_tabs_have_places(tab: Tabs, index: nat)
    ensures
        Tabs::at(tab.index()) == Some(tab),
        Tabs::at(index) is Some <==> index < 3,
        Tabs::at(index) matches Some(t) ==> t.index() == index,
{
}

} // verus!
