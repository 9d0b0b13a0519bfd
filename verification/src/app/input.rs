//! The field of the entry form that takes the keys.

use vstd::prelude::*;

verus! {

/// The field of the form that takes the keys.
#[derive(Debug, PartialEq, PartialOrd, Ord, Eq, Clone, Copy, Hash, Structural)]
pub enum Selection {
    Name,
    Platform,
    LargeImageKey,
    LargeImageTooltip,
    SmallImageKey,
    SmallImageTooltip,
}

impl Default for Selection {
    fn default() -> (selection: Selection)
        ensures
            selection == Selection::Name,
    {
        Selection::Name
    }
}

impl Selection {
    /// The field below, and the first after the last.
    pub open spec fn below(self) -> Selection {
        match self {
            Selection::Name => Selection::Platform,
            Selection::Platform => Selection::LargeImageKey,
            Selection::LargeImageKey => Selection::LargeImageTooltip,
            Selection::LargeImageTooltip => Selection::SmallImageKey,
            Selection::SmallImageKey => Selection::SmallImageTooltip,
            Selection::SmallImageTooltip => Selection::Name,
        }
    }

    /// The field above, and the last before the first.
    pub open spec fn above(self) -> Selection {
        match self {
            Selection::Name => Selection::SmallImageTooltip,
            Selection::Platform => Selection::Name,
            Selection::LargeImageKey => Selection::Platform,
            Selection::LargeImageTooltip => Selection::LargeImageKey,
            Selection::SmallImageKey => Selection::LargeImageTooltip,
            Selection::SmallImageTooltip => Selection::SmallImageKey,
        }
    }

    /// The field below this one; `self` stays as it is.
    pub fn next(&mut self) -> (selection: Selection)
        ensures
            selection == old(self).below(),
            *final(self) == *old(self),
    {
        match self {
            Selection::Name => Selection::Platform,
            Selection::Platform => Selection::LargeImageKey,
            Selection::LargeImageKey => Selection::LargeImageTooltip,
            Selection::LargeImageTooltip => Selection::SmallImageKey,
            Selection::SmallImageKey => Selection::SmallImageTooltip,
            Selection::SmallImageTooltip => Selection::Name,
        }
    }

    /// The field above this one; `self` stays as it is.
    pub fn previous(&mut self) -> (selection: Selection)
        ensures
            selection == old(self).above(),
            *final(self) == *old(self),
    {
        match self {
            Selection::Name => Selection::SmallImageTooltip,
            Selection::Platform => Selection::Name,
            Selection::LargeImageKey => Selection::Platform,
            Selection::LargeImageTooltip => Selection::LargeImageKey,
            Selection::SmallImageKey => Selection::LargeImageTooltip,
            Selection::SmallImageTooltip => Selection::SmallImageKey,
        }
    }
}

/// Going down and then up, or up and then down, ends where it began, and six
/// steps down lead around the form.
pub proof fn law_selection_cycles(s: Selection)
    ensures
        s.below().above() == s,
        s.above().below() == s,
        s.below().below().below().below().below().below() == s,
{
}

} // verus!
