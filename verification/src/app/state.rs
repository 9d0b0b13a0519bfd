//! The states of the list screen.

use vstd::prelude::*;
use crate::tui::input::{Input, InputView};

verus! {

/// What the list screen is doing: a game is being picked, changed or added.
#[derive(Debug)]
pub enum State {
    Selection,
    Editing(Input),
    Adding(Input),
}

/// A [`State`] with its form as text.
pub enum StateView {
    Selection,
    Editing(InputView),
    Adding(InputView),
}

impl View for State {
    type V = StateView;

    open spec fn view(&self) -> StateView {
        match *self {
            State::Selection => StateView::Selection,
            State::Editing(form) => StateView::Editing(form@),
            State::Adding(form) => StateView::Adding(form@),
        }
    }
}

impl Default for State {
    fn default() -> (state: State)
        ensures
            state is Selection,
    {
        State::Selection
    }
}

impl PartialEq for State {
    fn eq(&self, other: &Self) -> (equal: bool) {
        match (self, other) {
            (State::Selection, State::Selection) => true,
            (State::Editing(a), State::Editing(b)) => a == b,
            (State::Adding(a), State::Adding(b)) => a == b,
            _ => false,
        }
    }
}

impl vstd::std_specs::cmp::PartialEqSpecImpl for State {
    open spec fn obeys_eq_spec() -> bool {
        true
    }

    open spec fn eq_spec(&self, other: &Self) -> bool {
        self@ == other@
    }
}

impl State {
    /// Whether a new game is being entered.
    pub fn is_adding(&self) -> (yes: bool)
        ensures
            yes <==> *self is Adding,
    {
        match self {
            State::Selection => false,
            State::Editing(_) => false,
            State::Adding(_) => true,
        }
    }

    /// Whether a game is being picked from the list.
    pub fn is_selecting(&self) -> (yes: bool)
        ensures
            yes <==> *self is Selection,
    {
        match self {
            State::Selection => true,
            State::Editing(_) => false,
            State::Adding(_) => false,
        }
    }

    /// Whether a game of the list is being changed.
    pub fn is_editing(&self) -> (yes: bool)
        ensures
            yes <==> *self is Editing,
    {
        match self {
            State::Selection => false,
            State::Editing(_) => true,
            State::Adding(_) => false,
        }
    }
}

} // verus!
