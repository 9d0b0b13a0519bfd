//! The states of the tabbed screen.

use vstd::prelude::*;
use crate::tui::input::{Input, InputView};

verus! {

/// What the tabbed screen is doing.
#[derive(Debug)]
pub enum State {
    NotConnected,
    Selection,
    Adding(Input),
    Editing(Input),
    Quiting,
}

/// A [`State`] with its form as text.
pub enum StateView {
    NotConnected,
    Selection,
    Adding(InputView),
    Editing(InputView),
    Quiting,
}

impl View for State {
    type V = StateView;

    open spec fn view(&self) -> StateView {
        match *self {
            State::NotConnected => StateView::NotConnected,
            State::Selection => StateView::Selection,
            State::Adding(form) => StateView::Adding(form@),
            State::Editing(form) => StateView::Editing(form@),
            State::Quiting => StateView::Quiting,
        }
    }
}

impl State {
    /// True in `NotConnected`, false in every other state.
    pub fn is_not_connected(&self) -> (yes: bool)
        ensures
            yes <==> *self is NotConnected,
    {
        match self {
            State::NotConnected => true,
            State::Selection => false,
            State::Editing(_) => false,
            State::Adding(_) => false,
            State::Quiting => false,
        }
    }

    /// True in `Selection`, the state from which a game is added; false in
    /// every other state.
    pub fn is_adding(&self) -> (yes: bool)
        ensures
            yes <==> *self is Selection,
    {
        match self {
            State::NotConnected => false,
            State::Selection => true,
            State::Editing(_) => false,
            State::Adding(_) => false,
            State::Quiting => false,
        }
    }

    /// True in `Editing`, where a game of the list is selected for change;
    /// false in every other state.
    pub fn is_selecting(&self) -> (yes: bool)
        ensures
            yes <==> *self is Editing,
    {
        match self {
            State::NotConnected => false,
            State::Selection => false,
            State::Editing(_) => true,
            State::Adding(_) => false,
            State::Quiting => false,
        }
    }

    /// True in `Adding`, where the form of a new game is edited; false in
    /// every other state.
    pub fn is_editing(&self) -> (yes: bool)
        ensures
            yes <==> *self is Adding,
    {
        match self {
            State::NotConnected => false,
            State::Selection => false,
            State::Editing(_) => false,
            State::Adding(_) => true,
            State::Quiting => false,
        }
    }

    /// True in `Quiting`, false in every other state.
    pub fn is_quiting(&self) -> (yes: bool)
        ensures
            yes <==> *self is Quiting,
    {
        match self {
            State::NotConnected => false,
            State::Selection => false,
            State::Editing(_) => false,
            State::Adding(_) => false,
            State::Quiting => true,
        }
    }
}

} // verus!
