//! One line of editable text, kept by the `tui_input` crate.

use vstd::prelude::*;
use crate::tui::key::{edits, key_of};

verus! {

/// `tui_input::StateChanged`, which says whether an event changed a field's
/// text or cursor. It is carried through and never read.
#[verifier::external_type_specification]
#[verifier::external_body]
pub struct ExStateChanged(tui_input::StateChanged);

/// A line of text under edit: the text, the cursor and what was last cut,
/// all kept by `tui_input::Input`. Nothing of its inside is visible to the
/// proofs; what they know of a field is what the functions below state.
#[verifier::external_body]
#[derive(Debug)]
pub struct Field {
    inner: tui_input::Input,
}

/// The text that a field holds.
pub uninterp spec fn field_text(field: Field) -> Seq<char>;

/// The column of a field's cursor, counted in terminal cells from the start
/// of the text.
pub uninterp spec fn cursor_column(field: Field) -> usize;

/// The column from which a field's text is shown so that the cursor stays
/// inside `width` cells.
pub uninterp spec fn scroll_column(field: Field, width: usize) -> usize;

impl View for Field {
    type V = Seq<char>;

    open spec fn view(&self) -> Seq<char> {
        field_text(*self)
    }
}

impl Field {
    /// Trusted: `tui_input::Input::new`, which keeps `value` as the field's
    /// text and puts the cursor behind it.
    #[verifier::external_body]
    pub(crate) fn new(value: String) -> (field: Field)
        ensures
            field_text(field) == value@,
    {
        Field { inner: tui_input::Input::new(value) }
    }

    /// Trusted: `tui_input::Input::default`, a field with no text.
    #[verifier::external_body]
    pub(crate) fn empty() -> (field: Field)
        ensures
            field_text(field) == Seq::<char>::empty(),
    {
        Field { inner: tui_input::Input::default() }
    }

    /// Trusted: `tui_input::Input::value`, the field's text.
    #[verifier::external_body]
    pub(crate) fn value<'a>(&'a self) -> (value: &'a str)
        ensures
            value@ == field_text(*self),
    {
        self.inner.value()
    }

    /// Trusted: `tui_input::Input::visual_cursor`, the cursor's column in
    /// terminal cells, which depends on the text and the cursor alone.
    #[verifier::external_body]
    pub(crate) fn visual_cursor(&self) -> (column: usize)
        ensures
            column == cursor_column(*self),
    {
        self.inner.visual_cursor()
    }

    /// Trusted: `tui_input::Input::visual_scroll`, the first column to show
    /// in a window of `width` cells, which depends on the text, the cursor and
    /// `width` alone.
    #[verifier::external_body]
    pub(crate) fn visual_scroll(&self, width: usize) -> (column: usize)
        ensures
            column == scroll_column(*self, width),
    {
        self.inner.visual_scroll(width)
    }

    /// Trusted: `tui_input`'s `handle_event` for crossterm events, which
    /// edits the text or moves the cursor as the event asks. It turns the
    /// event into a request first, and makes none of an event that is no key
    /// event, nor of Up, Down, PageUp, PageDown, Enter, Esc, Tab or BackTab,
    /// whatever the modifiers: the field then stays as it is. Of any other
    /// event nothing is claimed.
    #[verifier::external_body]
    pub(crate) fn handle_event(&mut self, evt: &ratatui::crossterm::event::Event) -> (changed:
        Option<tui_input::StateChanged>)
        ensures
            !edits(key_of(*evt)) ==> *final(self) == *old(self),
    {
        tui_input::backend::crossterm::EventHandler::handle_event(&mut self.inner, evt)
    }
}

} // verus!
