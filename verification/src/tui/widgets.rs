//! The box that lists the keys.

use vstd::prelude::*;

verus! {

/// The box that lists the keys and what they do.
#[derive(Debug, Clone, Copy, PartialEq, Eq, Structural)]
pub struct Controls;

/// One piece of the instruction line: its text, and whether it names a key
/// and is to stand out.
#[derive(Debug, Clone, Copy, PartialEq, Eq)]
pub struct Label {
    pub text: &'static str,
    pub key: bool,
}

/// The instruction line, piece by piece.
pub open spec fn instruction() -> Seq<(Seq<char>, bool)> {
    seq![
        (" Activate current selection "@, false),
        ("<ENTER>"@, true),
        (" Navigation "@, false),
        ("<Arrowkeys>"@, true),
        (" Edit "@, false),
        ("<E>"@, true),
        (" Quit "@, false),
        ("<Q>"@, true),
        (" Unselect "@, false),
        ("<U> "@, true),
    ]
}

impl Controls {
    /// The title of the box.
    pub fn title() -> (text: &'static str)
        ensures
            text@ == "Controls"@,
    {
        "Controls"
    }

    /// The instruction line, piece by piece: what a key does, then the key.
    pub fn get_instruction() -> (line: Vec<Label>)
        ensures
            line@.len() == instruction().len(),
            forall|i: int|
                0 <= i < line@.len() ==> (#[trigger] line@[i]).text@ == instruction()[i].0
                    && line@[i].key == instruction()[i].1,
    {
        let mut line: Vec<Label> = Vec::new();
        line.push(Label { text: " Activate current selection ", key: false });
        line.push(Label { text: "<ENTER>", key: true });
        line.push(Label { text: " Navigation ", key: false });
        line.push(Label { text: "<Arrowkeys>", key: true });
        line.push(Label { text: " Edit ", key: false });
        line.push(Label { text: "<E>", key: true });
        line.push(Label { text: " Quit ", key: false });
        line.push(Label { text: "<Q>", key: true });
        line.push(Label { text: " Unselect ", key: false });
        line.push(Label { text: "<U> ", key: true });
        line
    }
}

} // verus!
