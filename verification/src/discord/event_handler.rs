//! The receiver of what the presence service reports.

use vstd::prelude::*;

verus! {

/// The receiver of the presence service's events. It keeps nothing: every
/// event is written to the log and otherwise passed over.
#[derive(Debug, Clone, Copy, PartialEq, Eq, Structural)]
pub struct EventHandler;

impl Default for EventHandler {
    fn default() -> (handler: EventHandler)
        ensures
            handler == EventHandler,
    {
        EventHandler
    }
}

} // verus!
