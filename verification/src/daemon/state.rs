//! The daemon's lifecycle states.

use vstd::prelude::*;

verus! {

/// Where the daemon stands in its life. `Connected` carries the number under
/// which the attached client session is known; at most one is attached.
#[derive(Debug, Clone, Copy, PartialEq, Eq, Structural)]
pub enum DaemonState {
    Startup,
    Connected(u64),
    Disconnected,
    Exit,
}

} // verus!
