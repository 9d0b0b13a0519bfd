//! Why a daemon failed to start.

use vstd::prelude::*;
use crate::error::Error;

verus! {

/// The errors that end a daemon's start. `StdIo` carries the operating
/// system's error number, 0 where it gave none.
#[derive(Debug, Clone, Copy, PartialEq, Eq, Structural)]
pub enum DaemonError {
    CoreError(Error),
    StdIo(i32),
    DaemonAlreadyActiv,
}

impl From<Error> for DaemonError {
    fn from(cause: Error) -> (e: DaemonError)
        ensures
            e == DaemonError::CoreError(cause),
    {
        DaemonError::CoreError(cause)
    }
}

impl vstd::std_specs::convert::FromSpecImpl<Error> for DaemonError {
    open spec fn obeys_from_spec() -> bool {
        true
    }

    open spec fn from_spec(cause: Error) -> DaemonError {
        DaemonError::CoreError(cause)
    }
}

impl DaemonError {
    /// The text shown to the user for this error.
    pub open spec fn message(self) -> Seq<char> {
        match self {
            DaemonError::CoreError(_) => "The presence service failed"@,
            DaemonError::StdIo(_) => "An input or output operation failed"@,
            DaemonError::DaemonAlreadyActiv => "Another daemon is already running"@,
        }
    }

    pub fn to_string(&self) -> (text: String)
        ensures
            text@ == self.message(),
    {
        match self {
            DaemonError::CoreError(_) => "The presence service failed".to_owned(),
            DaemonError::StdIo(_) => "An input or output operation failed".to_owned(),
            DaemonError::DaemonAlreadyActiv => "Another daemon is already running".to_owned(),
        }
    }
}

} // verus!
