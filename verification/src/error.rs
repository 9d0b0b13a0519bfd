//! Failures of the presence service and of the game list's storage.

use vstd::prelude::*;

verus! {

/// Which side of the game list's file format failed.
#[derive(Debug, Clone, Copy, PartialEq, Eq, Structural)]
pub enum Toml {
    Serialize,
    Deserialize,
}

/// A failure outside the daemon's own rules, by origin.
#[derive(Debug, Clone, Copy, PartialEq, Eq, Structural)]
pub enum Error {
    DotEnv,
    ParseInt,
    DiscordGameSdk,
    StdIo,
    Var,
    Toml(Toml),
}

} // verus!
