//! The presence service's side of the program.

use vstd::prelude::*;
use crate::error::Error;
use crate::text::{parse_i64, parsed_i64};

pub mod event_handler;

verus! {

/// The name of the variable that holds the client identifier.
pub const CLIENT_ID_VAR: &'static str = "CLIENT_ID";

/// The client identifier under which the presence service knows the program,
/// from what the variable `CLIENT_ID` holds, `None` where it is not set.
/// A variable that is not set and one that holds no 64-bit integer are both
/// errors, each of its own kind.
pub fn client_id(variable: Option<String>) -> (r: Result<i64, Error>)
    ensures
        r == (match variable {
            None => Err::<i64, Error>(Error::DotEnv),
            Some(text) => match parsed_i64(text@) {
                Some(id) => Ok(id),
                None => Err(Error::ParseInt),
            },
        }),
{
    match variable {
        None => Err(Error::DotEnv),
        Some(text) => match parse_i64(text.as_str()) {
            Some(id) => Ok(id),
            None => Err(Error::ParseInt),
        },
    }
}

} // verus!
