//! Where the program keeps its data.

use vstd::prelude::*;

verus! {

/// Why a variable of the environment could not be read.
#[derive(Debug, Clone, PartialEq, Eq)]
pub enum VarError {
    /// The variable is not set.
    NotPresent,
    /// The variable holds what is no valid text.
    NotUnicode,
}

/// The program's configuration.
#[derive(Debug)]
pub struct Config {
    database_url: String,
}

impl View for Config {
    type V = Seq<char>;

    closed spec fn view(&self) -> Seq<char> {
        self.database_url@
    }
}

impl Config {
    /// The name of the variable that overrides the place of the data.
    pub const DATABASE_URL_VAR: &'static str = "CONSOLE_PLAYER_DATABASE_URL";

    /// The place of the data.
    pub fn database_url(&self) -> (url: &str)
        ensures
            url@ == self@,
    {
        self.database_url.as_str()
    }

    /// The configuration, from what the environment holds: `data_dir` is the
    /// project's data directory, `None` where the system names no home, and
    /// `variable` is what reading the override gave.
    ///
    /// Without a data directory there is no configuration, whatever the
    /// variable holds. The variable wins over the directory, which stands in
    /// only where the variable is not set; a variable that cannot be read as
    /// text is an error.
    pub fn from_env(data_dir: Option<String>, variable: Result<String, VarError>) -> (r: Result<
        Config,
        VarError,
    >)
        ensures
            match (data_dir, variable) {
                (None, _) => r == Err::<Config, VarError>(VarError::NotPresent),
                (Some(dir), Ok(url)) => r matches Ok(config) && config@ == url@,
                (Some(dir), Err(VarError::NotPresent)) => r matches Ok(config) && config@ == dir@,
                (Some(dir), Err(VarError::NotUnicode)) => r == Err::<Config, VarError>(
                    VarError::NotUnicode,
                ),
            },
    {
        let project_dir = match data_dir {
            Some(dir) => dir,
            None => {
                return Err(VarError::NotPresent);
            },
        };
        let database_url = match variable {
            Ok(url) => url,
            Err(VarError::NotPresent) => project_dir,
            Err(e) => {
                return Err(e);
            },
        };
        Ok(Config { database_url })
    }
}

} // verus!
