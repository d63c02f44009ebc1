//! Shared application model types.

use vstd::prelude::*;

verus! {

/// Application configuration.
#[derive(Debug)]
pub struct Config {
    /// Path of the database file opened last, if any.
    pub last_file: Option<String>,
}

impl Default for Config {
    fn default() -> (c: Config)
        ensures
            c.last_file is None,
    {
        Config { last_file: None }
    }
}

} // verus!
