//! Database abstraction: what the application shell sees of a password
//! database, independent of the container format behind it.

use vstd::prelude::*;

verus! {

/// Database-level error: a plain description.
#[derive(Debug)]
pub struct Error {
    pub desc: String,
}

/// What the application can handle as the password database.
pub trait PasswordDatabase {
    /// Internal consistency of the database value.
    spec fn wf(&self) -> bool;

    /// The entry count the database answers with.
    spec fn spec_entry_count(&self) -> u32;

    /// Number of password entries held.
    fn get_entry_count(&self) -> (n: u32)
        requires
            self.wf(),
        ensures
            n == self.spec_entry_count(),
    ;
}

} // verus!
