//! Error helper: the application-level error value and the marker trait for
//! errors that collaborators convert into it.

use vstd::prelude::*;

use vstd::string::StringExecFns;

verus! {

/// Application-level error: a plain description.
#[derive(Debug)]
pub struct Error {
    desc: String,
}

impl View for Error {
    type V = Seq<char>;

    closed spec fn view(&self) -> Seq<char> {
        self.desc@
    }
}

impl Error {
    pub fn new(desc: &str) -> (r: Error)
        ensures
            r@ == desc@,
    {
        Error { desc: String::from_str(desc) }
    }

    /// The description this error carries.
    pub fn description(&self) -> (r: &str)
        ensures
            r@ == self@,
    {
        self.desc.as_str()
    }
}

/// Marker for error types that may be turned into [`Error`].
pub trait ErrorChain {

}

impl ErrorChain for crate::parser::Error {

}

impl ErrorChain for crate::api::Error {

}

} // verus!
