//! The one error a query can end with.

use vstd::prelude::*;

verus! {

/// A remote operation failed. Whatever went wrong, all that is kept of it is
/// the description of the cause, which is also what the error views as.
#[derive(Debug, PartialEq, Eq)]
pub struct Error {
    message: String,
}

impl View for Error {
    type V = Seq<char>;

    closed spec fn view(&self) -> Seq<char> {
        self.message@
    }
}

impl Error {
    /// An error that carries `message` as the description of its cause.
    pub fn new(message: String) -> (error: Error)
        ensures
            error@ == message@,
    {
        Error { message }
    }

    /// The description of the cause.
    pub fn message(&self) -> (message: &str)
        ensures
            message@ == self@,
    {
        self.message.as_str()
    }

    /// The error rendered for display: the description of the cause, with
    /// nothing added.
    pub fn to_string(&self) -> (rendered: String)
        ensures
            rendered@ == self@,
    {
        self.message.clone()
    }
}

impl Clone for Error {
    fn clone(&self) -> (copy: Error)
        ensures
            copy@ == self@,
    {
        Error { message: self.message.clone() }
    }
}

} // verus!
