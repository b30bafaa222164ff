//! The errors that the library's own checks raise.

use vstd::prelude::*;

verus! {

/// What went wrong, with the message that is shown to the user.
#[derive(Clone, Debug, PartialEq, Eq)]
pub enum Error {
    /// What the user typed cannot be used.
    Invalid(String),
    /// What the user asked about does not exist.
    NotFound(String),
}

impl Error {
    /// The message as a sequence of characters.
    pub open spec fn text(self) -> Seq<char> {
        match self {
            Error::Invalid(message) => message@,
            Error::NotFound(message) => message@,
        }
    }

    /// The message that is shown to the user, for either variant.
    pub fn message(&self) -> (message: String)
        ensures
            message@ == self.text(),
    {
        match self {
            Error::Invalid(message) => message.clone(),
            Error::NotFound(message) => message.clone(),
        }
    }
}

} // verus!
