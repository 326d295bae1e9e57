//! The errors that the operations on objects hand back to the calling script.

use vstd::prelude::*;

verus! {

/// Why an operation on an object was refused.
#[derive(Clone, Copy, Debug, PartialEq, Eq)]
pub enum Error {
    /// The object is an internal dispatch-list holder, which scripts cannot
    /// construct.
    NotConstructible,
    /// The object is an internal dispatch-list holder, which scripts cannot
    /// subclass.
    NotSubclassable,
    /// The object holds no dispatch list, so it can take no listeners.
    NotEventTarget,
    /// The object's dispatch list is borrowed in a way that excludes the
    /// access asked for. This is a broken invariant of the caller, not a
    /// condition to recover from: the operation was not begun, and the
    /// caller is to stop at this point.
    BorrowViolation,
}

impl Error {
    /// The text of the error.
    pub open spec fn text(self) -> Seq<char> {
        match self {
            Error::NotConstructible => "Cannot construct internal event dispatcher structures."@,
            Error::NotSubclassable => "Cannot subclass internal event dispatcher structures."@,
            Error::NotEventTarget => "The object holds no event dispatch list."@,
            Error::BorrowViolation => "The event dispatch list is already borrowed."@,
        }
    }

    /// The text of the error, as the script sees it.
    pub fn message(&self) -> (message: String)
        ensures
            message@ == self.text(),
    {
        match self {
            Error::NotConstructible => String::from_str(
                "Cannot construct internal event dispatcher structures.",
            ),
            Error::NotSubclassable => String::from_str(
                "Cannot subclass internal event dispatcher structures.",
            ),
            Error::NotEventTarget => String::from_str("The object holds no event dispatch list."),
            Error::BorrowViolation => String::from_str(
                "The event dispatch list is already borrowed.",
            ),
        }
    }
}

} // verus!
