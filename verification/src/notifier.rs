//! Desktop notifications. The notifier is not written yet; the functions
//! that show notifications need the application handle and live with it.

use vstd::prelude::*;

verus! {

/// Errors of the notifier module.
#[derive(Debug, PartialEq, Eq, Structural)]
pub enum NotifyError {
    NotImplemented,
}

/// The text that the notifier error shows to a user.
pub open spec fn notify_error_text(e: NotifyError) -> Seq<char> {
    match e {
        NotifyError::NotImplemented => "notifier module not implemented yet"@,
    }
}

impl NotifyError {
    /// The human-readable message of this error.
    pub fn to_string(&self) -> (s: String)
        ensures
            s@ == notify_error_text(*self),
    {
        match self {
            NotifyError::NotImplemented => String::from_str("notifier module not implemented yet"),
        }
    }
}

} // verus!
