//! Watching repositories for branch switches. The watcher is not written
//! yet; starting it needs the application handle and lives with it.

use vstd::prelude::*;

verus! {

/// Errors of the watcher module.
#[derive(Debug, PartialEq, Eq, Structural)]
pub enum WatcherError {
    NotImplemented,
}

/// The text that the watcher error shows to a user.
pub open spec fn watcher_error_text(e: WatcherError) -> Seq<char> {
    match e {
        WatcherError::NotImplemented => "watcher module not implemented yet"@,
    }
}

impl WatcherError {
    /// The human-readable message of this error.
    pub fn to_string(&self) -> (s: String)
        ensures
            s@ == watcher_error_text(*self),
    {
        match self {
            WatcherError::NotImplemented => String::from_str("watcher module not implemented yet"),
        }
    }
}

} // verus!
