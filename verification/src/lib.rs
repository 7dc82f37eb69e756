//! Library core of a tray tool that parks a one-line note together with the
//! git working context it was written in.

pub mod model;
pub mod storage;
pub mod path_list;
pub mod git_context;
pub mod export;
pub mod notifier;
pub mod watcher;
pub mod commands;
pub mod tray;

use vstd::prelude::*;

verus! {

/// Managed flag that is set when the user chooses "Beenden" from the tray
/// menu, so that a request to exit can tell a real quit apart from the last
/// window being closed.
pub struct QuitRequested(pub std::sync::atomic::AtomicBool);

} // verus!
