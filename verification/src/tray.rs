//! Decisions of the tray application: what a tray menu entry does, and
//! whether a request to exit is honoured.

use crate::path_list::{compare_text, TextOrder};
use vstd::prelude::*;

verus! {

/// What the tray menu asks for.
#[derive(Debug, PartialEq, Eq, Structural, Clone, Copy)]
pub enum MenuAction {
    /// "Eingabe öffnen": open the input window.
    OpenInput,
    /// "Liste öffnen": open the note list.
    OpenList,
    /// "Exportieren": export all notes.
    Export,
    /// "Beenden": quit the application.
    Quit,
    /// An unknown entry: do nothing.
    Ignore,
}

/// The action of the tray menu entry with id `id`.
pub open spec fn menu_action_of(id: Seq<char>) -> MenuAction {
    if id == "open_input"@ {
        MenuAction::OpenInput
    } else if id == "open_list"@ {
        MenuAction::OpenList
    } else if id == "export"@ {
        MenuAction::Export
    } else if id == "quit"@ {
        MenuAction::Quit
    } else {
        MenuAction::Ignore
    }
}

/// Maps the id of a tray menu entry to what it does.
pub fn menu_action(id: &str) -> (a: MenuAction)
    ensures
        a == menu_action_of(id@),
{
    if compare_text(id, "open_input") == TextOrder::Same {
        MenuAction::OpenInput
    } else if compare_text(id, "open_list") == TextOrder::Same {
        MenuAction::OpenList
    } else if compare_text(id, "export") == TextOrder::Same {
        MenuAction::Export
    } else if compare_text(id, "quit") == TextOrder::Same {
        MenuAction::Quit
    } else {
        MenuAction::Ignore
    }
}

/// Whether a request to exit must be prevented. `quit_requested` is the
/// quit flag, where the application state holds one. The application exits
/// only when the user chose "Beenden"; closing the last window keeps it in
/// the tray.
pub fn prevent_exit(quit_requested: Option<bool>) -> (prevent: bool)
    ensures
        prevent == (quit_requested != Some(true)),
{
    let quitting = match quit_requested {
        Some(q) => q,
        None => false,
    };
    !quitting
}

} // verus!
