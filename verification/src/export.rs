//! Exporting all notes as JSON. The exporter is not written yet.

use std::path::PathBuf;
use vstd::prelude::*;

verus! {

/// `std::path::PathBuf`; opaque here.
#[verifier::external_type_specification]
#[verifier::external_body]
pub struct ExPathBuf(PathBuf);

/// Errors of the export module.
#[derive(Debug, PartialEq, Eq, Structural)]
pub enum ExportError {
    NotImplemented,
}

/// The text that the export error shows to a user.
pub open spec fn export_error_text(e: ExportError) -> Seq<char> {
    match e {
        ExportError::NotImplemented => "export module not implemented yet"@,
    }
}

impl ExportError {
    /// The human-readable message of this error.
    pub fn to_string(&self) -> (s: String)
        ensures
            s@ == export_error_text(*self),
    {
        match self {
            ExportError::NotImplemented => String::from_str("export module not implemented yet"),
        }
    }
}

/// Exports all notes as JSON (file written with 0600 permissions) and
/// returns the path of the file.
pub fn export_all_notes() -> (r: Result<PathBuf, ExportError>)
    ensures
        r == Err::<PathBuf, ExportError>(ExportError::NotImplemented),
{
    Err(ExportError::NotImplemented)
}

/// `Path::to_string_lossy`: the path as text, with what is not UTF-8
/// replaced. Nothing is claimed of the text, as a `PathBuf` is opaque here.
#[verifier::external_body]
pub(crate) fn path_text(path: &PathBuf) -> (s: String) {
    path.to_string_lossy().into_owned()
}

} // verus!
