//! The result shape of the file-picker collaborator. The picker itself and
//! the workbook reader are outside capabilities run by the embedding
//! program; this module only assembles their answers into one well-formed
//! value, never a partially populated one.

use vstd::prelude::*;
use vstd::string::StringExecFns;

verus! {

/// What one round with the file picker hands back: either the user
/// cancelled, or a path was chosen and the workbook's sheet names were
/// enumerated, or a path was chosen and reading the workbook failed.
#[derive(Debug, Clone, PartialEq, Eq)]
pub struct FileDialogResult {
    pub canceled: bool,
    pub file_path: Option<String>,
    pub sheet_names: Option<Vec<String>>,
    pub error: Option<String>,
}

/// The fixed prefix that marks a chosen workbook that could not be read.
pub open spec fn spec_workbook_prefix() -> Seq<char> {
    "could not read the workbook: "@
}

impl FileDialogResult {
    /// A dialog result is never partially populated: a cancelled round
    /// carries nothing at all, and a completed round carries the chosen path
    /// together with exactly one of the sheet names or an error.
    pub open spec fn well_formed(self) -> bool {
        if self.canceled {
            self.file_path is None && self.sheet_names is None && self.error is None
        } else {
            self.file_path is Some && (self.sheet_names is Some <==> self.error is None)
        }
    }
}

/// The result of a round the user cancelled: marked cancelled, with no path,
/// no sheet names and no error.
pub fn dialog_canceled() -> (r: FileDialogResult)
    ensures
        r.well_formed(),
        r.canceled,
        r.file_path is None,
        r.sheet_names is None,
        r.error is None,
{
    FileDialogResult { canceled: true, file_path: None, sheet_names: None, error: None }
}

/// The result of a completed round: the chosen path, and either the
/// enumerated sheet names or — when the workbook could not be read — an
/// error carrying the reader's description behind a fixed prefix.
pub fn dialog_completed(path: String, sheets: Result<Vec<String>, String>) -> (r: FileDialogResult)
    ensures
        r.well_formed(),
        !r.canceled,
        r.file_path == Some(path),
        sheets matches Ok(names) ==> r.sheet_names == Some(names) && r.error is None,
        sheets matches Err(detail) ==> r.sheet_names is None && (r.error matches Some(e)
            && e@ == spec_workbook_prefix() + detail@),
{
    match sheets {
        Ok(names) => FileDialogResult {
            canceled: false,
            file_path: Some(path),
            sheet_names: Some(names),
            error: None,
        },
        Err(detail) => FileDialogResult {
            canceled: false,
            file_path: Some(path),
            sheet_names: None,
            error: Some(
                String::from_str("could not read the workbook: ").concat(detail.as_str()),
            ),
        },
    }
}

} // verus!
