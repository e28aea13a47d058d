//! Decision of the quick-note command: where a quick note lives under the
//! note directory and whether it must be created before it is opened.

use vstd::prelude::*;
use vstd::string::*;

verus! {

/// What the caller must do with the note file before opening it.
#[derive(Clone, Copy, Debug, PartialEq, Eq, Structural)]
pub enum FileDisposition {
    /// The file is already there: just open it in the editor.
    OpenExisting,
    /// The file is missing: provision its directories, create it, then
    /// open it.
    CreateThenOpen,
}

/// A quick note's file: `<note_dir>/quick-notes/<name>.md`.
pub open spec fn quick_note_path(note_dir: Seq<char>, name: Seq<char>) -> Seq<char> {
    note_dir + "/quick-notes/"@ + name + ".md"@
}

/// Decides what to do with a note file from whether its path is already
/// present: an existing file is only opened, a missing one is created
/// first. The diary entries follow the same rule.
pub fn file_disposition(already_present: bool) -> (r: FileDisposition)
    ensures
        already_present ==> r == FileDisposition::OpenExisting,
        !already_present ==> r == FileDisposition::CreateThenOpen,
{
    if already_present {
        FileDisposition::OpenExisting
    } else {
        FileDisposition::CreateThenOpen
    }
}

/// Decides the quick-note command: builds the note's path and, from
/// whether that path is already present, whether the file must be created
/// first or only opened.
pub fn quick_note(note_name: &str, note_dir: &str, already_present: bool) -> (r: (
    String,
    FileDisposition,
))
    ensures
        r.0@ == quick_note_path(note_dir@, note_name@),
        already_present ==> r.1 == FileDisposition::OpenExisting,
        !already_present ==> r.1 == FileDisposition::CreateThenOpen,
{
    let mut path = String::from_str(note_dir);
    path.append("/quick-notes/");
    path.append(note_name);
    path.append(".md");
    (path, file_disposition(already_present))
}

} // verus!
