//! Decisions of the project commands: where a project's start file lives
//! under the note directory, whether creating or opening it is allowed,
//! and which entry the interactive picker hands back.
//!
//! These functions only decide and build paths; testing the filesystem,
//! creating files and launching the editor stay with the caller, which
//! reports the relevant facts (does the path exist, which entry was
//! picked) as plain values.

use vstd::prelude::*;
use vstd::string::*;

use crate::error::NoteError;

verus! {

/// The file that creating a project writes: `<note_dir>/projects/<name>/.start.md`.
pub open spec fn project_create_path(note_dir: Seq<char>, name: Seq<char>) -> Seq<char> {
    note_dir + "/projects/"@ + name + "/.start.md"@
}

/// The file that opening a project edits: `<note_dir>/projects/<name>/start.md`.
pub open spec fn project_open_path(note_dir: Seq<char>, name: Seq<char>) -> Seq<char> {
    note_dir + "/projects/"@ + name + "/start.md"@
}

/// Builds the path of the start file a fresh project is created with.
pub fn project_create_file(note_dir: &str, project_name: &str) -> (r: String)
    ensures
        r@ == project_create_path(note_dir@, project_name@),
{
    let mut path = String::from_str(note_dir);
    path.append("/projects/");
    path.append(project_name);
    path.append("/.start.md");
    path
}

/// Builds the path of the start file an existing project is opened at.
pub fn project_open_file(note_dir: &str, project_name: &str) -> (r: String)
    ensures
        r@ == project_open_path(note_dir@, project_name@),
{
    let mut path = String::from_str(note_dir);
    path.append("/projects/");
    path.append(project_name);
    path.append("/start.md");
    path
}

/// Decides the creation of a project whose start-file path is already
/// present or not: a present path is refused, an absent one yields the
/// path to provision and fill.
pub fn create(project_name: &str, note_dir: &str, already_present: bool) -> (r: Result<
    String,
    NoteError,
>)
    ensures
        already_present ==> r == Err::<String, NoteError>(NoteError::AlreadyExists),
        !already_present ==> r is Ok && r->Ok_0@ == project_create_path(note_dir@, project_name@),
{
    if already_present {
        Err(NoteError::AlreadyExists)
    } else {
        Ok(project_create_file(note_dir, project_name))
    }
}

/// Decides the opening of a project whose start-file path is already
/// present or not: a present path yields the path to open in the editor,
/// an absent one is reported as not found.
pub fn open(project_name: &str, note_dir: &str, already_present: bool) -> (r: Result<
    String,
    NoteError,
>)
    ensures
        already_present ==> r is Ok && r->Ok_0@ == project_open_path(note_dir@, project_name@),
        !already_present ==> r == Err::<String, NoteError>(NoteError::NotFound),
{
    if already_present {
        Ok(project_open_file(note_dir, project_name))
    } else {
        Err(NoteError::NotFound)
    }
}

/// Resolves the interactive picker's choice among the found projects,
/// each a pair of start-file path and display name: no project at all is
/// an error of its own, a choice out of range is a failed selection, and
/// otherwise the chosen entry's path is returned.
pub fn interactive_selecion(projects: &Vec<(String, String)>, choice: usize) -> (r: Result<
    String,
    NoteError,
>)
    ensures
        projects@.len() == 0 ==> r == Err::<String, NoteError>(NoteError::NoProjects),
        projects@.len() > 0 && choice < projects@.len() ==> r is Ok && r->Ok_0@
            == projects@[choice as int].0@,
        projects@.len() > 0 && choice >= projects@.len() ==> r == Err::<String, NoteError>(
            NoteError::SelectionFailure,
        ),
{
    if projects.len() == 0 {
        Err(NoteError::NoProjects)
    } else if choice < projects.len() {
        Ok(projects[choice].0.clone())
    } else {
        Err(NoteError::SelectionFailure)
    }
}

} // verus!
