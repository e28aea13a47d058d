use grom::project::{create, interactive_selecion, open, project_create_file, project_open_file};
use grom::quick_note::{file_disposition, quick_note, FileDisposition};
use grom::NoteError;

#[test]
fn create_path_is_under_projects() {
    let path = project_create_file("/home/me/notes", "alpha");
    assert_eq!(path, "/home/me/notes/projects/alpha/.start.md");
}

#[test]
fn open_path_is_under_projects() {
    let path = project_open_file("/home/me/notes", "alpha");
    assert_eq!(path, "/home/me/notes/projects/alpha/start.md");
}

#[test]
fn create_new_project_yields_its_start_file() {
    let r = create("alpha", "/notes", false);
    assert_eq!(r, Ok(String::from("/notes/projects/alpha/.start.md")));
}

#[test]
fn create_existing_project_is_refused() {
    let r = create("alpha", "/notes", true);
    assert_eq!(r, Err(NoteError::AlreadyExists));
}

#[test]
fn open_existing_project_yields_its_start_file() {
    let r = open("alpha", "/notes", true);
    assert_eq!(r, Ok(String::from("/notes/projects/alpha/start.md")));
}

#[test]
fn open_missing_project_is_not_found() {
    let r = open("alpha", "/notes", false);
    assert_eq!(r, Err(NoteError::NotFound));
}

#[test]
fn quick_note_path_and_creation() {
    let (path, disposition) = quick_note("idea", "/notes", false);
    assert_eq!(path, "/notes/quick-notes/idea.md");
    assert_eq!(disposition, FileDisposition::CreateThenOpen);
}

#[test]
fn quick_note_existing_is_only_opened() {
    let (path, disposition) = quick_note("idea", "/notes", true);
    assert_eq!(path, "/notes/quick-notes/idea.md");
    assert_eq!(disposition, FileDisposition::OpenExisting);
}

#[test]
fn disposition_creates_only_when_absent() {
    assert_eq!(file_disposition(true), FileDisposition::OpenExisting);
    assert_eq!(file_disposition(false), FileDisposition::CreateThenOpen);
}

#[test]
fn selection_with_no_projects_is_an_error() {
    let projects: Vec<(String, String)> = Vec::new();
    let r = interactive_selecion(&projects, 0);
    assert_eq!(r, Err(NoteError::NoProjects));
}

#[test]
fn selection_returns_the_chosen_path() {
    let projects = vec![
        (String::from("/notes/projects/alpha/start.md"), String::from("alpha")),
        (String::from("/notes/projects/beta/start.md"), String::from("beta")),
    ];
    let r = interactive_selecion(&projects, 1);
    assert_eq!(r, Ok(String::from("/notes/projects/beta/start.md")));
}

#[test]
fn selection_out_of_range_fails() {
    let projects = vec![(String::from("/notes/projects/alpha/start.md"), String::from("alpha"))];
    let r = interactive_selecion(&projects, 3);
    assert_eq!(r, Err(NoteError::SelectionFailure));
}
