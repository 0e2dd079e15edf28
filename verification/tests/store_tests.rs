use minnote::dialog::DialogEvent;
use minnote::errors::NoteError;
use minnote::store::NoteStore;

fn store_with(sidecar: Option<&str>, data_dir: Option<&str>) -> NoteStore {
    NoteStore::new(
        sidecar.map(|s| s.to_string()),
        data_dir.map(|s| s.to_string()),
    )
}

#[test]
fn save_then_load_round_trips() {
    let mut store = store_with(Some("/tmp/mynotes"), None);
    assert_eq!(store.save_note("a/b.txt", "hello"), Ok(()));
    assert_eq!(store.load_note(Some("a/b.txt")), Ok("hello".to_string()));
}

#[test]
fn sidecar_override_scenario() {
    // A sidecar holding "/tmp/mynotes" routes the note to
    // /tmp/mynotes/a/b.txt, and the same content comes back.
    let mut store = store_with(Some("/tmp/mynotes"), Some("/home/user/.local/share"));
    assert_eq!(store.get_notes_directory(), Ok("/tmp/mynotes".to_string()));
    assert_eq!(
        minnote::paths::join_path("/tmp/mynotes", "a/b.txt"),
        "/tmp/mynotes/a/b.txt"
    );
    assert_eq!(store.save_note("a/b.txt", "hello"), Ok(()));
    assert_eq!(store.load_note(Some("a/b.txt")), Ok("hello".to_string()));
}

#[test]
fn default_root_scenario() {
    let store = store_with(None, Some("/home/user/.local/share"));
    assert_eq!(
        store.get_notes_directory(),
        Ok("/home/user/.local/share/minnote".to_string())
    );
}

#[test]
fn load_without_path_is_empty_and_never_fails() {
    let empty = store_with(None, None);
    assert_eq!(empty.load_note(None), Ok(String::new()));
    let configured = store_with(Some("/tmp/mynotes"), Some("/data"));
    assert_eq!(configured.load_note(None), Ok(String::new()));
}

#[test]
fn load_of_missing_note_reports_io_error() {
    let store = store_with(Some("/tmp/mynotes"), None);
    assert_eq!(store.load_note(Some("absent.txt")), Err(NoteError::IoError));
}

#[test]
fn save_twice_is_idempotent() {
    let mut store = store_with(Some("/tmp/mynotes"), None);
    assert_eq!(store.save_note("a/b.txt", "hello"), Ok(()));
    assert_eq!(store.save_note("a/b.txt", "hello"), Ok(()));
    assert_eq!(store.load_note(Some("a/b.txt")), Ok("hello".to_string()));
}

#[test]
fn save_overwrites_in_full() {
    let mut store = store_with(Some("/tmp/mynotes"), None);
    assert_eq!(store.save_note("n.txt", "first"), Ok(()));
    assert_eq!(store.save_note("n.txt", "second"), Ok(()));
    assert_eq!(store.load_note(Some("n.txt")), Ok("second".to_string()));
}

#[test]
fn save_without_any_root_is_a_configuration_error() {
    let mut store = store_with(None, None);
    assert_eq!(
        store.save_note("a.txt", "x"),
        Err(NoteError::ConfigurationError)
    );
    assert_eq!(
        store.load_note(Some("a.txt")),
        Err(NoteError::ConfigurationError)
    );
}

#[test]
fn persist_then_resolve_returns_the_persisted_root() {
    let mut store = store_with(None, Some("/data"));
    store.persist_notes_root("/srv/notes");
    assert_eq!(store.get_notes_directory(), Ok("/srv/notes".to_string()));
}

#[test]
fn changing_the_root_hides_notes_saved_under_the_old_root() {
    let mut store = store_with(Some("/tmp/old"), None);
    assert_eq!(store.save_note("a.txt", "x"), Ok(()));
    store.persist_notes_root("/tmp/new");
    assert_eq!(store.load_note(Some("a.txt")), Err(NoteError::IoError));
}

#[test]
fn selecting_a_directory_persists_it() {
    let mut store = store_with(None, Some("/data"));
    let picked = store.select_notes_directory(DialogEvent::Selected("/srv/chosen".to_string()));
    assert_eq!(picked, Ok("/srv/chosen".to_string()));
    assert_eq!(store.get_notes_directory(), Ok("/srv/chosen".to_string()));
}

#[test]
fn dismissing_the_directory_picker_changes_nothing() {
    let mut store = store_with(Some("/tmp/kept"), None);
    assert_eq!(
        store.select_notes_directory(DialogEvent::Dismissed),
        Err(NoteError::Cancelled)
    );
    assert_eq!(store.get_notes_directory(), Ok("/tmp/kept".to_string()));
}

#[test]
fn closed_directory_picker_reports_dialog_error() {
    let mut store = store_with(Some("/tmp/kept"), None);
    assert_eq!(
        store.select_notes_directory(DialogEvent::Closed),
        Err(NoteError::DialogError)
    );
    assert_eq!(store.get_notes_directory(), Ok("/tmp/kept".to_string()));
}
