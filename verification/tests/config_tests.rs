use minnote::config::{default_notes_dir, resolve_notes_root, sidecar_file_name};
use minnote::errors::NoteError;
use minnote::paths::join_path;
use minnote::platform::{default_notes_dir_live, resolve_notes_root_live};
use minnote::text::trim;

#[test]
fn trimmed_sidecar_text_wins_over_the_platform_default() {
    assert_eq!(
        resolve_notes_root(Some("  /tmp/mynotes \n"), Some("/data")),
        Ok("/tmp/mynotes".to_string())
    );
}

#[test]
fn absent_sidecar_falls_back_to_the_platform_default() {
    assert_eq!(
        resolve_notes_root(None, Some("/home/user/.local/share")),
        Ok("/home/user/.local/share/minnote".to_string())
    );
}

#[test]
fn blank_sidecar_counts_as_no_override() {
    assert_eq!(
        resolve_notes_root(Some("   \n\t"), Some("/data")),
        Ok("/data/minnote".to_string())
    );
    assert_eq!(resolve_notes_root(Some(""), Some("/data")), Ok("/data/minnote".to_string()));
}

#[test]
fn no_sidecar_and_no_platform_directory_is_a_configuration_error() {
    assert_eq!(resolve_notes_root(None, None), Err(NoteError::ConfigurationError));
    assert_eq!(resolve_notes_root(Some("  "), None), Err(NoteError::ConfigurationError));
}

#[test]
fn sidecar_override_needs_no_platform_directory() {
    assert_eq!(resolve_notes_root(Some("/tmp/x"), None), Ok("/tmp/x".to_string()));
}

#[test]
fn default_directory_joins_the_fixed_subfolder() {
    assert_eq!(default_notes_dir(Some("/data")), Ok("/data/minnote".to_string()));
    assert_eq!(default_notes_dir(None), Err(NoteError::ConfigurationError));
}

#[test]
fn join_inserts_exactly_one_separator() {
    assert_eq!(join_path("/root", "a.txt"), "/root/a.txt");
    assert_eq!(join_path("/root/", "a.txt"), "/root/a.txt");
    assert_eq!(join_path("/root", "a/b.txt"), "/root/a/b.txt");
}

#[test]
fn trim_strips_only_surrounding_whitespace() {
    assert_eq!(trim("  a b \t\r\n"), "a b");
    assert_eq!(trim(""), "");
    assert_eq!(trim(" \n "), "");
    assert_eq!(trim("x"), "x");
}

#[test]
fn sidecar_file_name_is_fixed() {
    assert_eq!(sidecar_file_name(), "notes_dir.txt");
}

#[test]
fn live_resolution_honours_a_configured_override() {
    // The platform is consulted only when no override is configured, so
    // this holds whatever environment the test runs in.
    assert_eq!(
        resolve_notes_root_live(Some(" /tmp/live ")),
        Ok("/tmp/live".to_string())
    );
}

#[test]
fn live_default_comes_from_the_platform_not_the_arguments() {
    // On this platform a data directory normally exists; whenever one
    // does, the default root must end in the fixed subfolder.
    match default_notes_dir_live() {
        Ok(dir) => assert!(dir.ends_with("/minnote")),
        Err(e) => assert_eq!(e, NoteError::ConfigurationError),
    }
    match resolve_notes_root_live(None) {
        Ok(dir) => assert!(dir.ends_with("/minnote")),
        Err(e) => assert_eq!(e, NoteError::ConfigurationError),
    }
}
