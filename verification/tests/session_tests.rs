use md_view::loader::{LoadError, LoadResult};
use md_view::session::DocumentSession;

const PLACEHOLDER: &str = "# Welcome to md-view!\n\nThis is **bold text** and *italic text*.\n\n## Features\n- Open files from command line\n- Live preview\n- Powered by Rust \u{1f980}";

#[test]
fn initialize_yields_placeholder_and_no_path() {
    let session = DocumentSession::initialize();
    assert_eq!(session.current_buffer(), PLACEHOLDER);
    assert!(session.source_path().is_none());
}

#[test]
fn initialize_is_always_the_same() {
    let a = DocumentSession::initialize();
    let b = DocumentSession::initialize();
    assert_eq!(a.current_buffer(), b.current_buffer());
    assert!(a.source_path().is_none());
    assert!(b.source_path().is_none());
}

#[test]
fn edit_replaces_buffer_and_keeps_path_empty() {
    let mut session = DocumentSession::initialize();
    session.edit(String::from("draft one"));
    assert_eq!(session.current_buffer(), "draft one");
    assert!(session.source_path().is_none());
    session.edit(String::from(""));
    assert_eq!(session.current_buffer(), "");
    assert!(session.source_path().is_none());
}

#[test]
fn successful_load_replaces_buffer_and_path_together() {
    let mut session = DocumentSession::initialize();
    let outcome = LoadResult::Loaded {
        text: String::from("body"),
        path: String::from("doc.md"),
    };
    let err = session.apply_load(outcome);
    assert!(err.is_none());
    assert_eq!(session.current_buffer(), "body");
    assert_eq!(session.source_path().unwrap(), "doc.md");
}

#[test]
fn failed_load_changes_nothing_and_reports_reason() {
    let mut session = DocumentSession::initialize();
    let outcome = LoadResult::Failed {
        path: String::from("doc.md"),
        reason: LoadError::InvalidEncoding,
    };
    let err = session.apply_load(outcome);
    assert!(matches!(err, Some(LoadError::InvalidEncoding)));
    assert_eq!(session.current_buffer(), PLACEHOLDER);
    assert!(session.source_path().is_none());
}

#[test]
fn edits_after_load_keep_the_source_path() {
    let mut session = DocumentSession::initialize();
    let outcome = LoadResult::Loaded {
        text: String::from("first"),
        path: String::from("kept.md"),
    };
    assert!(session.apply_load(outcome).is_none());
    session.edit(String::from("second"));
    session.edit(String::from("third"));
    session.edit(String::from("fourth"));
    assert_eq!(session.current_buffer(), "fourth");
    assert_eq!(session.source_path().unwrap(), "kept.md");
}
