use tailmirror::actions::{MirrorAction, MirrorError};
use tailmirror::events::{resolve_rename, CreateKind, EventKind, ModifyKind, RemoveKind, RenameMode};
use tailmirror::router::{handle_create, handle_event, handle_modify, handle_remove, record_copied, update_file_contents};
use tailmirror::state::MirrorState;

fn state_with(path: &str, len: u64) -> MirrorState {
    let mut st = MirrorState::new();
    st.insert(path.to_string(), len);
    st
}

#[test]
fn create_file_tracks_from_zero() {
    let mut st = MirrorState::new();
    let acts = handle_create(&mut st, &"new.txt".to_string(), CreateKind::File);
    assert_eq!(acts.len(), 1);
    match &acts[0] {
        MirrorAction::CreateFile { path } => assert_eq!(path, "new.txt"),
        other => panic!("expected CreateFile, got {:?}", other),
    }
    assert_eq!(st.get(&"new.txt".to_string()), Some(0));
}

#[test]
fn create_folder_touches_no_entry() {
    let mut st = MirrorState::new();
    let acts = handle_create(&mut st, &"sub".to_string(), CreateKind::Folder);
    assert_eq!(acts.len(), 1);
    assert!(matches!(&acts[0], MirrorAction::EnsureDir { path } if path == "sub"));
    assert_eq!(st.get(&"sub".to_string()), None);
}

#[test]
fn growth_copies_exact_tail() {
    let mut st = state_with("log.txt", 100);
    let acts = update_file_contents(&mut st, &"log.txt".to_string(), Some(150));
    assert_eq!(acts.len(), 1);
    match &acts[0] {
        MirrorAction::CopyTail { path, offset, count } => {
            assert_eq!(path, "log.txt");
            assert_eq!(*offset, 100);
            assert_eq!(*count, 50);
        },
        other => panic!("expected CopyTail, got {:?}", other),
    }
    // The recorded length advances only by what was actually appended.
    assert_eq!(st.get(&"log.txt".to_string()), Some(100));
    assert_eq!(record_copied(&mut st, &"log.txt".to_string(), 50), Ok(()));
    assert_eq!(st.get(&"log.txt".to_string()), Some(150));
}

#[test]
fn short_read_advances_only_by_bytes_obtained() {
    let mut st = state_with("log.txt", 100);
    let acts = update_file_contents(&mut st, &"log.txt".to_string(), Some(200));
    assert!(matches!(&acts[0], MirrorAction::CopyTail { offset: 100, count: 100, .. }));
    // The file shrank mid-read: only 30 bytes came back before end-of-file.
    assert_eq!(record_copied(&mut st, &"log.txt".to_string(), 30), Ok(()));
    assert_eq!(st.get(&"log.txt".to_string()), Some(130));
}

#[test]
fn truncation_lowers_length_and_copies_nothing() {
    let mut st = state_with("log.txt", 100);
    let acts = update_file_contents(&mut st, &"log.txt".to_string(), Some(40));
    assert!(acts.is_empty());
    assert_eq!(st.get(&"log.txt".to_string()), Some(40));
}

#[test]
fn vanished_source_is_benign_noop() {
    let mut st = state_with("log.txt", 100);
    let acts = update_file_contents(&mut st, &"log.txt".to_string(), None);
    assert!(acts.is_empty());
    assert_eq!(st.get(&"log.txt".to_string()), Some(100));
}

#[test]
fn untracked_data_change_creates_then_copies_in_full() {
    let mut st = MirrorState::new();
    let acts = update_file_contents(&mut st, &"fresh.txt".to_string(), Some(20));
    assert_eq!(acts.len(), 2);
    assert!(matches!(&acts[0], MirrorAction::CreateFile { path } if path == "fresh.txt"));
    assert!(matches!(&acts[1], MirrorAction::CopyTail { offset: 0, count: 20, .. }));
    assert_eq!(st.get(&"fresh.txt".to_string()), Some(0));
}

#[test]
fn remove_clears_state_and_asks_for_deletion() {
    let mut st = state_with("old.txt", 7);
    let r = handle_remove(&mut st, &"old.txt".to_string(), RemoveKind::File);
    let acts = r.expect("tracked removal succeeds");
    assert_eq!(acts.len(), 1);
    assert!(matches!(&acts[0], MirrorAction::RemoveFile { path } if path == "old.txt"));
    assert_eq!(st.get(&"old.txt".to_string()), None);
}

#[test]
fn remove_untracked_is_surfaced() {
    let mut st = MirrorState::new();
    let r = handle_remove(&mut st, &"ghostly.txt".to_string(), RemoveKind::File);
    assert_eq!(r.unwrap_err(), MirrorError::NotTracked);
}

#[test]
fn remove_folder_touches_no_entry() {
    let mut st = state_with("keep.txt", 3);
    let r = handle_remove(&mut st, &"sub".to_string(), RemoveKind::Folder);
    let acts = r.unwrap();
    assert!(matches!(&acts[0], MirrorAction::RemoveDir { path } if path == "sub"));
    assert_eq!(st.get(&"keep.txt".to_string()), Some(3));
}

#[test]
fn two_path_rename_moves_entry_and_file() {
    let mut st = state_with("a", 7);
    st.insert("other".to_string(), 9);
    let paths = vec!["a".to_string(), "b".to_string()];
    let r = handle_modify(&mut st, &paths, ModifyKind::Name(RenameMode::Both), None);
    let acts = r.expect("rename of a tracked file succeeds");
    assert_eq!(acts.len(), 1);
    match &acts[0] {
        MirrorAction::Rename { from, to } => {
            assert_eq!(from, "a");
            assert_eq!(to, "b");
        },
        other => panic!("expected Rename, got {:?}", other),
    }
    assert_eq!(st.get(&"a".to_string()), None);
    assert_eq!(st.get(&"b".to_string()), Some(7));
    assert_eq!(st.get(&"other".to_string()), Some(9));
}

#[test]
fn ambiguous_rename_with_existing_source_is_move_in() {
    let mut st = MirrorState::new();
    let paths = vec!["moved.txt".to_string()];
    let r = handle_modify(&mut st, &paths, ModifyKind::Name(RenameMode::Any), Some(5));
    let acts = r.unwrap();
    assert!(matches!(&acts[0], MirrorAction::CreateFile { path } if path == "moved.txt"));
    assert_eq!(st.get(&"moved.txt".to_string()), Some(0));
}

#[test]
fn ambiguous_rename_with_missing_source_is_move_out() {
    let mut st = state_with("gone.txt", 11);
    let paths = vec!["gone.txt".to_string()];
    let r = handle_modify(&mut st, &paths, ModifyKind::Name(RenameMode::Any), None);
    let acts = r.unwrap();
    assert!(matches!(&acts[0], MirrorAction::RemoveFile { path } if path == "gone.txt"));
    assert_eq!(st.get(&"gone.txt".to_string()), None);
}

#[test]
fn rename_resolution() {
    assert_eq!(resolve_rename(RenameMode::Any, 2, false), RenameMode::Both);
    assert_eq!(resolve_rename(RenameMode::Any, 1, true), RenameMode::To);
    assert_eq!(resolve_rename(RenameMode::Any, 1, false), RenameMode::From);
    assert_eq!(resolve_rename(RenameMode::To, 1, false), RenameMode::To);
    assert_eq!(resolve_rename(RenameMode::From, 2, true), RenameMode::From);
    assert_eq!(resolve_rename(RenameMode::Both, 2, false), RenameMode::Both);
}

#[test]
fn missing_paths_are_surfaced() {
    let mut st = MirrorState::new();
    let none: Vec<String> = Vec::new();
    let r = handle_modify(&mut st, &none, ModifyKind::Data, Some(1));
    assert_eq!(r.unwrap_err(), MirrorError::MissingPath);
    let r = handle_event(&mut st, EventKind::Create(CreateKind::File), &none, None);
    assert_eq!(r.unwrap_err(), MirrorError::MissingPath);
    let r = handle_event(&mut st, EventKind::Remove(RemoveKind::File), &none, None);
    assert_eq!(r.unwrap_err(), MirrorError::MissingPath);
    let one = vec!["a".to_string()];
    let r = handle_modify(&mut st, &one, ModifyKind::Name(RenameMode::Both), None);
    assert_eq!(r.unwrap_err(), MirrorError::MissingPath);
}

#[test]
fn unrecognized_kinds_are_explicit_noops() {
    let mut st = state_with("keep.txt", 3);
    let paths = vec!["keep.txt".to_string()];
    for (kind, len) in [
        (EventKind::Other, None),
        (EventKind::Create(CreateKind::Other), None),
        (EventKind::Modify(ModifyKind::Other), Some(9)),
        (EventKind::Modify(ModifyKind::Name(RenameMode::Other)), Some(9)),
        (EventKind::Remove(RemoveKind::Other), None),
    ] {
        let r = handle_event(&mut st, kind, &paths, len);
        assert!(r.unwrap().is_empty());
        assert_eq!(st.get(&"keep.txt".to_string()), Some(3));
    }
}

#[test]
fn event_dispatch_matches_handlers() {
    let mut st = MirrorState::new();
    let paths = vec!["x.bin".to_string()];
    let r = handle_event(&mut st, EventKind::Create(CreateKind::File), &paths, None);
    assert_eq!(r.unwrap().len(), 1);
    assert_eq!(st.get(&"x.bin".to_string()), Some(0));
    let r = handle_event(&mut st, EventKind::Modify(ModifyKind::Data), &paths, Some(8));
    let acts = r.unwrap();
    assert!(matches!(&acts[0], MirrorAction::CopyTail { offset: 0, count: 8, .. }));
    assert_eq!(record_copied(&mut st, &"x.bin".to_string(), 8), Ok(()));
    let r = handle_event(&mut st, EventKind::Remove(RemoveKind::File), &paths, None);
    assert_eq!(r.unwrap().len(), 1);
    assert_eq!(st.get(&"x.bin".to_string()), None);
}

#[test]
fn record_copied_on_untracked_is_surfaced() {
    let mut st = MirrorState::new();
    let r = record_copied(&mut st, &"nowhere".to_string(), 4);
    assert_eq!(r.unwrap_err(), MirrorError::NotTracked);
}
