use linux_coworker_ui::platform::millis_since_epoch;
use linux_coworker_ui::storage::{Storage, StorageError, Workspace};
use std::path::Path;

/// A store rooted in a scratch folder, and an existing folder to use as a
/// workspace path.
fn open_store() -> (Storage, &'static str, &'static str) {
    let root = "/tmp/linux-coworker-ui-store";
    let target = "/tmp";
    (Storage::open(root), root, target)
}

fn create(storage: &mut Storage, name: &str, path: &str) -> Result<Workspace, StorageError> {
    let is_dir = Path::new(path).is_dir();
    storage.create_workspace(name, path, is_dir)
}

#[test]
fn open_starts_empty() {
    let (storage, _root, _target) = open_store();
    assert!(storage.list_workspaces().is_empty());
    assert_eq!(storage.read_active_id(), None);
}

#[test]
fn create_persists_and_reads_back() {
    let (mut storage, root, target) = open_store();
    let ws = create(&mut storage, "my-app", target).expect("create");
    assert_eq!(ws.name, "my-app");
    assert_eq!(ws.path, target.to_string());

    // Reopen the store from what it holds and confirm persistence.
    let reopened = Storage::restore(root, storage.list_workspaces(), storage.read_active_id());
    let list = reopened.list_workspaces();
    assert_eq!(list.len(), 1);
    assert_eq!(list[0].id, ws.id);
    assert_eq!(
        reopened.conversations_dir(&ws.id),
        format!("{root}/workspaces/{}/conversations", ws.id)
    );
}

#[test]
fn create_rejects_duplicate_name_case_insensitive() {
    let (mut storage, _root, target) = open_store();
    create(&mut storage, "my-app", target).unwrap();
    let err = create(&mut storage, "MY-APP", target).unwrap_err().message();
    assert!(err.contains("already exists"), "got: {err}");
}

#[test]
fn create_rejects_missing_path() {
    let (mut storage, _root, _target) = open_store();
    let bogus = "/does/not/exist/anywhere/i/hope";
    let err = create(&mut storage, "ws", bogus).unwrap_err().message();
    assert!(err.contains("does not exist"), "got: {err}");
}

#[test]
fn create_rejects_relative_path() {
    let (mut storage, _root, _target) = open_store();
    let err = create(&mut storage, "ws", "relative/path").unwrap_err().message();
    assert!(err.contains("absolute"), "got: {err}");
}

#[test]
fn create_rejects_empty_name() {
    let (mut storage, _root, target) = open_store();
    let err = create(&mut storage, "   ", target).unwrap_err().message();
    assert!(err.contains("empty"), "got: {err}");
}

#[test]
fn create_trims_the_name_and_stamps_the_workspace() {
    let (mut storage, _root, target) = open_store();
    let ws = storage.create_workspace_with("  spaced  ", target, true, "id-1".to_string(), 42).unwrap();
    assert_eq!(ws.name, "spaced");
    assert_eq!(ws.id, "id-1");
    assert_eq!(ws.last_used_at, 42);
}

#[test]
fn create_gives_a_hyphenated_uuid() {
    let (mut storage, _root, target) = open_store();
    let ws = create(&mut storage, "ws", target).unwrap();
    assert_eq!(ws.id.len(), 36);
    let hyphens: Vec<usize> = ws.id.match_indices('-').map(|(i, _)| i).collect();
    assert_eq!(hyphens, vec![8, 13, 18, 23]);
    let chars: Vec<char> = ws.id.chars().collect();
    assert_eq!(chars[14], '4');
    assert!("89ab".contains(chars[19]));
    assert!(ws.id.chars().all(|c| c == '-' || c.is_ascii_digit() || ('a'..='f').contains(&c)));
}

#[test]
fn error_messages_quote_the_offending_value() {
    let (mut storage, _root, target) = open_store();
    let err = create(&mut storage, "ws", "rel\"ative").unwrap_err().message();
    assert_eq!(err, "workspace path must be absolute: \"rel\\\"ative\"");
    create(&mut storage, "a", target).unwrap();
    let err = create(&mut storage, "A", target).unwrap_err().message();
    assert_eq!(err, "a workspace named \"A\" already exists");
    let err = create(&mut storage, "b", "/does/not/exist").unwrap_err().message();
    assert_eq!(err, "workspace path does not exist or is not a directory: \"/does/not/exist\"");
    // control characters are escaped the way a debug listing escapes them
    let odd = "rel\tpath\u{7}\u{9f}";
    let err = create(&mut storage, "c", odd).unwrap_err().message();
    assert_eq!(err, format!("workspace path must be absolute: {:?}", Path::new(odd)));
    assert_eq!(err, "workspace path must be absolute: \"rel\\tpath\\u{7}\\u{9f}\"");
}

#[test]
fn rename_updates_name_in_place() {
    let (mut storage, _root, target) = open_store();
    let ws = create(&mut storage, "old", target).unwrap();
    let renamed = storage.rename_workspace(&ws.id, "new").unwrap();
    assert_eq!(renamed.name, "new");
    assert_eq!(storage.list_workspaces()[0].name, "new");
}

#[test]
fn rename_rejects_collision() {
    let (mut storage, _root, target) = open_store();
    let a = create(&mut storage, "a", target).unwrap();
    create(&mut storage, "b", target).unwrap();
    let err = storage.rename_workspace(&a.id, "B").unwrap_err().message();
    assert!(err.contains("already exists"), "got: {err}");
}

#[test]
fn rename_allows_renaming_to_same_name() {
    // Renaming a workspace to its current name shouldn't collide with itself.
    let (mut storage, _root, target) = open_store();
    let ws = create(&mut storage, "same", target).unwrap();
    let renamed = storage.rename_workspace(&ws.id, "same").unwrap();
    assert_eq!(renamed.name, "same");
}

#[test]
fn rename_unknown_id_errors() {
    let (mut storage, _root, _target) = open_store();
    let err = storage.rename_workspace("nope", "x").unwrap_err().message();
    assert!(err.contains("not found"), "got: {err}");
    assert_eq!(err, "workspace nope not found");
}

#[test]
fn rename_rejects_blank_name() {
    let (mut storage, _root, target) = open_store();
    let ws = create(&mut storage, "a", target).unwrap();
    let err = storage.rename_workspace(&ws.id, " \t ").unwrap_err().message();
    assert_eq!(err, "workspace name cannot be empty");
    assert_eq!(storage.list_workspaces()[0].name, "a");
}

#[test]
fn delete_removes_entry_and_folder() {
    let (mut storage, _root, target) = open_store();
    let ws = create(&mut storage, "ws", target).unwrap();
    let new_active = storage.delete_workspace(&ws.id).unwrap();
    assert!(storage.list_workspaces().is_empty());
    // Workspace was never set active, so no fallback.
    assert_eq!(new_active, None);
}

#[test]
fn delete_unknown_id_errors() {
    let (mut storage, _root, _target) = open_store();
    let err = storage.delete_workspace("nope").unwrap_err().message();
    assert!(err.contains("not found"), "got: {err}");
}

#[test]
fn get_active_returns_none_when_unset() {
    let (mut storage, _root, _target) = open_store();
    assert!(storage.get_active_workspace().is_none());
}

#[test]
fn set_active_persists_and_returns_workspace() {
    let (mut storage, root, target) = open_store();
    let ws = create(&mut storage, "ws", target).unwrap();
    let active = storage.set_active_workspace(&ws.id).unwrap();
    assert_eq!(active.id, ws.id);
    // Persistence across reopen.
    let mut reopened = Storage::restore(root, storage.list_workspaces(), storage.read_active_id());
    assert_eq!(reopened.get_active_workspace().map(|w| w.id), Some(ws.id));
}

#[test]
fn set_active_bumps_last_used_at_to_newer_value() {
    let (mut storage, _root, target) = open_store();
    let ws = create(&mut storage, "ws", target).unwrap();
    let original = ws.last_used_at;
    let active = storage.set_active_workspace(&ws.id).unwrap();
    assert!(
        active.last_used_at >= original,
        "expected last_used_at to be bumped: {} >= {}",
        active.last_used_at,
        original
    );
}

#[test]
fn set_active_at_stamps_the_given_time() {
    let (mut storage, _root, target) = open_store();
    let ws = storage.create_workspace_with("ws", target, true, "w".to_string(), 5).unwrap();
    let active = storage.set_active_workspace_at(&ws.id, 99).unwrap();
    assert_eq!(active.last_used_at, 99);
    assert_eq!(storage.list_workspaces()[0].last_used_at, 99);
    assert_eq!(storage.read_active_id(), Some("w".to_string()));
}

#[test]
fn set_active_unknown_id_errors() {
    let (mut storage, _root, _target) = open_store();
    let err = storage.set_active_workspace("nope").unwrap_err().message();
    assert!(err.contains("not found"), "got: {err}");
}

#[test]
fn get_active_clears_stale_id_when_workspace_disappeared() {
    let (mut storage, _root, target) = open_store();
    let ws = create(&mut storage, "ws", target).unwrap();
    storage.set_active_workspace(&ws.id).unwrap();
    // Tamper: write a bogus active id manually.
    storage.write_active_id(Some("nonexistent-id"));
    // get_active sees the mismatch and clears it.
    assert!(storage.get_active_workspace().is_none());
    // After the clear, the stored active_id is None.
    assert_eq!(storage.read_active_id(), None);
}

#[test]
fn delete_active_falls_back_to_most_recently_used() {
    let (mut storage, _root, target) = open_store();
    let a = create(&mut storage, "a", target).unwrap();
    let b = create(&mut storage, "b", target).unwrap();
    // Make `a` more recently used than `b`.
    storage.set_active_workspace(&a.id).unwrap();
    // Now active=a, last_used: a >= b. Delete the currently-active a;
    // expect fallback to b (the only remaining).
    let new_active = storage.delete_workspace(&a.id).unwrap();
    assert_eq!(new_active, Some(b.id.clone()));
    assert_eq!(storage.get_active_workspace().map(|w| w.id), Some(b.id));
}

#[test]
fn delete_active_picks_the_latest_among_several() {
    let (mut storage, _root, target) = open_store();
    storage.create_workspace_with("a", target, true, "a".to_string(), 10).unwrap();
    storage.create_workspace_with("b", target, true, "b".to_string(), 30).unwrap();
    storage.create_workspace_with("c", target, true, "c".to_string(), 20).unwrap();
    storage.create_workspace_with("d", target, true, "d".to_string(), 30).unwrap();
    storage.set_active_workspace_at("a", 40).unwrap();
    // b and d tie; the later one in the list wins
    assert_eq!(storage.delete_workspace("a").unwrap(), Some("d".to_string()));
    assert_eq!(storage.read_active_id(), Some("d".to_string()));
}

#[test]
fn delete_active_clears_when_no_workspaces_remain() {
    let (mut storage, _root, target) = open_store();
    let ws = create(&mut storage, "ws", target).unwrap();
    storage.set_active_workspace(&ws.id).unwrap();
    let new_active = storage.delete_workspace(&ws.id).unwrap();
    assert_eq!(new_active, None);
    assert!(storage.get_active_workspace().is_none());
}

#[test]
fn delete_inactive_does_not_change_active() {
    let (mut storage, _root, target) = open_store();
    let a = create(&mut storage, "a", target).unwrap();
    let b = create(&mut storage, "b", target).unwrap();
    storage.set_active_workspace(&a.id).unwrap();
    let new_active = storage.delete_workspace(&b.id).unwrap();
    // Active didn't change → no fallback id returned.
    assert_eq!(new_active, None);
    assert_eq!(storage.get_active_workspace().map(|w| w.id), Some(a.id));
}

#[test]
fn store_paths_sit_under_the_root() {
    let storage = Storage::open("/data/app");
    assert_eq!(storage.workspaces_path(), "/data/app/workspaces.json");
    assert_eq!(storage.active_path(), "/data/app/active.json");
    assert_eq!(storage.workspace_dir("w1"), "/data/app/workspaces/w1");
    assert_eq!(storage.index_path("w1"), "/data/app/workspaces/w1/conversations/index.json");
    let trailing = Storage::open("/data/app/");
    assert_eq!(trailing.workspaces_path(), "/data/app/workspaces.json");
}

#[test]
fn set_active_surfaces_the_workspace_as_most_recent() {
    let (mut storage, _root, target) = open_store();
    storage.create_workspace_with("a", target, true, "a".to_string(), 10).unwrap();
    storage.create_workspace_with("b", target, true, "b".to_string(), 20).unwrap();
    storage.create_workspace_with("c", target, true, "c".to_string(), 30).unwrap();
    // `a` was created first, but using it later than the others surfaces it.
    storage.set_active_workspace_at("a", 40).unwrap();
    storage.set_active_workspace_at("c", 50).unwrap();
    assert_eq!(storage.delete_workspace("c").unwrap(), Some("a".to_string()));
    assert_eq!(storage.get_active_workspace().map(|w| w.id), Some("a".to_string()));
}

#[test]
fn open_creates_workspaces_json_when_missing() {
    // The store's registry file is `<root>/workspaces.json`; a fresh store
    // lists no workspaces. (Creating the file on disk is the program's part.)
    let (storage, root, _target) = open_store();
    assert_eq!(storage.workspaces_path(), format!("{root}/workspaces.json"));
    assert!(storage.list_workspaces().is_empty());
}

#[test]
fn messages_show_the_value_given_for_it() {
    let err = StorageError::DuplicateName { name: "x".to_string() };
    assert_eq!(err.message_showing("<x>"), "a workspace named <x> already exists");
    let err = StorageError::WorkspaceNotFound { id: "w1".to_string() };
    assert_eq!(err.message_showing("ignored"), "workspace w1 not found");
    // a debug listing escapes combining marks and zero-width characters
    let odd = "e\u{301}\u{200b}";
    let err = StorageError::RelativePath { path: odd.to_string() };
    assert_eq!(err.message(), format!("workspace path must be absolute: {:?}", Path::new(odd)));
    // paths and names are listed the way std lists a path and a string
    let err = StorageError::NotADirectory { path: "/it's".to_string() };
    assert_eq!(err.message(), format!("workspace path does not exist or is not a directory: {:?}", Path::new("/it's")));
    let err = StorageError::DuplicateName { name: "it's".to_string() };
    assert_eq!(err.message(), "a workspace named \"it's\" already exists");
}

#[test]
fn clock_readings_are_kept_in_64_bits() {
    assert_eq!(millis_since_epoch(Some(1_700_000_000_000)), 1_700_000_000_000);
    assert_eq!(millis_since_epoch(None), 0);
    assert_eq!(millis_since_epoch(Some(u64::MAX as u128 + 5)), 4);
}
