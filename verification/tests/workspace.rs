use envelope_budget::{EntryKind, IoErrorKind, Workspace};

#[test]
fn new_workspace_holds_nothing() {
    let workspace = Workspace::new();
    assert_eq!(workspace.kind_of("accounts"), None);
    assert_eq!(workspace.kind_of(""), None);
    assert!(!workspace.is_taken("envelopes"));
}

#[test]
fn created_entry_is_found_with_its_kind() {
    let mut workspace = Workspace::new();
    assert_eq!(workspace.create("accounts", EntryKind::Directory), Ok(()));
    assert_eq!(workspace.create("ledger.txt", EntryKind::File), Ok(()));
    assert_eq!(workspace.kind_of("accounts"), Some(EntryKind::Directory));
    assert_eq!(workspace.kind_of("ledger.txt"), Some(EntryKind::File));
    assert!(workspace.is_taken("accounts"));
    assert!(!workspace.is_taken("account"));
    assert!(!workspace.is_taken("accounts/"));
}

#[test]
fn creating_at_a_taken_path_fails_and_changes_nothing() {
    let mut workspace = Workspace::new();
    assert_eq!(workspace.create("accounts", EntryKind::Directory), Ok(()));
    assert_eq!(
        workspace.create("accounts", EntryKind::Directory),
        Err(IoErrorKind::AlreadyExists)
    );
    assert_eq!(workspace.create("accounts", EntryKind::File), Err(IoErrorKind::AlreadyExists));
    assert_eq!(workspace.kind_of("accounts"), Some(EntryKind::Directory));
}

#[test]
fn a_file_blocks_a_directory_of_the_same_name() {
    let mut workspace = Workspace::new();
    assert_eq!(workspace.create("envelopes", EntryKind::File), Ok(()));
    assert_eq!(
        workspace.create("envelopes", EntryKind::Directory),
        Err(IoErrorKind::AlreadyExists)
    );
    assert_eq!(workspace.kind_of("envelopes"), Some(EntryKind::File));
}

#[test]
fn paths_are_compared_character_by_character() {
    let mut workspace = Workspace::new();
    assert_eq!(workspace.create("Accounts", EntryKind::Directory), Ok(()));
    assert_eq!(workspace.create("accounts", EntryKind::File), Ok(()));
    assert_eq!(workspace.create("comptes-\u{e9}pargne", EntryKind::Directory), Ok(()));
    assert_eq!(workspace.kind_of("Accounts"), Some(EntryKind::Directory));
    assert_eq!(workspace.kind_of("accounts"), Some(EntryKind::File));
    assert_eq!(workspace.kind_of("comptes-\u{e9}pargne"), Some(EntryKind::Directory));
    assert_eq!(workspace.kind_of("comptes-epargne"), None);
}
