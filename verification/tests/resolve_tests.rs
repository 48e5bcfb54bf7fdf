use entry_transactions::errors::{EntryIDFromPathError, FetchRemoteManifestError,
    GetChildManifestError};
use entry_transactions::ids::{EntryId, Timestamp};
use entry_transactions::manifest::{ChildManifest, ChildrenMap, LocalChildManifest,
    LocalFileManifest, LocalWorkspaceManifest, ManifestBase, RemoteFileManifest,
    RemoteFolderManifest};
use entry_transactions::name::{EntryName, FsPath};
use entry_transactions::resolve::{get_child_manifest_commit, resolve_path, resolve_path_resume,
    WalkStep};
use entry_transactions::storage::ManifestStorage;

fn ts(micros: i64) -> Timestamp {
    Timestamp { micros }
}

fn name(s: &str) -> EntryName {
    EntryName::try_new(s.as_bytes().to_vec()).expect("valid name")
}

fn path(segments: &[&str]) -> FsPath {
    let mut parts = Vec::new();
    for s in segments {
        parts.push(name(s));
    }
    FsPath::from_parts(parts)
}

fn workspace(root_id: EntryId, children: ChildrenMap, confined: Vec<EntryId>)
    -> LocalWorkspaceManifest {
    LocalWorkspaceManifest {
        base: ManifestBase { id: root_id, created: ts(1), version: 7 },
        updated: ts(2),
        need_sync: false,
        children,
        local_confinement_points: confined,
    }
}

fn folder_manifest(id: EntryId, version: u32, children: ChildrenMap, confined: Vec<EntryId>)
    -> LocalChildManifest {
    LocalChildManifest::Folder(entry_transactions::manifest::LocalFolderManifest {
        base: ManifestBase { id, created: ts(10), version },
        updated: ts(11),
        need_sync: false,
        children,
        local_confinement_points: confined,
    })
}

fn file_manifest(id: EntryId, version: u32, size: u64) -> LocalChildManifest {
    LocalChildManifest::File(LocalFileManifest {
        base: ManifestBase { id, created: ts(20), version },
        updated: ts(21),
        need_sync: true,
        size,
    })
}

#[test]
fn resolve_root_path_yields_realm_id() {
    let root = EntryId(1);
    let storage = ManifestStorage::new(workspace(root, ChildrenMap::new(), Vec::new()));
    match resolve_path(&storage, root, path(&[])) {
        WalkStep::Resolved(res) => {
            assert_eq!(res.entry_id, root);
            assert_eq!(res.confinement_point, None);
        }
        _ => panic!("root path must resolve"),
    }
}

#[test]
fn resolve_missing_root_child_is_not_found() {
    let root = EntryId(1);
    let storage = ManifestStorage::new(workspace(root, ChildrenMap::new(), Vec::new()));
    match resolve_path(&storage, root, path(&["ghost"])) {
        WalkStep::Failed(EntryIDFromPathError::NotFound) => {}
        _ => panic!("absent name must be not-found"),
    }
}

#[test]
fn topmost_confinement_wins_on_two_levels() {
    // root confines child a; a (a folder) confines grandchild b:
    // the reported confinement point is the root, not a.
    let root = EntryId(1);
    let a = EntryId(2);
    let b = EntryId(3);
    let mut root_children = ChildrenMap::new();
    root_children.insert(name("a"), a);
    let mut a_children = ChildrenMap::new();
    a_children.insert(name("b"), b);
    let mut storage = ManifestStorage::new(workspace(root, root_children, vec![a]));
    storage.insert_child_manifest(a, folder_manifest(a, 2, a_children, vec![b]));
    match resolve_path(&storage, root, path(&["a", "b"])) {
        WalkStep::Resolved(res) => {
            assert_eq!(res.entry_id, b);
            assert_eq!(res.confinement_point, Some(root));
        }
        _ => panic!("path must resolve"),
    }
}

#[test]
fn deeper_confinement_reported_when_root_does_not_confine() {
    let root = EntryId(1);
    let a = EntryId(2);
    let b = EntryId(3);
    let mut root_children = ChildrenMap::new();
    root_children.insert(name("a"), a);
    let mut a_children = ChildrenMap::new();
    a_children.insert(name("b"), b);
    let mut storage = ManifestStorage::new(workspace(root, root_children, Vec::new()));
    storage.insert_child_manifest(a, folder_manifest(a, 2, a_children, vec![b]));
    match resolve_path(&storage, root, path(&["a", "b"])) {
        WalkStep::Resolved(res) => {
            assert_eq!(res.entry_id, b);
            assert_eq!(res.confinement_point, Some(a));
        }
        _ => panic!("path must resolve"),
    }
}

#[test]
fn file_blocks_further_descent() {
    let root = EntryId(1);
    let f = EntryId(2);
    let mut root_children = ChildrenMap::new();
    root_children.insert(name("notes.txt"), f);
    let mut storage = ManifestStorage::new(workspace(root, root_children, Vec::new()));
    storage.insert_child_manifest(f, file_manifest(f, 1, 42));
    match resolve_path(&storage, root, path(&["notes.txt", "deeper"])) {
        WalkStep::Failed(EntryIDFromPathError::NotFound) => {}
        _ => panic!("walking through a file must be not-found"),
    }
}

#[test]
fn walk_stalls_on_missing_manifest_and_resumes() {
    let root = EntryId(1);
    let a = EntryId(2);
    let b = EntryId(3);
    let mut root_children = ChildrenMap::new();
    root_children.insert(name("a"), a);
    let mut storage = ManifestStorage::new(workspace(root, root_children, Vec::new()));
    // a's manifest is not cached: the walk must stall asking for it
    let walk = match resolve_path(&storage, root, path(&["a", "b"])) {
        WalkStep::NeedManifest { entry_id, walk } => {
            assert_eq!(entry_id, a);
            walk
        }
        _ => panic!("walk must stall on the missing manifest"),
    };
    // the fetch hands back a folder manifest for a, and the walk goes on
    let mut a_children = ChildrenMap::new();
    a_children.insert(name("b"), b);
    let fetched = Ok(ChildManifest::Folder(RemoteFolderManifest {
        id: a,
        created: ts(30),
        updated: ts(31),
        version: 5,
        children: a_children,
    }));
    match resolve_path_resume(&mut storage, root, walk, fetched) {
        WalkStep::Resolved(res) => {
            assert_eq!(res.entry_id, b);
            assert_eq!(res.confinement_point, None);
        }
        other => panic!("resume must resolve, got {:?}", other),
    }
    // the fetched manifest is now cached
    assert!(storage.get_child_manifest(a).is_some());
}

#[test]
fn commit_stores_fetched_folder_cleared_of_placeholder_state() {
    // entry y is absent; the remote returns a folder manifest at version 3:
    // afterwards the store holds it with need_sync false and no confinement
    let root = EntryId(1);
    let y = EntryId(9);
    let mut storage = ManifestStorage::new(workspace(root, ChildrenMap::new(), Vec::new()));
    assert!(storage.get_child_manifest(y).is_none());
    let mut y_children = ChildrenMap::new();
    y_children.insert(name("inside"), EntryId(10));
    let fetched = Ok(ChildManifest::Folder(RemoteFolderManifest {
        id: y,
        created: ts(40),
        updated: ts(41),
        version: 3,
        children: y_children,
    }));
    match get_child_manifest_commit(&mut storage, y, fetched) {
        Ok(LocalChildManifest::Folder(m)) => {
            assert_eq!(m.base.id, y);
            assert_eq!(m.base.version, 3);
            assert!(!m.need_sync);
            assert!(m.local_confinement_points.is_empty());
        }
        other => panic!("commit must store the folder, got {:?}", other),
    }
    match storage.get_child_manifest(y) {
        Some(LocalChildManifest::Folder(m)) => {
            assert_eq!(m.base.version, 3);
            assert!(!m.need_sync);
            assert!(m.local_confinement_points.is_empty());
            assert!(m.children.get(&name("inside")).is_some());
        }
        other => panic!("store must hold the folder, got {:?}", other),
    }
}

#[test]
fn commit_stores_fetched_file() {
    let root = EntryId(1);
    let x = EntryId(5);
    let mut storage = ManifestStorage::new(workspace(root, ChildrenMap::new(), Vec::new()));
    let fetched = Ok(ChildManifest::File(RemoteFileManifest {
        id: x,
        created: ts(50),
        updated: ts(51),
        version: 8,
        size: 1024,
    }));
    match get_child_manifest_commit(&mut storage, x, fetched) {
        Ok(LocalChildManifest::File(m)) => {
            assert_eq!(m.base.id, x);
            assert_eq!(m.base.created, ts(50));
            assert_eq!(m.updated, ts(51));
            assert_eq!(m.base.version, 8);
            assert_eq!(m.size, 1024);
            assert!(!m.need_sync);
        }
        other => panic!("commit must store the file, got {:?}", other),
    }
}

#[test]
fn cache_fill_is_idempotent() {
    // the first resolution misses, fetches and commits; the second is served
    // locally and asks for nothing
    let root = EntryId(1);
    let x = EntryId(5);
    let mut storage = ManifestStorage::new(workspace(root, ChildrenMap::new(), Vec::new()));
    assert!(storage.get_child_manifest(x).is_none());
    let fetched = Ok(ChildManifest::File(RemoteFileManifest {
        id: x,
        created: ts(50),
        updated: ts(51),
        version: 2,
        size: 7,
    }));
    get_child_manifest_commit(&mut storage, x, fetched).expect("commit succeeds");
    // second resolution: a local hit, no fetch requested
    match storage.get_child_manifest(x) {
        Some(LocalChildManifest::File(m)) => assert_eq!(m.base.version, 2),
        other => panic!("second lookup must hit, got {:?}", other),
    }
    assert_eq!(storage.entries.len(), 1);
}

#[test]
fn racing_commits_converge_on_one_manifest() {
    // two resolutions of the same missing entry: the loser's commit keeps the
    // winner's manifest, and both see the same identifier and version
    let root = EntryId(1);
    let x = EntryId(5);
    let mut storage = ManifestStorage::new(workspace(root, ChildrenMap::new(), Vec::new()));
    let fetched_first = Ok(ChildManifest::File(RemoteFileManifest {
        id: x,
        created: ts(50),
        updated: ts(51),
        version: 3,
        size: 7,
    }));
    let fetched_second = Ok(ChildManifest::File(RemoteFileManifest {
        id: x,
        created: ts(50),
        updated: ts(52),
        version: 4,
        size: 9,
    }));
    let first = match get_child_manifest_commit(&mut storage, x, fetched_first) {
        Ok(LocalChildManifest::File(m)) => *m,
        other => panic!("first commit must succeed, got {:?}", other),
    };
    let second = match get_child_manifest_commit(&mut storage, x, fetched_second) {
        Ok(LocalChildManifest::File(m)) => *m,
        other => panic!("second commit must succeed, got {:?}", other),
    };
    assert_eq!(first.base.id, second.base.id);
    assert_eq!(first.base.version, second.base.version);
    // the winner's fetch is what stays; the loser's data is discarded
    assert_eq!(second.base.version, 3);
    assert_eq!(second.size, 7);
    assert_eq!(storage.entries.len(), 1);
}

#[test]
fn fetch_errors_pass_through_commit_unchanged() {
    let root = EntryId(1);
    let x = EntryId(5);
    let mut storage = ManifestStorage::new(workspace(root, ChildrenMap::new(), Vec::new()));
    let cases = [
        (FetchRemoteManifestError::Offline, GetChildManifestError::Offline),
        (FetchRemoteManifestError::NotFound, GetChildManifestError::NotFound),
        (FetchRemoteManifestError::NotAllowed, GetChildManifestError::NotAllowed),
        (
            FetchRemoteManifestError::InvalidCertificate,
            GetChildManifestError::InvalidCertificate,
        ),
        (FetchRemoteManifestError::InvalidManifest, GetChildManifestError::InvalidManifest),
        (FetchRemoteManifestError::Internal, GetChildManifestError::Internal),
    ];
    for (fetch_err, expect) in cases {
        match get_child_manifest_commit(&mut storage, x, Err(fetch_err)) {
            Err(e) => assert_eq!(e, expect),
            Ok(_) => panic!("a failed fetch must fail the resolution"),
        }
    }
    assert!(storage.get_child_manifest(x).is_none());
}

#[test]
fn bad_timestamp_keeps_both_timestamps_and_both_offsets() {
    let root = EntryId(1);
    let x = EntryId(5);
    let mut storage = ManifestStorage::new(workspace(root, ChildrenMap::new(), Vec::new()));
    let fetch_err = FetchRemoteManifestError::BadTimestamp {
        server_timestamp: ts(1_000_000),
        client_timestamp: ts(2_000_000),
        ballpark_client_early_offset: 300_000_000,
        ballpark_client_late_offset: 320_000_000,
    };
    match get_child_manifest_commit(&mut storage, x, Err(fetch_err)) {
        Err(GetChildManifestError::BadTimestamp {
            server_timestamp,
            client_timestamp,
            ballpark_client_early_offset,
            ballpark_client_late_offset,
        }) => {
            assert_eq!(server_timestamp, ts(1_000_000));
            assert_eq!(client_timestamp, ts(2_000_000));
            assert_eq!(ballpark_client_early_offset, 300_000_000);
            assert_eq!(ballpark_client_late_offset, 320_000_000);
        }
        other => panic!("clock skew must pass through, got {:?}", other),
    }
}

#[test]
fn bad_version_is_a_contract_violation_hence_internal() {
    // no version was pinned, so a stale-version response is impossible as a
    // normal case: it must surface as an internal failure
    let root = EntryId(1);
    let x = EntryId(5);
    let mut storage = ManifestStorage::new(workspace(root, ChildrenMap::new(), Vec::new()));
    match get_child_manifest_commit(&mut storage, x, Err(FetchRemoteManifestError::BadVersion)) {
        Err(GetChildManifestError::Internal) => {}
        other => panic!("stale version must become internal, got {:?}", other),
    }
}

#[test]
fn resume_annotates_internal_failure_with_entry_id() {
    let root = EntryId(1);
    let a = EntryId(2);
    let mut root_children = ChildrenMap::new();
    root_children.insert(name("a"), a);
    let mut storage = ManifestStorage::new(workspace(root, root_children, Vec::new()));
    let walk = match resolve_path(&storage, root, path(&["a", "b"])) {
        WalkStep::NeedManifest { walk, .. } => walk,
        _ => panic!("walk must stall"),
    };
    match resolve_path_resume(&mut storage, root, walk, Err(FetchRemoteManifestError::Internal)) {
        WalkStep::Failed(EntryIDFromPathError::Internal { entry_id }) => {
            assert_eq!(entry_id, Some(a));
        }
        other => panic!("internal failure must carry the entry id, got {:?}", other),
    }
}

#[test]
fn resume_keeps_concurrently_inserted_manifest() {
    let root = EntryId(1);
    let a = EntryId(2);
    let b = EntryId(3);
    let mut root_children = ChildrenMap::new();
    root_children.insert(name("a"), a);
    let mut storage = ManifestStorage::new(workspace(root, root_children, Vec::new()));
    let walk = match resolve_path(&storage, root, path(&["a", "b"])) {
        WalkStep::NeedManifest { walk, .. } => walk,
        _ => panic!("walk must stall"),
    };
    // a concurrent resolution inserts a's manifest while the fetch is in flight
    let mut a_children = ChildrenMap::new();
    a_children.insert(name("b"), b);
    storage.insert_child_manifest(a, folder_manifest(a, 6, a_children, Vec::new()));
    // the late fetch carries an empty folder; it must be discarded
    let fetched = Ok(ChildManifest::Folder(RemoteFolderManifest {
        id: a,
        created: ts(60),
        updated: ts(61),
        version: 5,
        children: ChildrenMap::new(),
    }));
    match resolve_path_resume(&mut storage, root, walk, fetched) {
        WalkStep::Resolved(res) => assert_eq!(res.entry_id, b),
        other => panic!("resume must use the concurrent manifest, got {:?}", other),
    }
    match storage.get_child_manifest(a) {
        Some(LocalChildManifest::Folder(m)) => assert_eq!(m.base.version, 6),
        other => panic!("the concurrent manifest must stay, got {:?}", other),
    }
}
