//! Child-manifest resolution and path walking.
//!
//! Resolving a child manifest answers from the local store when it can; on a
//! miss the caller fetches the manifest from the remote service and hands the
//! outcome to [`get_child_manifest_commit`], which either keeps a manifest a
//! concurrent resolution inserted meanwhile — never overwriting it — or
//! converts and stores the fetched one.
//!
//! Walking a path processes its segments left to right, carrying the nearest
//! enclosing confinement point; the topmost confinement point wins.  The walk
//! itself performs no fetch: when a parent manifest is missing it stops and
//! reports which entry it needs, and [`resolve_path_resume`] continues once
//! the fetch outcome is in hand.

use vstd::prelude::*;
use crate::errors::{fetch_to_get_error, get_to_path_error, spec_fetch_to_get_error,
    spec_get_to_path_error, EntryIDFromPathError, FetchRemoteManifestError, GetChildManifestError};
use crate::ids::EntryId;
use crate::manifest::{local_matches_remote, ChildManifest, LocalChildManifest, LocalFileManifest,
    LocalFolderManifest};
use crate::name::{EntryName, FsPath};
use crate::storage::ManifestStorage;

verus! {

/// Where a path walk stands: the entry it reached and the nearest enclosing
/// confinement point, or none if the entry is fully visible.
#[derive(Clone, Copy, PartialEq, Eq, Structural, Debug)]
pub struct FsPathResolution {
    pub entry_id: EntryId,
    pub confinement_point: Option<EntryId>,
}

/// Whether `v` holds `id`.
pub fn contains_id(v: &Vec<EntryId>, id: EntryId) -> (r: bool)
    ensures
        r == v@.contains(id),
{
    let mut i: usize = 0;
    while i < v.len()
        invariant
            i <= v@.len(),
            forall|j: int| 0 <= j < i ==> v@[j] != id,
        decreases v@.len() - i,
    {
        if v[i] == id {
            return true;
        }
        i += 1;
    }
    false
}

/// Finishes resolving a child manifest once the remote fetch outcome is in
/// hand.  The caller looked `entry_id` up, found nothing, and fetched; this
/// step reports a failed fetch unchanged (after translating it), and
/// otherwise opens the per-entry exclusive update: a manifest inserted by a
/// concurrent resolution in the meantime is returned as is and never
/// overwritten, else the fetched manifest is converted to its local form,
/// stored, and returned.
pub fn get_child_manifest_commit<'a>(
    storage: &'a mut ManifestStorage,
    entry_id: EntryId,
    fetched: Result<ChildManifest, FetchRemoteManifestError>,
) -> (r: Result<&'a LocalChildManifest, GetChildManifestError>)
    requires
        old(storage).wf(),
        fetched matches Ok(m) ==> m.wf(),
    ensures
        final(storage).wf(),
        final(storage).workspace == old(storage).workspace,
        match fetched {
            Err(e) => final(storage).contents() == old(storage).contents() && r == Err::<
                &LocalChildManifest,
                GetChildManifestError,
            >(spec_fetch_to_get_error(e)),
            Ok(rm) => r matches Ok(m) && m.wf() && (if old(storage).contents().contains_key(
                entry_id,
            ) {
                final(storage).contents() == old(storage).contents() && *m == old(
                    storage,
                ).contents()[entry_id]
            } else {
                final(storage).contents() == old(storage).contents().insert(entry_id, *m)
                    && local_matches_remote(*m, rm)
            }),
        },
{
    let remote = match fetched {
        Err(e) => {
            return Err(fetch_to_get_error(e));
        },
        Ok(rm) => rm,
    };
    let already_there = match storage.get_child_manifest(entry_id) {
        Some(_) => true,
        None => false,
    };
    if already_there {
        // A concurrent resolution inserted the manifest while the fetch was
        // in flight: its data is at least as fresh, keep it.
        match storage.get_child_manifest(entry_id) {
            Some(m) => {
                proof {
                    storage.lemma_stored_wf(entry_id);
                }
                Ok(m)
            },
            None => vstd::pervasive::unreached(),
        }
    } else {
        let local = match remote {
            ChildManifest::File(rm) => LocalChildManifest::File(LocalFileManifest::from_remote(rm)),
            ChildManifest::Folder(rm) => LocalChildManifest::Folder(
                LocalFolderManifest::from_remote(rm),
            ),
        };
        storage.insert_child_manifest(entry_id, local);
        match storage.get_child_manifest(entry_id) {
            Some(m) => {
                proof {
                    storage.lemma_stored_wf(entry_id);
                }
                Ok(m)
            },
            None => vstd::pervasive::unreached(),
        }
    }
}

/// What a path walk would conclude against the store as it stands.
#[derive(Clone, Copy, PartialEq, Eq, Structural, Debug)]
pub enum WalkModel {
    /// The walk ends here.
    Resolved(FsPathResolution),
    /// A segment is absent, or a file stands where the path descends further.
    NotFound,
    /// The store misses the manifest of `parent`; the walk stalls before
    /// segment `next`.
    Missing { parent: FsPathResolution, next: usize },
}

/// The walk's meaning: processes `path` from segment `i` on, with `parent` as
/// the resolution reached so far (`None`: the walk still stands at the
/// workspace root).  The confinement point of a step keeps an ancestor's
/// confinement when one is set — the topmost wins — and otherwise becomes the
/// parent itself exactly when the child sits in the parent's local
/// confinement set.
pub open spec fn walk_from(
    storage: ManifestStorage,
    realm_id: EntryId,
    path: Seq<EntryName>,
    i: int,
    parent: Option<FsPathResolution>,
) -> WalkModel
    decreases path.len() - i,
{
    if i < 0 || i >= path.len() {
        match parent {
            None => WalkModel::Resolved(
                FsPathResolution { entry_id: realm_id, confinement_point: None },
            ),
            Some(res) => WalkModel::Resolved(res),
        }
    } else {
        let name = path[i];
        match parent {
            None => {
                let ws = storage.workspace;
                if ws.children@.contains_key(name@) {
                    let child = ws.children@[name@];
                    let conf: Option<EntryId> = if ws.local_confinement_points@.contains(child) {
                        Some(realm_id)
                    } else {
                        None
                    };
                    walk_from(
                        storage,
                        realm_id,
                        path,
                        i + 1,
                        Some(FsPathResolution { entry_id: child, confinement_point: conf }),
                    )
                } else {
                    WalkModel::NotFound
                }
            },
            Some(p) => {
                if storage.contents().contains_key(p.entry_id) {
                    match storage.contents()[p.entry_id] {
                        LocalChildManifest::File(_) => WalkModel::NotFound,
                        LocalChildManifest::Folder(m) => {
                            if m.children@.contains_key(name@) {
                                let child = m.children@[name@];
                                let conf: Option<EntryId> = match p.confinement_point {
                                    Some(c) => Some(c),
                                    None => if m.local_confinement_points@.contains(child) {
                                        Some(p.entry_id)
                                    } else {
                                        None
                                    },
                                };
                                walk_from(
                                    storage,
                                    realm_id,
                                    path,
                                    i + 1,
                                    Some(
                                        FsPathResolution {
                                            entry_id: child,
                                            confinement_point: conf,
                                        },
                                    ),
                                )
                            } else {
                                WalkModel::NotFound
                            }
                        },
                    }
                } else {
                    WalkModel::Missing { parent: p, next: i as usize }
                }
            },
        }
    }
}

/// A suspended path walk, precise enough to continue from.
#[derive(Debug)]
pub struct PathWalk {
    pub path: FsPath,
    pub next: usize,
    pub parent: Option<FsPathResolution>,
}

impl PathWalk {
    /// The walk state's invariant.
    pub open spec fn wf(&self) -> bool {
        self.path.wf() && self.next <= self.path.parts@.len()
    }
}

/// One round of path walking: either a conclusion, or the entry whose
/// manifest must be fetched before the walk can go on.
#[derive(Debug)]
pub enum WalkStep {
    Resolved(FsPathResolution),
    Failed(EntryIDFromPathError),
    NeedManifest { entry_id: EntryId, walk: PathWalk },
}

/// `r` reports exactly what the model concludes; a stalled walk is handed
/// back in a state the model pins down.
pub open spec fn walk_step_matches(r: WalkStep, model: WalkModel, path: Seq<EntryName>) -> bool {
    match model {
        WalkModel::Resolved(res) => r matches WalkStep::Resolved(got) && got == res,
        WalkModel::NotFound => r matches WalkStep::Failed(e) && e == EntryIDFromPathError::NotFound,
        WalkModel::Missing { parent, next } => r matches WalkStep::NeedManifest {
            entry_id,
            walk,
        } && entry_id == parent.entry_id && walk.parent == Some(parent) && walk.next == next
            && walk.path.parts@ == path && walk.wf(),
    }
}

/// Walks `path` as far as the store allows, continuing a suspended walk.
pub fn resolve_path_walk(storage: &ManifestStorage, realm_id: EntryId, walk: PathWalk) -> (r:
    WalkStep)
    requires
        storage.wf(),
        walk.wf(),
    ensures
        walk_step_matches(
            r,
            walk_from(*storage, realm_id, walk.path.parts@, walk.next as int, walk.parent),
            walk.path.parts@,
        ),
{
    let PathWalk { path, next: first, parent: start_parent } = walk;
    let mut next = first;
    let mut parent = start_parent;
    while next < path.parts.len()
        invariant
            storage.wf(),
            path.wf(),
            path.parts@ == walk.path.parts@,
            first == walk.next,
            start_parent == walk.parent,
            next <= path.parts@.len(),
            walk_from(*storage, realm_id, path.parts@, first as int, start_parent) == walk_from(
                *storage,
                realm_id,
                path.parts@,
                next as int,
                parent,
            ),
        decreases path.parts@.len() - next,
    {
        let name = &path.parts[next];
        proof {
            assert(path.parts@[next as int].wf());
        }
        match parent {
            None => {
                let ws = storage.get_workspace_manifest();
                match ws.children.get(name) {
                    None => {
                        proof {
                            assert(walk_from(
                                *storage,
                                realm_id,
                                path.parts@,
                                next as int,
                                parent,
                            ) == WalkModel::NotFound);
                        }
                        return WalkStep::Failed(EntryIDFromPathError::NotFound);
                    },
                    Some(child_id) => {
                        let confined = contains_id(&ws.local_confinement_points, child_id);
                        let conf: Option<EntryId> = if confined {
                            Some(realm_id)
                        } else {
                            None
                        };
                        let newres = FsPathResolution {
                            entry_id: child_id,
                            confinement_point: conf,
                        };
                        proof {
                            assert(walk_from(
                                *storage,
                                realm_id,
                                path.parts@,
                                next as int,
                                parent,
                            ) == walk_from(
                                *storage,
                                realm_id,
                                path.parts@,
                                next as int + 1,
                                Some(newres),
                            ));
                        }
                        parent = Some(newres);
                        next += 1;
                    },
                }
            },
            Some(p) => {
                match storage.get_child_manifest(p.entry_id) {
                    None => {
                        proof {
                            assert(walk_from(
                                *storage,
                                realm_id,
                                path.parts@,
                                next as int,
                                parent,
                            ) == WalkModel::Missing { parent: p, next });
                        }
                        return WalkStep::NeedManifest {
                            entry_id: p.entry_id,
                            walk: PathWalk { path, next, parent: Some(p) },
                        };
                    },
                    Some(m) => {
                        proof {
                            storage.lemma_stored_wf(p.entry_id);
                        }
                        match m {
                            LocalChildManifest::File(_) => {
                                // a file has no children: the path cannot go on
                                proof {
                                    assert(walk_from(
                                        *storage,
                                        realm_id,
                                        path.parts@,
                                        next as int,
                                        parent,
                                    ) == WalkModel::NotFound);
                                }
                                return WalkStep::Failed(EntryIDFromPathError::NotFound);
                            },
                            LocalChildManifest::Folder(fm) => {
                                match fm.children.get(name) {
                                    None => {
                                        proof {
                                            assert(walk_from(
                                                *storage,
                                                realm_id,
                                                path.parts@,
                                                next as int,
                                                parent,
                                            ) == WalkModel::NotFound);
                                        }
                                        return WalkStep::Failed(EntryIDFromPathError::NotFound);
                                    },
                                    Some(child_id) => {
                                        let conf: Option<EntryId> = match p.confinement_point {
                                            Some(c) => Some(c),
                                            None => {
                                                if contains_id(
                                                    &fm.local_confinement_points,
                                                    child_id,
                                                ) {
                                                    Some(p.entry_id)
                                                } else {
                                                    None
                                                }
                                            },
                                        };
                                        let newres = FsPathResolution {
                                            entry_id: child_id,
                                            confinement_point: conf,
                                        };
                                        proof {
                                            assert(walk_from(
                                                *storage,
                                                realm_id,
                                                path.parts@,
                                                next as int,
                                                parent,
                                            ) == walk_from(
                                                *storage,
                                                realm_id,
                                                path.parts@,
                                                next as int + 1,
                                                Some(newres),
                                            ));
                                        }
                                        parent = Some(newres);
                                        next += 1;
                                    },
                                }
                            },
                        }
                    },
                }
            },
        }
    }
    match parent {
        None => WalkStep::Resolved(
            FsPathResolution { entry_id: realm_id, confinement_point: None },
        ),
        Some(p) => WalkStep::Resolved(p),
    }
}

/// Resolves `path` from the workspace root against the store as it stands.
/// No fetch happens here: a missing parent manifest is reported for the
/// caller to fetch, after which [`resolve_path_resume`] continues the walk.
pub fn resolve_path(storage: &ManifestStorage, realm_id: EntryId, path: FsPath) -> (r: WalkStep)
    requires
        storage.wf(),
        path.wf(),
    ensures
        walk_step_matches(
            r,
            walk_from(*storage, realm_id, path.parts@, 0, None),
            path.parts@,
        ),
{
    resolve_path_walk(storage, realm_id, PathWalk { path, next: 0, parent: None })
}

/// Continues a stalled path walk once the fetch outcome for the missing
/// parent manifest is in hand: commits the outcome (keeping a concurrently
/// inserted manifest if one appeared) and walks on.  A failed fetch surfaces
/// unchanged, translated one-to-one, the internal kind annotated with the
/// offending entry.
pub fn resolve_path_resume(
    storage: &mut ManifestStorage,
    realm_id: EntryId,
    walk: PathWalk,
    fetched: Result<ChildManifest, FetchRemoteManifestError>,
) -> (r: WalkStep)
    requires
        old(storage).wf(),
        walk.wf(),
        walk.parent is Some,
        fetched matches Ok(m) ==> m.wf(),
    ensures
        final(storage).wf(),
        final(storage).workspace == old(storage).workspace,
        match fetched {
            Err(e) => final(storage).contents() == old(storage).contents() && (r
                matches WalkStep::Failed(pe) && pe == spec_get_to_path_error(
                spec_fetch_to_get_error(e),
                walk.parent->0.entry_id,
            )),
            Ok(rm) => (if old(storage).contents().contains_key(walk.parent->0.entry_id) {
                final(storage).contents() == old(storage).contents()
            } else {
                exists|m: LocalChildManifest|
                    final(storage).contents() == old(storage).contents().insert(
                        walk.parent->0.entry_id,
                        m,
                    ) && #[trigger] local_matches_remote(m, rm)
            }) && walk_step_matches(
                r,
                walk_from(
                    *final(storage),
                    realm_id,
                    walk.path.parts@,
                    walk.next as int,
                    walk.parent,
                ),
                walk.path.parts@,
            ),
        },
{
    let entry_id = match walk.parent {
        Some(p) => p.entry_id,
        None => vstd::pervasive::unreached(),
    };
    match get_child_manifest_commit(storage, entry_id, fetched) {
        Err(e) => WalkStep::Failed(get_to_path_error(e, entry_id)),
        Ok(_) => resolve_path_walk(storage, realm_id, walk),
    }
}

/// Cache fill is idempotent: once a resolution of a missing entry has
/// committed its fetched manifest, the entry is present in the store, so a
/// later resolution of the same entry is answered locally — it requests no
/// further remote fetch — and returns the stored manifest.
pub proof fn lemma_cache_fill_idempotent(
    c0: Map<EntryId, LocalChildManifest>,
    m: LocalChildManifest,
    id: EntryId,
    rm: ChildManifest,
)
    requires
        !c0.contains_key(id),
        local_matches_remote(m, rm),
    ensures
        c0.insert(id, m).contains_key(id),
        c0.insert(id, m)[id] == m,
        local_matches_remote(c0.insert(id, m)[id], rm),
{
}

/// Two resolutions racing on the same missing entry converge.  The winner
/// commits the manifest converted from its fetch; the loser's commit finds
/// the entry present, stores nothing, and hands the stored manifest back.
/// Both racers hence observe one and the same manifest — describing the raced
/// entry, at the winner's fetched version — and the store ends up holding
/// exactly one manifest for that entry.
pub proof fn lemma_race_convergence(
    c0: Map<EntryId, LocalChildManifest>,
    m1: LocalChildManifest,
    id: EntryId,
    rm1: ChildManifest,
    rm2: ChildManifest,
)
    requires
        !c0.contains_key(id),
        local_matches_remote(m1, rm1),
        rm1.spec_id() == id,
        rm2.spec_id() == id,
    ensures
        c0.insert(id, m1).contains_key(id),
        c0.insert(id, m1)[id] == m1,
        m1.spec_id() == rm2.spec_id(),
        m1.spec_version() == rm1.spec_version(),
        c0.insert(id, m1).remove(id) == c0,
{
    assert(c0.insert(id, m1).remove(id) =~= c0);
}

/// Topmost confinement wins: when the root confines its child `a`, and the
/// folder manifest of `a` in turn confines its own child `b`, walking the
/// two-segment path through them reports the workspace root as the
/// confinement point — never the inner folder.
pub proof fn lemma_topmost_confinement_wins(
    storage: ManifestStorage,
    realm_id: EntryId,
    name_a: EntryName,
    name_b: EntryName,
    a: EntryId,
    b: EntryId,
    fm: LocalFolderManifest,
)
    requires
        storage.workspace.children@.contains_key(name_a@),
        storage.workspace.children@[name_a@] == a,
        storage.workspace.local_confinement_points@.contains(a),
        storage.contents().contains_key(a),
        storage.contents()[a] == LocalChildManifest::Folder(fm),
        fm.children@.contains_key(name_b@),
        fm.children@[name_b@] == b,
        fm.local_confinement_points@.contains(b),
    ensures
        walk_from(storage, realm_id, seq![name_a, name_b], 0, None) == WalkModel::Resolved(
            FsPathResolution { entry_id: b, confinement_point: Some(realm_id) },
        ),
{
    let path = seq![name_a, name_b];
    let res_a = FsPathResolution { entry_id: a, confinement_point: Some(realm_id) };
    let res_b = FsPathResolution { entry_id: b, confinement_point: Some(realm_id) };
    assert(walk_from(storage, realm_id, path, 2, Some(res_b)) == WalkModel::Resolved(res_b));
    assert(walk_from(storage, realm_id, path, 1, Some(res_a)) == walk_from(
        storage,
        realm_id,
        path,
        2,
        Some(res_b),
    ));
    assert(walk_from(storage, realm_id, path, 0, None) == walk_from(
        storage,
        realm_id,
        path,
        1,
        Some(res_a),
    ));
}

/// A file blocks further descent: when a walk has to read children out of an
/// entry whose manifest is a file — the path continues past that entry — the
/// walk reports not-found.
pub proof fn lemma_file_blocks_descent(
    storage: ManifestStorage,
    realm_id: EntryId,
    path: Seq<EntryName>,
    i: int,
    p: FsPathResolution,
)
    requires
        0 <= i < path.len(),
        storage.contents().contains_key(p.entry_id),
        storage.contents()[p.entry_id] is File,
    ensures
        walk_from(storage, realm_id, path, i, Some(p)) == WalkModel::NotFound,
{
}

} // verus!
