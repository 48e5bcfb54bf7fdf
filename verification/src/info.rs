//! The caller-facing entry summary and its assembly.
//!
//! The root path is special-cased: its summary is read straight off the
//! always-resident root manifest, with its child names sorted byte-wise so
//! the listing is deterministic whatever enumeration order the store used.
//! Non-root folder listings are deliberately left unordered — the asymmetry
//! is preserved on purpose, matching the behaviour this layer promises.

use vstd::prelude::*;
use vstd::relations::{antisymmetric, reflexive, sorted_by, strongly_connected, total_ordering,
    transitive};
use vstd::seq_lib::lemma_sorted_unique;
use crate::errors::{get_to_info_error, path_to_info_error, spec_fetch_to_get_error,
    spec_get_to_info_error, spec_get_to_path_error, spec_path_to_info_error, EntryInfoError,
    FetchRemoteManifestError};
use crate::ids::{EntryId, Timestamp};
use crate::bytes::{lemma_lex_le_antisym, lemma_lex_le_refl_from, lemma_lex_le_total_from,
    lemma_lex_le_trans_from};
use crate::manifest::{ChildManifest, LocalChildManifest, LocalWorkspaceManifest};
use crate::name::{lex_leq_fn, names_view, sort_names, EntryName, FsPath};
use crate::resolve::{get_child_manifest_commit, resolve_path, resolve_path_resume, walk_from,
    FsPathResolution, PathWalk, WalkModel, WalkStep};
use crate::storage::ManifestStorage;

verus! {

/// The caller-facing summary of one entry: a projection of its manifest plus
/// the confinement point accumulated along the path that reached it.
#[derive(Debug)]
pub enum EntryInfo {
    File {
        /// The entry id of the topmost ancestor folder that holds a child
        /// with a confined name on the path leading here, or none.
        confinement_point: Option<EntryId>,
        id: EntryId,
        created: Timestamp,
        updated: Timestamp,
        base_version: u32,
        is_placeholder: bool,
        need_sync: bool,
        size: u64,
    },
    Folder {
        /// The entry id of the topmost ancestor folder that holds a child
        /// with a confined name on the path leading here, or none.
        confinement_point: Option<EntryId>,
        id: EntryId,
        created: Timestamp,
        updated: Timestamp,
        base_version: u32,
        is_placeholder: bool,
        need_sync: bool,
        children: Vec<EntryName>,
    },
}

/// `info` is the summary of child manifest `m` with confinement point `conf`:
/// every field projected, a placeholder exactly when the base version is 0,
/// and for folders a duplicate-free listing holding exactly the child names
/// (in no promised order).
pub open spec fn info_matches_child(
    info: EntryInfo,
    m: LocalChildManifest,
    conf: Option<EntryId>,
) -> bool {
    match (info, m) {
        (
            EntryInfo::File {
                confinement_point,
                id,
                created,
                updated,
                base_version,
                is_placeholder,
                need_sync,
                size,
            },
            LocalChildManifest::File(fm),
        ) => {
            &&& confinement_point == conf
            &&& id == fm.base.id
            &&& created == fm.base.created
            &&& updated == fm.updated
            &&& base_version == fm.base.version
            &&& is_placeholder == (fm.base.version == 0)
            &&& need_sync == fm.need_sync
            &&& size == fm.size
        },
        (
            EntryInfo::Folder {
                confinement_point,
                id,
                created,
                updated,
                base_version,
                is_placeholder,
                need_sync,
                children,
            },
            LocalChildManifest::Folder(fm),
        ) => {
            &&& confinement_point == conf
            &&& id == fm.base.id
            &&& created == fm.base.created
            &&& updated == fm.updated
            &&& base_version == fm.base.version
            &&& is_placeholder == (fm.base.version == 0)
            &&& need_sync == fm.need_sync
            &&& names_view(children@).no_duplicates()
            &&& forall|k: Seq<u8>|
                names_view(children@).contains(k) <==> fm.children@.contains_key(k)
        },
        _ => false,
    }
}

/// `info` is the summary of the workspace root manifest `ws`: a folder with
/// no confinement point — the root has no parent — and its child names listed
/// sorted byte-wise, without duplicates.
pub open spec fn info_matches_root(info: EntryInfo, ws: LocalWorkspaceManifest) -> bool {
    match info {
        EntryInfo::Folder {
            confinement_point,
            id,
            created,
            updated,
            base_version,
            is_placeholder,
            need_sync,
            children,
        } => {
            &&& confinement_point is None
            &&& id == ws.base.id
            &&& created == ws.base.created
            &&& updated == ws.updated
            &&& base_version == ws.base.version
            &&& is_placeholder == (ws.base.version == 0)
            &&& need_sync == ws.need_sync
            &&& sorted_by(names_view(children@), lex_leq_fn())
            &&& names_view(children@).no_duplicates()
            &&& forall|k: Seq<u8>|
                names_view(children@).contains(k) <==> ws.children@.contains_key(k)
        },
        _ => false,
    }
}

/// Summarizes the workspace root manifest, child names sorted byte-wise.
pub fn entry_info_root(ws: &LocalWorkspaceManifest) -> (r: EntryInfo)
    requires
        ws.wf(),
    ensures
        info_matches_root(r, *ws),
{
    let keys = ws.children.keys();
    let children = sort_names(&keys);
    EntryInfo::Folder {
        confinement_point: None,
        id: ws.base.id,
        created: ws.base.created,
        updated: ws.updated,
        base_version: ws.base.version,
        is_placeholder: ws.base.version == 0,
        need_sync: ws.need_sync,
        children,
    }
}

/// Summarizes a child manifest, attaching the confinement point the path
/// resolution produced.  Folder children are listed in no promised order.
pub fn entry_info_from_child(m: &LocalChildManifest, confinement_point: Option<EntryId>) -> (r:
    EntryInfo)
    requires
        m.wf(),
    ensures
        info_matches_child(r, *m, confinement_point),
{
    match m {
        LocalChildManifest::File(fm) => EntryInfo::File {
            confinement_point,
            id: fm.base.id,
            created: fm.base.created,
            updated: fm.updated,
            base_version: fm.base.version,
            is_placeholder: fm.base.version == 0,
            need_sync: fm.need_sync,
            size: fm.size,
        },
        LocalChildManifest::Folder(fm) => EntryInfo::Folder {
            confinement_point,
            id: fm.base.id,
            created: fm.base.created,
            updated: fm.updated,
            base_version: fm.base.version,
            is_placeholder: fm.base.version == 0,
            need_sync: fm.need_sync,
            children: fm.children.keys(),
        },
    }
}

/// What a suspended summary assembly still has to do once the manifest it
/// asked for is in hand: continue walking the path, or summarize the entry
/// the walk already resolved.
#[derive(Debug)]
pub enum InfoPending {
    Walking(PathWalk),
    Projecting(FsPathResolution),
}

/// One round of summary assembly: a summary, a failure, or the entry whose
/// manifest must be fetched before assembly can go on.
#[derive(Debug)]
pub enum InfoStep {
    Done(EntryInfo),
    Failed(EntryInfoError),
    NeedManifest { entry_id: EntryId, pending: InfoPending },
}

/// `r` reports what the walk model concludes, lifted to summary assembly:
/// a resolved entry is summarized when its manifest is at hand and requested
/// otherwise, not-found surfaces as such, and a stalled walk is handed back.
pub open spec fn info_step_matches(
    storage: ManifestStorage,
    r: InfoStep,
    model: WalkModel,
    path: Seq<EntryName>,
) -> bool {
    match model {
        WalkModel::Resolved(res) => if storage.contents().contains_key(res.entry_id) {
            r matches InfoStep::Done(info) && info_matches_child(
                info,
                storage.contents()[res.entry_id],
                res.confinement_point,
            )
        } else {
            r matches InfoStep::NeedManifest { entry_id, pending } && entry_id == res.entry_id
                && pending == InfoPending::Projecting(res)
        },
        WalkModel::NotFound => r matches InfoStep::Failed(e) && e == EntryInfoError::NotFound,
        WalkModel::Missing { parent, next } => r matches InfoStep::NeedManifest {
            entry_id,
            pending,
        } && entry_id == parent.entry_id && (pending matches InfoPending::Walking(w) && w.parent
            == Some(parent) && w.next == next && w.path.parts@ == path && w.wf()),
    }
}

/// Lifts a walk conclusion to summary assembly: translates a failure
/// one-to-one, hands a stalled walk back, and summarizes a resolved entry
/// when its manifest is at hand — requesting it otherwise.
fn info_step_from_walk(storage: &ManifestStorage, step: WalkStep) -> (r: InfoStep)
    requires
        storage.wf(),
    ensures
        match step {
            WalkStep::Resolved(res) => if storage.contents().contains_key(res.entry_id) {
                r matches InfoStep::Done(info) && info_matches_child(
                    info,
                    storage.contents()[res.entry_id],
                    res.confinement_point,
                )
            } else {
                r matches InfoStep::NeedManifest { entry_id, pending } && entry_id == res.entry_id
                    && pending == InfoPending::Projecting(res)
            },
            WalkStep::Failed(e) => r matches InfoStep::Failed(ie) && ie == spec_path_to_info_error(
                e,
            ),
            WalkStep::NeedManifest { entry_id, walk } => r matches InfoStep::NeedManifest {
                entry_id: got_id,
                pending,
            } && got_id == entry_id && pending == InfoPending::Walking(walk),
        },
{
    match step {
        WalkStep::Resolved(res) => {
            match storage.get_child_manifest(res.entry_id) {
                Some(m) => {
                    proof {
                        storage.lemma_stored_wf(res.entry_id);
                    }
                    InfoStep::Done(entry_info_from_child(m, res.confinement_point))
                },
                None => InfoStep::NeedManifest {
                    entry_id: res.entry_id,
                    pending: InfoPending::Projecting(res),
                },
            }
        },
        WalkStep::Failed(e) => InfoStep::Failed(path_to_info_error(e)),
        WalkStep::NeedManifest { entry_id, walk } => InfoStep::NeedManifest {
            entry_id,
            pending: InfoPending::Walking(walk),
        },
    }
}

/// Assembles the summary of the entry at `path`.
///
/// The root path bypasses resolution: the root manifest is summarized
/// directly, confinement always none.  Any other path is walked as far as the
/// store allows; a missing manifest is reported for the caller to fetch,
/// after which [`entry_info_resume`] continues.  Each assembly is a
/// self-contained read: no state persists across calls.
pub fn entry_info(storage: &ManifestStorage, realm_id: EntryId, path: FsPath) -> (r: InfoStep)
    requires
        storage.wf(),
        path.wf(),
    ensures
        path.parts@.len() == 0 ==> (r matches InfoStep::Done(info) && info_matches_root(
            info,
            storage.workspace,
        )),
        path.parts@.len() > 0 ==> info_step_matches(
            *storage,
            r,
            walk_from(*storage, realm_id, path.parts@, 0, None),
            path.parts@,
        ),
{
    if path.is_root() {
        return InfoStep::Done(entry_info_root(storage.get_workspace_manifest()));
    }
    let step = resolve_path(storage, realm_id, path);
    info_step_from_walk(storage, step)
}

/// Continues a suspended summary assembly once the fetch outcome for the
/// requested manifest is in hand: commits the outcome — keeping a manifest a
/// concurrent resolution inserted meanwhile — then walks on or summarizes.
/// A failed fetch surfaces unchanged, translated one-to-one, the internal
/// kind annotated with the offending entry.
pub fn entry_info_resume(
    storage: &mut ManifestStorage,
    realm_id: EntryId,
    pending: InfoPending,
    fetched: Result<ChildManifest, FetchRemoteManifestError>,
) -> (r: InfoStep)
    requires
        old(storage).wf(),
        pending matches InfoPending::Walking(w) ==> w.wf() && w.parent is Some,
        fetched matches Ok(m) ==> m.wf(),
    ensures
        final(storage).wf(),
        final(storage).workspace == old(storage).workspace,
        match pending {
            InfoPending::Walking(w) => match fetched {
                Err(e) => final(storage).contents() == old(storage).contents() && (r
                    matches InfoStep::Failed(ie) && ie == spec_path_to_info_error(
                    spec_get_to_path_error(spec_fetch_to_get_error(e), w.parent->0.entry_id),
                )),
                Ok(rm) => info_step_matches(
                    *final(storage),
                    r,
                    walk_from(*final(storage), realm_id, w.path.parts@, w.next as int, w.parent),
                    w.path.parts@,
                ),
            },
            InfoPending::Projecting(res) => match fetched {
                Err(e) => final(storage).contents() == old(storage).contents() && (r
                    matches InfoStep::Failed(ie) && ie == spec_get_to_info_error(
                    spec_fetch_to_get_error(e),
                    res.entry_id,
                )),
                Ok(rm) => final(storage).contents().contains_key(res.entry_id) && (r
                    matches InfoStep::Done(info) && info_matches_child(
                    info,
                    final(storage).contents()[res.entry_id],
                    res.confinement_point,
                )),
            },
        },
{
    match pending {
        InfoPending::Walking(w) => {
            let step = resolve_path_resume(storage, realm_id, w, fetched);
            info_step_from_walk(storage, step)
        },
        InfoPending::Projecting(res) => {
            match get_child_manifest_commit(storage, res.entry_id, fetched) {
                Err(e) => InfoStep::Failed(get_to_info_error(e, res.entry_id)),
                Ok(m) => InfoStep::Done(entry_info_from_child(m, res.confinement_point)),
            }
        },
    }
}

/// The root listing is deterministic: a byte-wise sorted, duplicate-free
/// listing is pinned down by its set of names alone.  Two root summaries
/// taken over the same root manifest therefore carry identical child lists,
/// whatever enumeration order the store used internally.
pub proof fn lemma_root_listing_deterministic(xs: Seq<Seq<u8>>, ys: Seq<Seq<u8>>)
    requires
        sorted_by(xs, lex_leq_fn()),
        xs.no_duplicates(),
        sorted_by(ys, lex_leq_fn()),
        ys.no_duplicates(),
        forall|k: Seq<u8>| xs.contains(k) <==> ys.contains(k),
    ensures
        xs == ys,
{
    broadcast use vstd::seq_lib::group_to_multiset_ensures;

    assert(total_ordering(lex_leq_fn())) by {
        assert(reflexive(lex_leq_fn())) by {
            assert forall|x: Seq<u8>| #[trigger] (lex_leq_fn())(x, x) by {
                lemma_lex_le_refl_from(x, 0);
            }
        }
        assert(antisymmetric(lex_leq_fn())) by {
            assert forall|x: Seq<u8>, y: Seq<u8>|
                #[trigger] (lex_leq_fn())(x, y) && #[trigger] (lex_leq_fn())(y, x) implies x
                == y by {
                lemma_lex_le_antisym(x, y);
            }
        }
        assert(transitive(lex_leq_fn())) by {
            assert forall|x: Seq<u8>, y: Seq<u8>, z: Seq<u8>|
                #[trigger] (lex_leq_fn())(x, y) && #[trigger] (lex_leq_fn())(y, z) implies (
            lex_leq_fn())(x, z) by {
                lemma_lex_le_trans_from(x, y, z, 0);
            }
        }
        assert(strongly_connected(lex_leq_fn())) by {
            assert forall|x: Seq<u8>, y: Seq<u8>|
                #[trigger] (lex_leq_fn())(x, y) || #[trigger] (lex_leq_fn())(y, x) by {
                lemma_lex_le_total_from(x, y, 0);
            }
        }
    }
    xs.lemma_multiset_has_no_duplicates();
    ys.lemma_multiset_has_no_duplicates();
    assert(xs.to_multiset() =~= ys.to_multiset()) by {
        assert forall|k: Seq<u8>| xs.to_multiset().count(k) == ys.to_multiset().count(k) by {
            if xs.contains(k) {
                assert(xs.to_multiset().count(k) == 1 && ys.to_multiset().count(k) == 1);
            } else {
                assert(xs.to_multiset().count(k) == 0 && ys.to_multiset().count(k) == 0);
            }
        }
    }
    lemma_sorted_unique(xs, ys, lex_leq_fn());
    assert(xs =~= ys);
}

} // verus!
