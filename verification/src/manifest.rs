//! Manifests: the versioned metadata records of tree entries.
//!
//! A *remote* manifest is what the remote service hands back for an entry; a
//! *local* manifest is the cached form the manifest store holds.  Converting a
//! remote manifest to its local form clears the placeholder fields: the local
//! copy starts in sync and with an empty confinement set.

use vstd::prelude::*;
use crate::ids::{EntryId, Timestamp};
use crate::name::{names_view, EntryName};

verus! {

/// The immutable snapshot of the last server-acknowledged state of an entry.
/// Version 0 means "never synced": a placeholder.
#[derive(Clone, Copy, PartialEq, Eq, Structural, Debug)]
pub struct ManifestBase {
    pub id: EntryId,
    pub created: Timestamp,
    pub version: u32,
}

/// A mapping from child name to child entry identifier, with byte-wise
/// distinct names.
#[derive(Debug)]
pub struct ChildrenMap {
    entries: Vec<(EntryName, EntryId)>,
}

/// The abstract content of a run of `(name, id)` pairs, later pairs winning.
pub closed spec fn pairs_to_map(s: Seq<(EntryName, EntryId)>) -> Map<Seq<u8>, EntryId>
    decreases s.len(),
{
    if s.len() == 0 {
        Map::empty()
    } else {
        pairs_to_map(s.drop_last()).insert(s.last().0@, s.last().1)
    }
}

impl View for ChildrenMap {
    type V = Map<Seq<u8>, EntryId>;

    closed spec fn view(&self) -> Map<Seq<u8>, EntryId> {
        pairs_to_map(self.entries@)
    }
}

/// Names in `s` are well formed and pairwise distinct.
spec fn pairs_wf(s: Seq<(EntryName, EntryId)>) -> bool {
    &&& forall|i: int| 0 <= i < s.len() ==> (#[trigger] s[i]).0.wf()
    &&& forall|i: int, j: int| 0 <= i < j < s.len() ==> s[i].0@ != s[j].0@
}

proof fn lemma_pairs_to_map_props(s: Seq<(EntryName, EntryId)>)
    requires
        pairs_wf(s),
    ensures
        forall|k: Seq<u8>|
            #[trigger] pairs_to_map(s).contains_key(k) <==> exists|i: int|
                0 <= i < s.len() && s[i].0@ == k,
        forall|i: int|
            0 <= i < s.len() ==> pairs_to_map(s).contains_key(#[trigger] s[i].0@)
                && pairs_to_map(s)[s[i].0@] == s[i].1,
    decreases s.len(),
{
    if s.len() > 0 {
        lemma_pairs_to_map_props(s.drop_last());
        assert forall|i: int| 0 <= i < s.len() implies pairs_to_map(s).contains_key(
            #[trigger] s[i].0@,
        ) && pairs_to_map(s)[s[i].0@] == s[i].1 by {
            if i < s.len() - 1 {
                assert(s.drop_last()[i] == s[i]);
                assert(s[i].0@ != s.last().0@);
            }
        }
        assert forall|k: Seq<u8>| #[trigger] pairs_to_map(s).contains_key(k) implies exists|i: int|
            0 <= i < s.len() && s[i].0@ == k by {
            if k != s.last().0@ {
                assert(pairs_to_map(s.drop_last()).contains_key(k));
                let i = choose|i: int| 0 <= i < s.drop_last().len() && s.drop_last()[i].0@ == k;
                assert(s.drop_last()[i] == s[i]);
                assert(s[i].0@ == k);
            } else {
                assert(s[s.len() - 1].0@ == k);
            }
        }
        assert forall|k: Seq<u8>| (exists|i: int| 0 <= i < s.len() && s[i].0@ == k) implies
            #[trigger] pairs_to_map(s).contains_key(k) by {
            let i = choose|i: int| 0 <= i < s.len() && s[i].0@ == k;
            if i < s.len() - 1 {
                assert(s.drop_last()[i].0@ == k);
            }
        }
    }
}

impl ChildrenMap {
    /// The map's invariant: well-formed, byte-wise distinct names.
    pub closed spec fn wf(&self) -> bool {
        pairs_wf(self.entries@)
    }

    /// An empty mapping.
    pub fn new() -> (r: ChildrenMap)
        ensures
            r@ == Map::<Seq<u8>, EntryId>::empty(),
            r.wf(),
    {
        ChildrenMap { entries: Vec::new() }
    }

    /// Adds a child under a name not yet present.
    pub fn insert(&mut self, name: EntryName, id: EntryId)
        requires
            old(self).wf(),
            name.wf(),
            !old(self)@.contains_key(name@),
        ensures
            final(self).wf(),
            final(self)@ == old(self)@.insert(name@, id),
    {
        proof {
            lemma_pairs_to_map_props(self.entries@);
        }
        let ghost before = self.entries@;
        self.entries.push((name, id));
        proof {
            assert(self.entries@.drop_last() =~= before);
            assert forall|i: int, j: int|
                0 <= i < j < self.entries@.len() implies self.entries@[i].0@
                != self.entries@[j].0@ by {
                if j == self.entries@.len() - 1 {
                    assert(before[i] == self.entries@[i]);
                    assert(exists|p: int| 0 <= p < before.len() && before[p].0@ == before[i].0@);
                }
            }
        }
    }

    /// Looks a name up, byte-wise.
    pub fn get(&self, name: &EntryName) -> (r: Option<EntryId>)
        requires
            self.wf(),
        ensures
            match r {
                Some(id) => self@.contains_key(name@) && self@[name@] == id,
                None => !self@.contains_key(name@),
            },
    {
        proof {
            lemma_pairs_to_map_props(self.entries@);
        }
        let mut i: usize = 0;
        while i < self.entries.len()
            invariant
                self.wf(),
                i <= self.entries@.len(),
                forall|j: int| 0 <= j < i ==> (#[trigger] self.entries@[j]).0@ != name@,
            decreases self.entries@.len() - i,
        {
            if self.entries[i].0.is_same(name) {
                proof {
                    lemma_pairs_to_map_props(self.entries@);
                }
                return Some(self.entries[i].1);
            }
            i += 1;
        }
        proof {
            lemma_pairs_to_map_props(self.entries@);
        }
        None
    }

    /// The names held by the map, in insertion order.
    pub fn keys(&self) -> (r: Vec<EntryName>)
        requires
            self.wf(),
        ensures
            names_view(r@).no_duplicates(),
            forall|k: Seq<u8>| names_view(r@).contains(k) <==> self@.contains_key(k),
            forall|i: int| 0 <= i < r@.len() ==> (#[trigger] r@[i]).wf(),
    {
        proof {
            lemma_pairs_to_map_props(self.entries@);
        }
        let mut r: Vec<EntryName> = Vec::new();
        let mut i: usize = 0;
        while i < self.entries.len()
            invariant
                self.wf(),
                i <= self.entries@.len(),
                r@.len() == i,
                forall|j: int| 0 <= j < i ==> names_view(r@)[j] == (#[trigger] self.entries@[j]).0@,
                forall|j: int| 0 <= j < i ==> (#[trigger] r@[j]).wf(),
            decreases self.entries@.len() - i,
        {
            r.push(self.entries[i].0.clone());
            i += 1;
        }
        proof {
            assert forall|a: int, b: int|
                0 <= a < names_view(r@).len() && 0 <= b < names_view(r@).len() && a != b implies
                names_view(r@)[a] != names_view(r@)[b] by {
                if a < b {
                    assert(self.entries@[a].0@ != self.entries@[b].0@);
                } else {
                    assert(self.entries@[b].0@ != self.entries@[a].0@);
                }
            }
            assert forall|k: Seq<u8>| names_view(r@).contains(k) implies self@.contains_key(k) by {
                let j = choose|j: int| 0 <= j < r@.len() && names_view(r@)[j] == k;
                assert(self.entries@[j].0@ == k);
            }
            assert forall|k: Seq<u8>| self@.contains_key(k) implies names_view(r@).contains(k) by {
                let j = choose|j: int| 0 <= j < self.entries@.len() && self.entries@[j].0@ == k;
                assert(names_view(r@)[j] == k);
            }
        }
        r
    }
}

/// Cached metadata of a file entry.
#[derive(Clone, Copy, PartialEq, Eq, Structural, Debug)]
pub struct LocalFileManifest {
    pub base: ManifestBase,
    pub updated: Timestamp,
    pub need_sync: bool,
    pub size: u64,
}

/// Cached metadata of a folder entry: its children and the identifiers of
/// children hidden from synchronization by a local name filter.
#[derive(Debug)]
pub struct LocalFolderManifest {
    pub base: ManifestBase,
    pub updated: Timestamp,
    pub need_sync: bool,
    pub children: ChildrenMap,
    pub local_confinement_points: Vec<EntryId>,
}

impl LocalFolderManifest {
    /// The folder's invariant.
    pub open spec fn wf(&self) -> bool {
        self.children.wf()
    }
}

/// Cached metadata of the workspace root.  The root is always resident in the
/// manifest store and can never itself be confined.
#[derive(Debug)]
pub struct LocalWorkspaceManifest {
    pub base: ManifestBase,
    pub updated: Timestamp,
    pub need_sync: bool,
    pub children: ChildrenMap,
    pub local_confinement_points: Vec<EntryId>,
}

impl LocalWorkspaceManifest {
    /// The root manifest's invariant.
    pub open spec fn wf(&self) -> bool {
        self.children.wf()
    }
}

/// A cached child manifest: the closed set of kinds a child entry can have.
#[derive(Debug)]
pub enum LocalChildManifest {
    File(LocalFileManifest),
    Folder(LocalFolderManifest),
}

impl LocalChildManifest {
    /// The manifest's invariant.
    pub open spec fn wf(&self) -> bool {
        match self {
            LocalChildManifest::File(_) => true,
            LocalChildManifest::Folder(m) => m.wf(),
        }
    }

    /// The entry identifier the manifest describes.
    pub open spec fn spec_id(&self) -> EntryId {
        match self {
            LocalChildManifest::File(m) => m.base.id,
            LocalChildManifest::Folder(m) => m.base.id,
        }
    }

    /// The last server-acknowledged version.
    pub open spec fn spec_version(&self) -> u32 {
        match self {
            LocalChildManifest::File(m) => m.base.version,
            LocalChildManifest::Folder(m) => m.base.version,
        }
    }
}

/// What the remote service reports for a file entry.
#[derive(Clone, Copy, PartialEq, Eq, Structural, Debug)]
pub struct RemoteFileManifest {
    pub id: EntryId,
    pub created: Timestamp,
    pub updated: Timestamp,
    pub version: u32,
    pub size: u64,
}

/// What the remote service reports for a folder entry.
#[derive(Debug)]
pub struct RemoteFolderManifest {
    pub id: EntryId,
    pub created: Timestamp,
    pub updated: Timestamp,
    pub version: u32,
    pub children: ChildrenMap,
}

/// A child manifest as fetched from the remote service.
#[derive(Debug)]
pub enum ChildManifest {
    File(RemoteFileManifest),
    Folder(RemoteFolderManifest),
}

impl ChildManifest {
    /// The fetched manifest's invariant.
    pub open spec fn wf(&self) -> bool {
        match self {
            ChildManifest::File(_) => true,
            ChildManifest::Folder(m) => m.children.wf(),
        }
    }

    /// The entry identifier the fetched manifest describes.
    pub open spec fn spec_id(&self) -> EntryId {
        match self {
            ChildManifest::File(m) => m.id,
            ChildManifest::Folder(m) => m.id,
        }
    }

    /// The fetched version.
    pub open spec fn spec_version(&self) -> u32 {
        match self {
            ChildManifest::File(m) => m.version,
            ChildManifest::Folder(m) => m.version,
        }
    }
}

/// The local form of a fetched file manifest.
pub open spec fn file_from_remote(remote: RemoteFileManifest) -> LocalFileManifest {
    LocalFileManifest {
        base: ManifestBase { id: remote.id, created: remote.created, version: remote.version },
        updated: remote.updated,
        need_sync: false,
        size: remote.size,
    }
}

impl LocalFileManifest {
    /// Converts a fetched file manifest into its local form: in sync with the
    /// fetched state.
    pub fn from_remote(remote: RemoteFileManifest) -> (r: LocalFileManifest)
        ensures
            r == file_from_remote(remote),
    {
        LocalFileManifest {
            base: ManifestBase {
                id: remote.id,
                created: remote.created,
                version: remote.version,
            },
            updated: remote.updated,
            need_sync: false,
            size: remote.size,
        }
    }
}

impl LocalFolderManifest {
    /// Converts a fetched folder manifest into its local form: in sync with
    /// the fetched state and with an empty confinement set.
    pub fn from_remote(remote: RemoteFolderManifest) -> (r: LocalFolderManifest)
        ensures
            r.base == (ManifestBase {
                id: remote.id,
                created: remote.created,
                version: remote.version,
            }),
            r.updated == remote.updated,
            !r.need_sync,
            r.children@ == remote.children@,
            r.children.wf() == remote.children.wf(),
            r.local_confinement_points@ == Seq::<EntryId>::empty(),
    {
        let r = LocalFolderManifest {
            base: ManifestBase {
                id: remote.id,
                created: remote.created,
                version: remote.version,
            },
            updated: remote.updated,
            need_sync: false,
            children: remote.children,
            local_confinement_points: Vec::new(),
        };
        proof {
            assert(r.local_confinement_points@ =~= Seq::<EntryId>::empty());
        }
        r
    }
}

/// Field-wise: `lm` is the local form of the fetched manifest `rm`.
pub open spec fn local_matches_remote(lm: LocalChildManifest, rm: ChildManifest) -> bool {
    match (lm, rm) {
        (LocalChildManifest::File(l), ChildManifest::File(r)) => l == file_from_remote(r),
        (LocalChildManifest::Folder(l), ChildManifest::Folder(r)) => {
            &&& l.base == ManifestBase { id: r.id, created: r.created, version: r.version }
            &&& l.updated == r.updated
            &&& !l.need_sync
            &&& l.children@ == r.children@
            &&& l.local_confinement_points@ == Seq::<EntryId>::empty()
        },
        _ => false,
    }
}

} // verus!
