//! The local manifest store.
//!
//! This models the local-first persistence collaborator at the interface the
//! resolution machinery consumes: the always-resident workspace root manifest,
//! a lookup of cached child manifests by entry identifier, and a single
//! insert-on-miss mutation.  The store is the sole owner of cached manifests;
//! readers receive shared borrows.

use vstd::prelude::*;
use crate::ids::EntryId;
use crate::manifest::{LocalChildManifest, LocalWorkspaceManifest};

verus! {

/// The local manifest store.
#[derive(Debug)]
pub struct ManifestStorage {
    pub workspace: LocalWorkspaceManifest,
    pub entries: Vec<(EntryId, LocalChildManifest)>,
}

/// The abstract content of a run of `(id, manifest)` pairs, later pairs
/// winning.
spec fn pairs_to_map(s: Seq<(EntryId, LocalChildManifest)>) -> Map<EntryId, LocalChildManifest>
    decreases s.len(),
{
    if s.len() == 0 {
        Map::empty()
    } else {
        pairs_to_map(s.drop_last()).insert(s.last().0, s.last().1)
    }
}

/// Identifiers in `s` are pairwise distinct and the manifests well formed.
spec fn pairs_wf(s: Seq<(EntryId, LocalChildManifest)>) -> bool {
    &&& forall|i: int| 0 <= i < s.len() ==> (#[trigger] s[i]).1.wf()
    &&& forall|i: int, j: int| 0 <= i < j < s.len() ==> s[i].0 != s[j].0
}

proof fn lemma_pairs_to_map_props(s: Seq<(EntryId, LocalChildManifest)>)
    requires
        pairs_wf(s),
    ensures
        forall|k: EntryId|
            #[trigger] pairs_to_map(s).contains_key(k) <==> exists|i: int|
                0 <= i < s.len() && s[i].0 == k,
        forall|i: int|
            0 <= i < s.len() ==> pairs_to_map(s).contains_key(#[trigger] s[i].0)
                && pairs_to_map(s)[s[i].0] == s[i].1,
    decreases s.len(),
{
    if s.len() > 0 {
        lemma_pairs_to_map_props(s.drop_last());
        assert forall|i: int| 0 <= i < s.len() implies pairs_to_map(s).contains_key(
            #[trigger] s[i].0,
        ) && pairs_to_map(s)[s[i].0] == s[i].1 by {
            if i < s.len() - 1 {
                assert(s.drop_last()[i] == s[i]);
                assert(s[i].0 != s.last().0);
            }
        }
        assert forall|k: EntryId| #[trigger] pairs_to_map(s).contains_key(k) implies exists|i: int|
            0 <= i < s.len() && s[i].0 == k by {
            if k != s.last().0 {
                assert(pairs_to_map(s.drop_last()).contains_key(k));
                let i = choose|i: int| 0 <= i < s.drop_last().len() && s.drop_last()[i].0 == k;
                assert(s.drop_last()[i] == s[i]);
                assert(s[i].0 == k);
            } else {
                assert(s[s.len() - 1].0 == k);
            }
        }
        assert forall|k: EntryId| (exists|i: int| 0 <= i < s.len() && s[i].0 == k) implies
            #[trigger] pairs_to_map(s).contains_key(k) by {
            let i = choose|i: int| 0 <= i < s.len() && s[i].0 == k;
            if i < s.len() - 1 {
                assert(s.drop_last()[i].0 == k);
            }
        }
    }
}

impl ManifestStorage {
    /// The cached child manifests, by entry identifier.
    pub closed spec fn contents(&self) -> Map<EntryId, LocalChildManifest> {
        pairs_to_map(self.entries@)
    }

    /// The store's invariant: a well-formed root and well-formed, uniquely
    /// keyed child manifests.
    pub open spec fn wf(&self) -> bool {
        self.workspace.wf() && self.entries_wf()
    }

    /// The invariant of the cached entries.
    pub closed spec fn entries_wf(&self) -> bool {
        pairs_wf(self.entries@)
    }

    /// Every cached manifest is well formed.
    pub proof fn lemma_stored_wf(&self, id: EntryId)
        requires
            self.wf(),
            self.contents().contains_key(id),
        ensures
            self.contents()[id].wf(),
    {
        lemma_pairs_to_map_props(self.entries@);
        let i = choose|i: int| 0 <= i < self.entries@.len() && self.entries@[i].0 == id;
        assert(self.contents()[self.entries@[i].0] == self.entries@[i].1);
    }

    /// A store holding only the workspace root.
    pub fn new(workspace: LocalWorkspaceManifest) -> (r: ManifestStorage)
        ensures
            r.workspace == workspace,
            r.contents() == Map::<EntryId, LocalChildManifest>::empty(),
            workspace.wf() ==> r.wf(),
    {
        ManifestStorage { workspace, entries: Vec::new() }
    }

    /// The always-resident workspace root manifest.
    pub fn get_workspace_manifest(&self) -> (r: &LocalWorkspaceManifest)
        ensures
            *r == self.workspace,
    {
        &self.workspace
    }

    /// Looks a cached child manifest up.
    pub fn get_child_manifest(&self, entry_id: EntryId) -> (r: Option<&LocalChildManifest>)
        requires
            self.wf(),
        ensures
            match r {
                Some(m) => self.contents().contains_key(entry_id)
                    && *m == self.contents()[entry_id],
                None => !self.contents().contains_key(entry_id),
            },
    {
        proof {
            lemma_pairs_to_map_props(self.entries@);
        }
        let mut i: usize = 0;
        while i < self.entries.len()
            invariant
                self.wf(),
                i <= self.entries@.len(),
                forall|j: int| 0 <= j < i ==> (#[trigger] self.entries@[j]).0 != entry_id,
            decreases self.entries@.len() - i,
        {
            if self.entries[i].0 == entry_id {
                proof {
                    lemma_pairs_to_map_props(self.entries@);
                }
                return Some(&self.entries[i].1);
            }
            i += 1;
        }
        proof {
            lemma_pairs_to_map_props(self.entries@);
        }
        None
    }

    /// Caches a manifest for an entry that has none yet.  This is the single
    /// mutation the resolution machinery ever performs on the store.
    pub fn insert_child_manifest(&mut self, entry_id: EntryId, manifest: LocalChildManifest)
        requires
            old(self).wf(),
            manifest.wf(),
            !old(self).contents().contains_key(entry_id),
        ensures
            final(self).wf(),
            final(self).workspace == old(self).workspace,
            final(self).contents() == old(self).contents().insert(entry_id, manifest),
    {
        proof {
            lemma_pairs_to_map_props(self.entries@);
        }
        let ghost before = self.entries@;
        self.entries.push((entry_id, manifest));
        proof {
            assert(self.entries@.drop_last() =~= before);
            assert forall|i: int, j: int|
                0 <= i < j < self.entries@.len() implies self.entries@[i].0
                != self.entries@[j].0 by {
                if j == self.entries@.len() - 1 {
                    assert(before[i] == self.entries@[i]);
                    assert(exists|p: int| 0 <= p < before.len() && before[p].0 == before[i].0);
                }
            }
        }
    }
}

} // verus!
