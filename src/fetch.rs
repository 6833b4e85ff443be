//! Idempotent, deduplicated fetch planning over a path-addressed store.

use vstd::prelude::*;

use crate::launchermeta::{artifact_views, Artifact, ArtifactView};

verus! {

/// What to do to make an artifact present.
#[derive(Clone, Copy, Debug, PartialEq, Eq, Structural)]
pub enum FetchAction {
    /// The destination exists: nothing is transferred.
    AlreadyPresent,
    /// The destination is missing: transfer it, then record it.
    Download,
}

/// Why fetching an artifact failed.
#[derive(Clone, Copy, Debug, PartialEq, Eq, Structural)]
pub enum FetchError {
    Network,
    Io,
    Decode,
}

/// The paths known to be present in a store.
#[derive(Debug)]
pub struct FetchLedger {
    present: Vec<String>,
}

/// Number of transfers that fetching the paths one after another makes,
/// starting from the set of present paths.
pub open spec fn transfers(present: Set<Seq<char>>, paths: Seq<Seq<char>>) -> nat
    decreases paths.len(),
{
    if paths.len() == 0 {
        0
    } else if present.contains(paths[0]) {
        transfers(present, paths.skip(1))
    } else {
        1 + transfers(present.insert(paths[0]), paths.skip(1))
    }
}

/// Whether a path stands in the store or among the first `n` artifacts.
pub open spec fn seen_before(present: Set<Seq<char>>, arts: Seq<ArtifactView>, n: int, path: Seq<char>) -> bool {
    present.contains(path) || exists|j: int| 0 <= j < n && #[trigger] arts[j].path == path
}

/// The artifacts among the first `n` that a batch fetch transfers: those whose
/// path is neither present nor taken by an earlier artifact of the batch.
pub open spec fn batch_upto(present: Set<Seq<char>>, arts: Seq<ArtifactView>, n: int) -> Seq<ArtifactView>
    decreases n,
{
    if n <= 0 {
        Seq::empty()
    } else if seen_before(present, arts, n - 1, arts[n - 1].path) {
        batch_upto(present, arts, n - 1)
    } else {
        batch_upto(present, arts, n - 1).push(arts[n - 1])
    }
}

impl View for FetchLedger {
    type V = Set<Seq<char>>;

    closed spec fn view(&self) -> Set<Seq<char>> {
        Set::new(|p: Seq<char>| exists|i: int| 0 <= i < self.present@.len() && #[trigger] self.present@[i]@ == p)
    }
}

impl FetchLedger {
    /// A ledger of the paths that a scan of the store found.
    pub fn new(present: Vec<String>) -> (r: FetchLedger)
        ensures
            r@ == Set::new(|p: Seq<char>| exists|i: int| 0 <= i < present@.len() && #[trigger] present@[i]@ == p),
    {
        FetchLedger { present }
    }

    /// Whether the path is present.
    pub fn contains(&self, path: &String) -> (r: bool)
        ensures
            r == self@.contains(path@),
    {
        let mut i: usize = 0;
        while i < self.present.len()
            invariant
                i <= self.present.len(),
                forall|j: int| 0 <= j < i ==> self.present@[j]@ != path@,
            decreases self.present.len() - i,
        {
            if self.present[i] == *path {
                return true;
            }
            i += 1;
        }
        false
    }

    /// What ensuring the artifact takes: a transfer exactly when its path is absent.
    pub fn plan(&self, artifact: &Artifact) -> (r: FetchAction)
        ensures
            r == (if self@.contains(artifact.path@) {
                FetchAction::AlreadyPresent
            } else {
                FetchAction::Download
            }),
    {
        if self.contains(&artifact.path) {
            FetchAction::AlreadyPresent
        } else {
            FetchAction::Download
        }
    }

    /// Records that a path has been placed in the store.
    pub fn record(&mut self, path: &String)
        ensures
            final(self)@ == old(self)@.insert(path@),
    {
        self.present.push(path.clone());
        let ghost n = old(self).present@.len();
        assert forall|p: Seq<char>| final(self)@.contains(p) <==> old(self)@.insert(path@).contains(p) by {
            if p == path@ {
                assert(final(self).present@[n as int]@ == p);
            }
            if old(self)@.contains(p) {
                let i = choose|i: int| 0 <= i < n && #[trigger] old(self).present@[i]@ == p;
                assert(final(self).present@[i]@ == p);
            }
        }
        assert(final(self)@ =~= old(self)@.insert(path@));
    }

    /// The artifacts of a batch that need a transfer: each missing path once,
    /// at its first occurrence, in batch order.
    pub fn plan_batch(&self, artifacts: &Vec<Artifact>) -> (r: Vec<Artifact>)
        ensures
            artifact_views(r@) == batch_upto(self@, artifact_views(artifacts@), artifacts@.len() as int),
    {
        let ghost arts = artifact_views(artifacts@);
        let mut seen = FetchLedger { present: self.present.clone() };
        assert(seen.present@ =~= self.present@) by {
            assert forall|i: int| 0 <= i < self.present@.len() implies seen.present@[i] == self.present@[i] by {}
        }
        let mut out: Vec<Artifact> = Vec::new();
        let mut i: usize = 0;
        while i < artifacts.len()
            invariant
                arts == artifact_views(artifacts@),
                i <= artifacts.len(),
                forall|p: Seq<char>| #[trigger] seen@.contains(p) == seen_before(self@, arts, i as int, p),
                artifact_views(out@) == batch_upto(self@, arts, i as int),
            decreases artifacts.len() - i,
        {
            let a = &artifacts[i];
            if !seen.contains(&a.path) {
                let ghost before = out@;
                out.push(a.clone());
                assert(artifact_views(out@) =~= artifact_views(before).push(arts[i as int]));
            }
            seen.record(&a.path);
            assert forall|p: Seq<char>| #[trigger] seen@.contains(p) == seen_before(self@, arts, i + 1, p) by {
                if p == a.path@ {
                    assert(arts[i as int].path == p);
                }
                if seen_before(self@, arts, i + 1, p) && !self@.contains(p) && p != a.path@ {
                    let j = choose|j: int| 0 <= j < i + 1 && #[trigger] arts[j].path == p;
                    assert(j < i);
                }
            }
            i += 1;
        }
        out
    }
}

/// Fetching an artifact twice transfers it at most once: once when it was
/// absent, never when it was present.
pub proof fn lemma_fetch_twice_transfers_once(present: Set<Seq<char>>, path: Seq<char>)
    ensures
        transfers(present, seq![path, path]) == (if present.contains(path) {
            0nat
        } else {
            1nat
        }),
{
    let ps = seq![path, path];
    assert(ps.skip(1) =~= seq![path]);
    assert(ps.skip(1).skip(1) =~= Seq::<Seq<char>>::empty());
    let rest = ps.skip(1);
    assert(rest[0] == path);
    assert(transfers(present.insert(path), rest) == transfers(present.insert(path), rest.skip(1)));
    assert(transfers(present.insert(path), rest.skip(1)) == 0);
    if present.contains(path) {
        assert(transfers(present, rest) == transfers(present, rest.skip(1)));
        assert(transfers(present, ps) == transfers(present, rest));
    } else {
        assert(transfers(present, ps) == 1 + transfers(present.insert(path), rest));
    }
}

} // verus!
