//! The list of versions that the content service offers.

use vstd::prelude::*;

verus! {

/// Release channel of a version.
#[derive(Clone, Copy, Debug, PartialEq, Eq, Structural)]
pub enum Type {
    OldAlpha,
    OldBeta,
    Release,
    Snapshot,
}

/// Newest release and newest snapshot.
#[derive(Debug)]
pub struct Latest {
    pub release: String,
    pub snapshot: String,
}

impl Latest {
    /// The newest version of a channel: the snapshot when snapshots are
    /// wanted, else the release.
    pub fn newest(&self, snapshots: bool) -> (r: &String)
        ensures
            r == (if snapshots {
                &self.snapshot
            } else {
                &self.release
            }),
    {
        if snapshots {
            &self.snapshot
        } else {
            &self.release
        }
    }
}

} // verus!
