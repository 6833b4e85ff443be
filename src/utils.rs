//! Version lists: what is offered, what is installed.

use vstd::prelude::*;

use crate::version_manifest::Type;

verus! {

/// A version known to the launcher.
#[derive(Debug)]
pub struct Version {
    pub id: String,
    pub version_type: Type,
}

/// Whether some version of the list has the id.
pub open spec fn listed(vs: Seq<Version>, id: Seq<char>) -> bool {
    exists|i: int| 0 <= i < vs.len() && #[trigger] vs[i].id@ == id
}

/// Installed versions among the first `n` that the offered list lacks.
pub open spec fn extra_upto(offered: Seq<Version>, installed: Seq<Version>, n: int) -> Seq<Version>
    decreases n,
{
    if n <= 0 {
        Seq::empty()
    } else if listed(offered, installed[n - 1].id@) {
        extra_upto(offered, installed, n - 1)
    } else {
        extra_upto(offered, installed, n - 1).push(installed[n - 1])
    }
}

fn is_listed(vs: &Vec<Version>, id: &String) -> (r: bool)
    ensures
        r == listed(vs@, id@),
{
    let mut i: usize = 0;
    while i < vs.len()
        invariant
            i <= vs.len(),
            forall|j: int| 0 <= j < i ==> vs@[j].id@ != id@,
        decreases vs.len() - i,
    {
        if vs[i].id == *id {
            return true;
        }
        i += 1;
    }
    false
}

impl Clone for Version {
    fn clone(&self) -> (r: Self)
        ensures
            r == *self,
    {
        Version { id: self.id.clone(), version_type: self.version_type }
    }
}

/// Every version offered, in order, then each installed version whose id the
/// offered list lacks, in order.
pub fn get_available_versions(offered: Vec<Version>, installed: Vec<Version>) -> (r: Vec<Version>)
    ensures
        r@ == offered@ + extra_upto(offered@, installed@, installed@.len() as int),
{
    let mut extra: Vec<Version> = Vec::new();
    let mut i: usize = 0;
    while i < installed.len()
        invariant
            i <= installed.len(),
            extra@ == extra_upto(offered@, installed@, i as int),
        decreases installed.len() - i,
    {
        if !is_listed(&offered, &installed[i].id) {
            extra.push(installed[i].clone());
        }
        i += 1;
    }
    let mut out = offered;
    out.append(&mut extra);
    out
}

/// Whether a version can be launched: it is installed, or offered.
pub fn is_version_valid(id: &String, installed: bool, offered: &Vec<Version>) -> (r: bool)
    ensures
        r == (installed || listed(offered@, id@)),
{
    installed || is_listed(offered, id)
}

/// The Java executable used when the settings name none.
pub fn get_java_executable() -> (r: String)
    ensures
        r@ == "java"@,
{
    String::from_str("java")
}

} // verus!
