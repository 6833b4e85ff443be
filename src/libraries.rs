//! Selection of the libraries and natives bundles that apply on a platform.

use vstd::prelude::*;

use crate::launchermeta::{artifact_views, Artifact, ArtifactView, Library, ManifestError};
use crate::rules::{applies, evaluate, normalize_os, normalized_os, views, Platform};

verus! {

/// Position of the first entry at or after `i` whose key is `key`, or -1.
pub open spec fn key_index<V>(m: Seq<(String, V)>, key: Seq<char>, i: int) -> int
    decreases m.len() - i,
{
    if i < 0 || i >= m.len() {
        -1
    } else if m[i].0@ == key {
        i
    } else {
        key_index(m, key, i + 1)
    }
}

proof fn lemma_key_index_bounds<V>(m: Seq<(String, V)>, key: Seq<char>, i: int)
    requires
        0 <= i,
    ensures
        key_index(m, key, i) == -1 || (i <= key_index(m, key, i) < m.len() && m[key_index(
            m,
            key,
            i,
        )].0@ == key),
    decreases m.len() - i,
{
    if i < m.len() && m[i].0@ != key {
        lemma_key_index_bounds(m, key, i + 1);
    }
}

/// Finds the first entry with the given key.
fn find_key<V>(m: &Vec<(String, V)>, key: &String) -> (r: Option<usize>)
    ensures
        match r {
            Some(i) => i as int == key_index(m@, key@, 0) && i < m.len(),
            None => key_index(m@, key@, 0) == -1,
        },
{
    let mut i: usize = 0;
    while i < m.len()
        invariant
            i <= m.len(),
            key_index(m@, key@, 0) == key_index(m@, key@, i as int),
        decreases m.len() - i,
    {
        if m[i].0 == *key {
            return Some(i);
        }
        i += 1;
    }
    None
}

/// Whether a library applies: it has no rules, or its rules allow it.
pub open spec fn lib_applies(lib: Library, platform: Platform) -> bool {
    match lib.rules {
        None => true,
        Some(rs) => applies(views(rs@), platform),
    }
}

/// The natives bundle a library contributes on the platform: none when it
/// declares no natives for this system, an error when the classifier it names
/// is not among its downloads.
pub open spec fn native_of(lib: Library, platform: Platform) -> Result<Option<ArtifactView>, ManifestError> {
    match lib.natives {
        None => Ok(None),
        Some(ns) => {
            let k = key_index(ns@, normalize_os(platform.os_name@), 0);
            if k < 0 {
                Ok(None)
            } else {
                match lib.downloads.classifiers {
                    None => Err(ManifestError::MissingPlatformArtifact),
                    Some(cs) => {
                        let j = key_index(cs@, ns@[k].1@, 0);
                        if j < 0 {
                            Err(ManifestError::MissingPlatformArtifact)
                        } else {
                            Ok(Some(cs@[j].1@))
                        }
                    },
                }
            }
        },
    }
}

/// Artifacts of the applicable libraries among the first `n`, in order.
pub open spec fn artifacts_upto(libs: Seq<Library>, platform: Platform, n: int) -> Seq<ArtifactView>
    decreases n,
{
    if n <= 0 {
        Seq::empty()
    } else if lib_applies(libs[n - 1], platform) {
        artifacts_upto(libs, platform, n - 1).push(libs[n - 1].downloads.artifact@)
    } else {
        artifacts_upto(libs, platform, n - 1)
    }
}

/// Natives bundles of the applicable libraries among the first `n`, in order;
/// the first library whose bundle is missing makes it an error.
pub open spec fn natives_upto(libs: Seq<Library>, platform: Platform, n: int) -> Result<Seq<ArtifactView>, ManifestError>
    decreases n,
{
    if n <= 0 {
        Ok(Seq::empty())
    } else {
        match natives_upto(libs, platform, n - 1) {
            Err(e) => Err(e),
            Ok(prev) => if !lib_applies(libs[n - 1], platform) {
                Ok(prev)
            } else {
                match native_of(libs[n - 1], platform) {
                    Err(e) => Err(e),
                    Ok(None) => Ok(prev),
                    Ok(Some(a)) => Ok(prev.push(a)),
                }
            },
        }
    }
}

/// Whether the library applies on the platform.
pub fn is_valid_lib(lib: &Library, platform: &Platform) -> (r: bool)
    ensures
        r == lib_applies(*lib, *platform),
{
    match &lib.rules {
        None => true,
        Some(rs) => evaluate(rs, platform),
    }
}

/// The natives bundle that the library contributes on the platform.
pub fn get_native_artifact(lib: &Library, platform: &Platform) -> (r: Result<Option<Artifact>, ManifestError>)
    ensures
        match (r, native_of(*lib, *platform)) {
            (Ok(Some(a)), Ok(Some(v))) => a@ == v,
            (Ok(None), Ok(None)) => true,
            (Err(e), Err(f)) => e == f,
            _ => false,
        },
{
    let natives = match &lib.natives {
        None => return Ok(None),
        Some(ns) => ns,
    };
    let os = normalized_os(&platform.os_name);
    let k = match find_key(natives, &os) {
        None => return Ok(None),
        Some(k) => k,
    };
    let classifiers = match &lib.downloads.classifiers {
        None => return Err(ManifestError::MissingPlatformArtifact),
        Some(cs) => cs,
    };
    match find_key(classifiers, &natives[k].1) {
        None => Err(ManifestError::MissingPlatformArtifact),
        Some(j) => Ok(Some(classifiers[j].1.clone())),
    }
}

/// Artifacts of the libraries that apply on the platform, in manifest order.
pub fn get_artifacts(libs: &Vec<Library>, platform: &Platform) -> (r: Vec<Artifact>)
    ensures
        artifact_views(r@) == artifacts_upto(libs@, *platform, libs@.len() as int),
{
    let mut out: Vec<Artifact> = Vec::new();
    let mut i: usize = 0;
    while i < libs.len()
        invariant
            i <= libs.len(),
            artifact_views(out@) == artifacts_upto(libs@, *platform, i as int),
        decreases libs.len() - i,
    {
        if is_valid_lib(&libs[i], platform) {
            let ghost before = out@;
            out.push(libs[i].downloads.artifact.clone());
            assert(artifact_views(out@) =~= artifact_views(before).push(libs@[i as int].downloads.artifact@));
        }
        i += 1;
    }
    out
}

/// Natives bundles of the libraries that apply on the platform, in manifest
/// order, or the error of the first library whose bundle is missing.
pub fn get_native_artifacts(libs: &Vec<Library>, platform: &Platform) -> (r: Result<Vec<Artifact>, ManifestError>)
    ensures
        match (r, natives_upto(libs@, *platform, libs@.len() as int)) {
            (Ok(v), Ok(s)) => artifact_views(v@) == s,
            (Err(e), Err(f)) => e == f,
            _ => false,
        },
{
    let mut out: Vec<Artifact> = Vec::new();
    assert(artifact_views(out@) =~= Seq::<ArtifactView>::empty());
    let mut i: usize = 0;
    while i < libs.len()
        invariant
            i <= libs.len(),
            natives_upto(libs@, *platform, i as int) == Ok::<Seq<ArtifactView>, ManifestError>(
                artifact_views(out@),
            ),
        decreases libs.len() - i,
    {
        if is_valid_lib(&libs[i], platform) {
            match get_native_artifact(&libs[i], platform) {
                Err(e) => {
                    assert(natives_upto(libs@, *platform, i + 1) == Err::<Seq<ArtifactView>, ManifestError>(e));
                    proof {
                        lemma_natives_error_sticks(libs@, *platform, i + 1, libs@.len() as int);
                    }
                    return Err(e);
                },
                Ok(None) => {},
                Ok(Some(a)) => {
                    let ghost before = out@;
                    out.push(a);
                    assert(artifact_views(out@) =~= artifact_views(before).push(a@));
                },
            }
        }
        i += 1;
    }
    Ok(out)
}

proof fn lemma_natives_error_sticks(libs: Seq<Library>, platform: Platform, i: int, n: int)
    requires
        0 < i <= n,
        natives_upto(libs, platform, i) is Err,
    ensures
        natives_upto(libs, platform, n) == natives_upto(libs, platform, i),
    decreases n - i,
{
    if i < n {
        lemma_natives_error_sticks(libs, platform, i, n - 1);
    }
}

} // verus!
