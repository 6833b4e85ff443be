//! Asset objects: content-addressed files named by their hash.

use vstd::prelude::*;

use crate::fetch::FetchError;
use crate::launchermeta::{artifact_views, Artifact, ArtifactView, ResolvedManifest};

verus! {

/// An asset index: each asset's name and the hash of its object.
#[derive(Debug)]
pub struct AssetIndex {
    pub objects: Vec<(String, String)>,
}

pub open spec fn resources_url() -> Seq<char> {
    "https://resources.download.minecraft.net/"@
}

/// The artifact of the object with a given hash: stored and served under
/// the hash's first two characters.
pub open spec fn object_of(hash: Seq<char>) -> ArtifactView {
    ArtifactView {
        path: "objects/"@ + hash.subrange(0, 2) + "/"@ + hash,
        url: resources_url() + hash.subrange(0, 2) + "/"@ + hash,
        size: None,
        sha1: Some(hash),
    }
}

/// The artifact of the asset object with the given hash; `None` when the
/// hash is shorter than two characters.
pub fn asset_object(hash: &str) -> (r: Option<Artifact>)
    ensures
        hash@.len() < 2 ==> r.is_none(),
        hash@.len() >= 2 ==> r is Some && r.unwrap()@ == object_of(hash@),
{
    if hash.unicode_len() < 2 {
        return None;
    }
    let prefix = hash.substring_char(0, 2);
    let mut path = String::from_str("objects/");
    path.append(prefix);
    path.append("/");
    path.append(hash);
    let mut url = String::from_str("https://resources.download.minecraft.net/");
    url.append(prefix);
    url.append("/");
    url.append(hash);
    Some(Artifact { path, url, size: None, sha1: Some(hash.to_owned()) })
}

/// Objects of the first `n` entries of an index, in order.
pub open spec fn objects_upto(objects: Seq<(String, String)>, n: int) -> Seq<ArtifactView>
    decreases n,
{
    if n <= 0 {
        Seq::empty()
    } else {
        objects_upto(objects, n - 1).push(object_of(objects[n - 1].1@))
    }
}

/// The object artifacts of an index, in index order; a hash shorter than two
/// characters makes the index undecodable.
pub fn asset_artifacts(index: &AssetIndex) -> (r: Result<Vec<Artifact>, FetchError>)
    ensures
        (exists|i: int| 0 <= i < index.objects@.len() && #[trigger] index.objects@[i].1@.len() < 2)
            ==> r == Err::<Vec<Artifact>, FetchError>(FetchError::Decode),
        (forall|i: int| 0 <= i < index.objects@.len() ==> #[trigger] index.objects@[i].1@.len() >= 2)
            ==> r is Ok && artifact_views(r.unwrap()@) == objects_upto(
            index.objects@,
            index.objects@.len() as int,
        ),
{
    let objs = &index.objects;
    let mut out: Vec<Artifact> = Vec::new();
    let mut i: usize = 0;
    while i < objs.len()
        invariant
            objs@ == index.objects@,
            i <= objs.len(),
            forall|j: int| 0 <= j < i ==> #[trigger] objs@[j].1@.len() >= 2,
            artifact_views(out@) == objects_upto(objs@, i as int),
        decreases objs.len() - i,
    {
        match asset_object(objs[i].1.as_str()) {
            None => {
                assert(index.objects@[i as int].1@.len() < 2);
                return Err(FetchError::Decode);
            },
            Some(a) => {
                let ghost before = out@;
                out.push(a);
                assert(artifact_views(out@) =~= artifact_views(before).push(object_of(objs@[i as int].1@)));
            },
        }
        i += 1;
    }
    Ok(out)
}

/// The asset index document of a resolved version.
pub fn asset_index_artifact(resolved: &ResolvedManifest) -> (r: Artifact)
    ensures
        r.path@ == "indexes/"@ + resolved.asset_index_id@ + ".json"@,
        r.url == resolved.asset_index_url,
        r.size.is_none(),
        r.sha1.is_none(),
{
    let mut path = String::from_str("indexes/");
    path.append(resolved.asset_index_id.as_str());
    path.append(".json");
    Artifact { path, url: resolved.asset_index_url.clone(), size: None, sha1: None }
}

} // verus!
