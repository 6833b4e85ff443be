//! Version manifest schema and its resolution into artifacts.

use vstd::prelude::*;

use crate::fetch::{lemma_fetch_twice_transfers_once, transfers};
use crate::libraries::{artifacts_upto, get_artifacts, get_native_artifacts, natives_upto};
use crate::rules::{applies, evaluate, opt_view, views, Platform};
use crate::version_meta::{
    Action, Arguments, AssetIndex, ClientMappingsClass, Features, GameElement, JvmElement, Value,
};

verus! {

/// Operating-system predicate of a rule; an absent field is not checked.
#[derive(Debug)]
pub struct Os {
    pub name: Option<String>,
    pub version: Option<String>,
    pub arch: Option<String>,
}

/// One platform rule: when its predicates hold, it sets the outcome to its action.
#[derive(Debug)]
pub struct Rule {
    pub action: Action,
    pub os: Option<Os>,
    pub features: Option<Features>,
}

/// A file to fetch: where it goes under its store, and where it comes from.
#[derive(Debug)]
pub struct Artifact {
    pub path: String,
    pub url: String,
    pub size: Option<u64>,
    pub sha1: Option<String>,
}

/// What an artifact is, as plain values.
pub struct ArtifactView {
    pub path: Seq<char>,
    pub url: Seq<char>,
    pub size: Option<u64>,
    pub sha1: Option<Seq<char>>,
}

impl View for Artifact {
    type V = ArtifactView;

    open spec fn view(&self) -> ArtifactView {
        ArtifactView { path: self.path@, url: self.url@, size: self.size, sha1: opt_view(self.sha1) }
    }
}

impl Clone for Artifact {
    fn clone(&self) -> (r: Self)
        ensures
            r == *self,
    {
        let sha1 = match &self.sha1 {
            Some(h) => Some(h.clone()),
            None => None,
        };
        Artifact { path: self.path.clone(), url: self.url.clone(), size: self.size, sha1 }
    }
}

pub open spec fn artifact_views(v: Seq<Artifact>) -> Seq<ArtifactView> {
    v.map_values(|a: Artifact| a@)
}

/// Downloads of a library: its own artifact, and per-classifier artifacts
/// (natives bundles) keyed by classifier name.
#[derive(Debug)]
pub struct LibDownloads {
    pub artifact: Artifact,
    pub classifiers: Option<Vec<(String, Artifact)>>,
}

/// A library of a version; `natives` maps an operating-system name to the
/// classifier of its natives bundle.
#[derive(Debug)]
pub struct Library {
    pub downloads: LibDownloads,
    pub name: String,
    pub natives: Option<Vec<(String, String)>>,
    pub rules: Option<Vec<Rule>>,
}

/// Downloads of a version as a whole.
#[derive(Debug)]
pub struct Downloads {
    pub client: ClientMappingsClass,
}

/// Why a manifest could not be resolved.
#[derive(Clone, Copy, Debug, PartialEq, Eq, Structural)]
pub enum ManifestError {
    /// No manifest is known for the version.
    NotFound,
    /// The manifest is not a valid document of the expected schema.
    Decode,
    /// A library names a natives bundle for this system that it does not provide.
    MissingPlatformArtifact,
}

/// A version manifest.
#[derive(Debug)]
pub struct MinecraftMeta {
    pub arguments: Arguments,
    pub id: String,
    pub asset_index: AssetIndex,
    pub downloads: Downloads,
    pub libraries: Vec<Library>,
    pub main_class: String,
}

pub open spec fn str_views(v: Seq<String>) -> Seq<Seq<char>> {
    v.map_values(|s: String| s@)
}

/// The arguments that a value contributes.
pub open spec fn value_args(v: Value) -> Seq<Seq<char>> {
    match v {
        Value::String(s) => seq![s@],
        Value::StringArray(a) => str_views(a@),
    }
}

pub open spec fn game_element_args(e: GameElement, platform: Platform) -> Seq<Seq<char>> {
    match e {
        GameElement::String(s) => seq![s@],
        GameElement::GameClass(c) => if applies(views(c.rules@), platform) {
            value_args(c.value)
        } else {
            Seq::empty()
        },
    }
}

pub open spec fn jvm_element_args(e: JvmElement, platform: Platform) -> Seq<Seq<char>> {
    match e {
        JvmElement::String(s) => seq![s@],
        JvmElement::JvmClass(c) => if applies(views(c.rules@), platform) {
            value_args(c.value)
        } else {
            Seq::empty()
        },
    }
}

/// The game arguments of the first `n` entries, flattened in manifest order.
pub open spec fn game_args_upto(es: Seq<GameElement>, platform: Platform, n: int) -> Seq<Seq<char>>
    decreases n,
{
    if n <= 0 {
        Seq::empty()
    } else {
        game_args_upto(es, platform, n - 1) + game_element_args(es[n - 1], platform)
    }
}

/// The JVM arguments of the first `n` entries, flattened in manifest order.
pub open spec fn jvm_args_upto(es: Seq<JvmElement>, platform: Platform, n: int) -> Seq<Seq<char>>
    decreases n,
{
    if n <= 0 {
        Seq::empty()
    } else {
        jvm_args_upto(es, platform, n - 1) + jvm_element_args(es[n - 1], platform)
    }
}

/// Appends the arguments of a value to `out`.
fn push_value(v: &Value, out: &mut Vec<String>)
    ensures
        str_views(final(out)@) == str_views(old(out)@) + value_args(*v),
{
    match v {
        Value::String(s) => {
            out.push(s.clone());
            assert(str_views(final(out)@) =~= str_views(old(out)@) + value_args(*v));
        },
        Value::StringArray(a) => {
            let mut i: usize = 0;
            while i < a.len()
                invariant
                    i <= a.len(),
                    str_views(out@) == str_views(old(out)@) + str_views(a@.subrange(0, i as int)),
                decreases a.len() - i,
            {
                let ghost before = out@;
                out.push(a[i].clone());
                assert(str_views(out@) =~= str_views(before).push(a@[i as int]@));
                assert(str_views(a@.subrange(0, i + 1)) =~= str_views(a@.subrange(0, i as int))
                    .push(a@[i as int]@));
                assert(str_views(out@) =~= str_views(old(out)@) + str_views(a@.subrange(0, i + 1)));
                i += 1;
            }
            assert(a@.subrange(0, a.len() as int) =~= a@);
        },
    }
}

/// JVM arguments of the manifest: plain entries as they are, conditional
/// entries only where their rules apply, in manifest order.
pub fn get_jvm_args(minecraft_meta: &MinecraftMeta, platform: &Platform) -> (r: Vec<String>)
    ensures
        str_views(r@) == jvm_args_upto(
            minecraft_meta.arguments.jvm@,
            *platform,
            minecraft_meta.arguments.jvm@.len() as int,
        ),
{
    let es = &minecraft_meta.arguments.jvm;
    let mut out: Vec<String> = Vec::new();
    let mut i: usize = 0;
    while i < es.len()
        invariant
            i <= es.len(),
            str_views(out@) == jvm_args_upto(es@, *platform, i as int),
        decreases es.len() - i,
    {
        match &es[i] {
            JvmElement::String(s) => {
                let ghost before = out@;
                out.push(s.clone());
                assert(str_views(out@) =~= str_views(before).push(s@));
            },
            JvmElement::JvmClass(c) => {
                if evaluate(&c.rules, platform) {
                    push_value(&c.value, &mut out);
                } else {
                    assert(str_views(out@) =~= str_views(out@) + Seq::<Seq<char>>::empty());
                }
            },
        }
        i += 1;
    }
    out
}

/// Game arguments of the manifest: plain entries as they are, conditional
/// entries only where their rules apply, in manifest order.
pub fn get_game_args(minecraft_meta: &MinecraftMeta, platform: &Platform) -> (r: Vec<String>)
    ensures
        str_views(r@) == game_args_upto(
            minecraft_meta.arguments.game@,
            *platform,
            minecraft_meta.arguments.game@.len() as int,
        ),
{
    let es = &minecraft_meta.arguments.game;
    let mut out: Vec<String> = Vec::new();
    let mut i: usize = 0;
    while i < es.len()
        invariant
            i <= es.len(),
            str_views(out@) == game_args_upto(es@, *platform, i as int),
        decreases es.len() - i,
    {
        match &es[i] {
            GameElement::String(s) => {
                let ghost before = out@;
                out.push(s.clone());
                assert(str_views(out@) =~= str_views(before).push(s@));
            },
            GameElement::GameClass(c) => {
                if evaluate(&c.rules, platform) {
                    push_value(&c.value, &mut out);
                } else {
                    assert(str_views(out@) =~= str_views(out@) + Seq::<Seq<char>>::empty());
                }
            },
        }
        i += 1;
    }
    out
}

/// Where the client binary of a version goes under the libraries root.
pub open spec fn client_jar_path(id: Seq<char>) -> Seq<char> {
    "com/mojang/minecraft/"@ + id + "/minecraft-"@ + id + "-client.jar"@
}

/// The client binary of a version as an artifact.
pub open spec fn client_artifact_of(meta: MinecraftMeta) -> ArtifactView {
    ArtifactView {
        path: client_jar_path(meta.id@),
        url: meta.downloads.client.url@,
        size: Some(meta.downloads.client.size),
        sha1: Some(meta.downloads.client.sha1@),
    }
}

/// What a version resolves to on a platform.
#[derive(Debug)]
pub struct ResolvedManifest {
    pub version_id: String,
    pub client_artifact: Artifact,
    pub library_artifacts: Vec<Artifact>,
    pub native_artifacts: Vec<Artifact>,
    pub asset_index_id: String,
    pub asset_index_url: String,
    pub main_class: String,
    pub jvm_args: Vec<String>,
    pub game_args: Vec<String>,
}

/// A resolved manifest as plain values.
pub struct ResolvedView {
    pub version_id: Seq<char>,
    pub client_artifact: ArtifactView,
    pub library_artifacts: Seq<ArtifactView>,
    pub native_artifacts: Seq<ArtifactView>,
    pub asset_index_id: Seq<char>,
    pub asset_index_url: Seq<char>,
    pub main_class: Seq<char>,
    pub jvm_args: Seq<Seq<char>>,
    pub game_args: Seq<Seq<char>>,
}

impl View for ResolvedManifest {
    type V = ResolvedView;

    open spec fn view(&self) -> ResolvedView {
        ResolvedView {
            version_id: self.version_id@,
            client_artifact: self.client_artifact@,
            library_artifacts: artifact_views(self.library_artifacts@),
            native_artifacts: artifact_views(self.native_artifacts@),
            asset_index_id: self.asset_index_id@,
            asset_index_url: self.asset_index_url@,
            main_class: self.main_class@,
            jvm_args: str_views(self.jvm_args@),
            game_args: str_views(self.game_args@),
        }
    }
}

/// What `meta` resolves to on `platform`: the client binary, the artifacts
/// of the libraries whose rules allow them, their natives bundles for this
/// system, the asset index, and the argument lists with conditional entries
/// kept only where their rules apply.
pub open spec fn resolution(meta: MinecraftMeta, platform: Platform) -> Result<ResolvedView, ManifestError> {
    match natives_upto(meta.libraries@, platform, meta.libraries@.len() as int) {
        Err(e) => Err(e),
        Ok(natives) => Ok(
            ResolvedView {
                version_id: meta.id@,
                client_artifact: client_artifact_of(meta),
                library_artifacts: artifacts_upto(
                    meta.libraries@,
                    platform,
                    meta.libraries@.len() as int,
                ),
                native_artifacts: natives,
                asset_index_id: meta.asset_index.id@,
                asset_index_url: meta.asset_index.url@,
                main_class: meta.main_class@,
                jvm_args: jvm_args_upto(
                    meta.arguments.jvm@,
                    platform,
                    meta.arguments.jvm@.len() as int,
                ),
                game_args: game_args_upto(
                    meta.arguments.game@,
                    platform,
                    meta.arguments.game@.len() as int,
                ),
            },
        ),
    }
}

/// Whether `r` is what resolving `meta` on `platform` yields.
pub open spec fn resolves_to(meta: MinecraftMeta, platform: Platform, r: Result<ResolvedManifest, ManifestError>) -> bool {
    match (r, resolution(meta, platform)) {
        (Ok(m), Ok(v)) => m@ == v,
        (Err(e), Err(f)) => e == f,
        _ => false,
    }
}

/// The client binary of a version as an artifact.
pub fn client_artifact(minecraft_meta: &MinecraftMeta) -> (r: Artifact)
    ensures
        r@ == client_artifact_of(*minecraft_meta),
{
    let id = minecraft_meta.id.as_str();
    let mut path = String::from_str("com/mojang/minecraft/");
    path.append(id);
    path.append("/minecraft-");
    path.append(id);
    path.append("-client.jar");
    let client = &minecraft_meta.downloads.client;
    Artifact {
        path,
        url: client.url.clone(),
        size: Some(client.size),
        sha1: Some(client.sha1.clone()),
    }
}

/// Resolves a manifest against the platform.
pub fn resolve(minecraft_meta: &MinecraftMeta, platform: &Platform) -> (r: Result<ResolvedManifest, ManifestError>)
    ensures
        resolves_to(*minecraft_meta, *platform, r),
{
    let native_artifacts = match get_native_artifacts(&minecraft_meta.libraries, platform) {
        Err(e) => return Err(e),
        Ok(v) => v,
    };
    let m = ResolvedManifest {
        version_id: minecraft_meta.id.clone(),
        client_artifact: client_artifact(minecraft_meta),
        library_artifacts: get_artifacts(&minecraft_meta.libraries, platform),
        native_artifacts,
        asset_index_id: minecraft_meta.asset_index.id.clone(),
        asset_index_url: minecraft_meta.asset_index.url.clone(),
        main_class: minecraft_meta.main_class.clone(),
        jvm_args: get_jvm_args(minecraft_meta, platform),
        game_args: get_game_args(minecraft_meta, platform),
    };
    Ok(m)
}

/// Where the manifest of a version is kept, under the base directory.
pub open spec fn manifest_path(version_id: Seq<char>) -> Seq<char> {
    "meta/net.minecraft/"@ + version_id + ".json"@
}

/// Where the manifest of a version is kept, under the base directory.
pub fn get_minecraft_manifest_path(minecraft_version: &str) -> (r: String)
    ensures
        r@ == manifest_path(minecraft_version@),
{
    let mut path = String::from_str("meta/net.minecraft/");
    path.append(minecraft_version);
    path.append(".json");
    path
}

/// The manifest of a version as an artifact to fetch.
pub fn manifest_artifact(minecraft_version: &str, url: &str) -> (r: Artifact)
    ensures
        r.path@ == manifest_path(minecraft_version@),
        r.url@ == url@,
        r.size.is_none(),
        r.sha1.is_none(),
{
    Artifact { path: get_minecraft_manifest_path(minecraft_version), url: url.to_owned(), size: None, sha1: None }
}

/// Resolving a version twice while its manifest stays cached: the manifest is
/// transferred at most once (never on the second resolution, since the first
/// one leaves it present), and the two resolutions of the cached manifest
/// yield the same manifest.
pub proof fn lemma_resolve_twice(
    present: Set<Seq<char>>,
    meta: MinecraftMeta,
    platform: Platform,
    first: Result<ResolvedManifest, ManifestError>,
    second: Result<ResolvedManifest, ManifestError>,
)
    requires
        resolves_to(meta, platform, first),
        resolves_to(meta, platform, second),
    ensures
        transfers(present, seq![manifest_path(meta.id@), manifest_path(meta.id@)]) <= 1,
        transfers(present.insert(manifest_path(meta.id@)), seq![manifest_path(meta.id@)]) == 0,
        match (first, second) {
            (Ok(a), Ok(b)) => a@ == b@,
            (Err(e), Err(f)) => e == f,
            _ => false,
        },
{
    let p = manifest_path(meta.id@);
    lemma_fetch_twice_transfers_once(present, p);
    let once = seq![p];
    assert(present.insert(p).contains(p));
    assert(once.skip(1) =~= Seq::<Seq<char>>::empty());
    assert(transfers(present.insert(p), once) == transfers(present.insert(p), once.skip(1)));
}

} // verus!
