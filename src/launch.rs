//! Assembly of the command line that launches a version.

use vstd::prelude::*;

use crate::config::Config;
use crate::launchermeta::{str_views, ResolvedManifest};
use crate::libraries::key_index;
use crate::msa::pair_views;

verus! {

/// Records the instance as the last one launched; other settings stay.
pub fn update_last_launched(config: &mut Config, instance_name: &str)
    ensures
        final(config).last_launched_instance@ == instance_name@,
        final(config).locale == old(config).locale,
        final(config).java == old(config).java,
{
    config.last_launched_instance = instance_name.to_owned();
}

/// Entries joined with a separator.
pub open spec fn join_with(es: Seq<Seq<char>>, sep: Seq<char>) -> Seq<char>
    decreases es.len(),
{
    if es.len() == 0 {
        Seq::empty()
    } else if es.len() == 1 {
        es[0]
    } else {
        join_with(es.drop_last(), sep) + sep + es.last()
    }
}

/// Class-path entries: each library artifact, then the client binary, under
/// the libraries root.
pub open spec fn classpath_entries(root: Seq<char>, m: ResolvedManifest) -> Seq<Seq<char>> {
    m.library_artifacts@.map_values(|a: crate::launchermeta::Artifact| root + "/"@ + a.path@).push(
        root + "/"@ + m.client_artifact.path@,
    )
}

/// The class path of a resolved version.
pub fn get_classpath(libraries_root: &str, resolved: &ResolvedManifest, separator: &str) -> (r: String)
    ensures
        r@ == join_with(classpath_entries(libraries_root@, *resolved), separator@),
{
    let ghost es = classpath_entries(libraries_root@, *resolved);
    let libs = &resolved.library_artifacts;
    let mut out = String::new();
    let mut i: usize = 0;
    while i < libs.len()
        invariant
            es == classpath_entries(libraries_root@, *resolved),
            libs == &resolved.library_artifacts,
            i <= libs.len(),
            out@ == join_with(es.subrange(0, i as int), separator@),
        decreases libs.len() - i,
    {
        assert(es.subrange(0, i + 1).drop_last() =~= es.subrange(0, i as int));
        if i > 0 {
            out.append(separator);
        } else {
            assert(out@ =~= Seq::<char>::empty());
        }
        out.append(libraries_root);
        out.append("/");
        out.append(libs[i].path.as_str());
        i += 1;
    }
    let n = libs.len();
    assert(es.subrange(0, n + 1).drop_last() =~= es.subrange(0, n as int));
    assert(es.subrange(0, n + 1) =~= es);
    if n > 0 {
        out.append(separator);
    } else {
        assert(out@ =~= Seq::<char>::empty());
    }
    out.append(libraries_root);
    out.append("/");
    out.append(resolved.client_artifact.path.as_str());
    out
}

/// An argument after substitution: the value of the first table entry whose
/// placeholder is the whole argument, or the argument itself.
pub open spec fn substituted(arg: Seq<char>, table: Seq<(String, String)>) -> Seq<char> {
    let k = key_index(table, arg, 0);
    if k < 0 {
        arg
    } else {
        table[k].1@
    }
}

fn substitute_one(arg: &String, table: &Vec<(String, String)>) -> (r: String)
    ensures
        r@ == substituted(arg@, table@),
{
    let mut i: usize = 0;
    while i < table.len()
        invariant
            i <= table.len(),
            key_index(table@, arg@, 0) == key_index(table@, arg@, i as int),
        decreases table.len() - i,
    {
        if table[i].0 == *arg {
            return table[i].1.clone();
        }
        i += 1;
    }
    arg.clone()
}

fn substitute_all(args: &Vec<String>, table: &Vec<(String, String)>, out: &mut Vec<String>)
    ensures
        str_views(final(out)@) == str_views(old(out)@) + str_views(args@).map_values(
            |a: Seq<char>| substituted(a, table@),
        ),
{
    let mut i: usize = 0;
    while i < args.len()
        invariant
            i <= args.len(),
            str_views(out@) == str_views(old(out)@) + str_views(args@.subrange(0, i as int)).map_values(
                |a: Seq<char>| substituted(a, table@),
            ),
        decreases args.len() - i,
    {
        let ghost before = out@;
        out.push(substitute_one(&args[i], table));
        assert(str_views(out@) =~= str_views(before).push(substituted(args@[i as int]@, table@)));
        assert(str_views(args@.subrange(0, i + 1)).map_values(|a: Seq<char>| substituted(a, table@))
            =~= str_views(args@.subrange(0, i as int)).map_values(|a: Seq<char>| substituted(a, table@)).push(
            substituted(args@[i as int]@, table@),
        ));
        i += 1;
    }
    assert(args@.subrange(0, args.len() as int) =~= args@);
}

/// The launch command's arguments: the JVM arguments, the main class, then
/// the game arguments, each argument put through its table.
pub fn launch_arguments(
    jvm_args: &Vec<String>,
    main_class: &String,
    game_args: &Vec<String>,
    jvm_table: &Vec<(String, String)>,
    game_table: &Vec<(String, String)>,
) -> (r: Vec<String>)
    ensures
        str_views(r@) == str_views(jvm_args@).map_values(|a: Seq<char>| substituted(a, jvm_table@))
            + seq![main_class@] + str_views(game_args@).map_values(
            |a: Seq<char>| substituted(a, game_table@),
        ),
{
    let mut out: Vec<String> = Vec::new();
    assert(str_views(out@) =~= Seq::<Seq<char>>::empty());
    substitute_all(jvm_args, jvm_table, &mut out);
    let ghost before = out@;
    out.push(main_class.clone());
    assert(str_views(out@) =~= str_views(before).push(main_class@));
    substitute_all(game_args, game_table, &mut out);
    out
}

/// Values that the JVM argument placeholders stand for.
pub fn jvm_substitutions(natives_dir: &str, launcher_name: &str, launcher_version: &str, classpath: &str) -> (r: Vec<(String, String)>)
    ensures
        pair_views(r@) == seq![
            ("-Djava.library.path=${natives_directory}"@, "-Djava.library.path="@ + natives_dir@),
            ("-Dminecraft.launcher.brand=${launcher_name}"@, "-Dminecraft.launcher.brand="@ + launcher_name@),
            ("-Dminecraft.launcher.version=${launcher_version}"@, "-Dminecraft.launcher.version="@ + launcher_version@),
            ("${classpath}"@, classpath@),
        ],
{
    let mut r: Vec<(String, String)> = Vec::new();
    let mut v = String::from_str("-Djava.library.path=");
    v.append(natives_dir);
    r.push((String::from_str("-Djava.library.path=${natives_directory}"), v));
    let mut v = String::from_str("-Dminecraft.launcher.brand=");
    v.append(launcher_name);
    r.push((String::from_str("-Dminecraft.launcher.brand=${launcher_name}"), v));
    let mut v = String::from_str("-Dminecraft.launcher.version=");
    v.append(launcher_version);
    r.push((String::from_str("-Dminecraft.launcher.version=${launcher_version}"), v));
    r.push((String::from_str("${classpath}"), classpath.to_owned()));
    assert(pair_views(r@) =~= seq![
        ("-Djava.library.path=${natives_directory}"@, "-Djava.library.path="@ + natives_dir@),
        ("-Dminecraft.launcher.brand=${launcher_name}"@, "-Dminecraft.launcher.brand="@ + launcher_name@),
        ("-Dminecraft.launcher.version=${launcher_version}"@, "-Dminecraft.launcher.version="@ + launcher_version@),
        ("${classpath}"@, classpath@),
    ]);
    r
}

/// What the game arguments of a launch are filled with.
#[derive(Debug)]
pub struct GameContext {
    pub player_name: String,
    pub version_name: String,
    pub game_directory: String,
    pub assets_root: String,
    pub assets_index_name: String,
    pub player_uuid: String,
    pub access_token: String,
    pub client_id: String,
    pub version_type: String,
}

/// Values that the game argument placeholders stand for.
pub fn game_substitutions(c: &GameContext) -> (r: Vec<(String, String)>)
    ensures
        pair_views(r@) == seq![
            ("${auth_player_name}"@, c.player_name@),
            ("${version_name}"@, c.version_name@),
            ("${game_directory}"@, c.game_directory@),
            ("${assets_root}"@, c.assets_root@),
            ("${assets_index_name}"@, c.assets_index_name@),
            ("${auth_uuid}"@, c.player_uuid@),
            ("${auth_access_token}"@, c.access_token@),
            ("${clientid}"@, c.client_id@),
            ("${user_type}"@, "mojang"@),
            ("${version_type}"@, c.version_type@),
        ],
{
    let mut r: Vec<(String, String)> = Vec::new();
    r.push((String::from_str("${auth_player_name}"), c.player_name.clone()));
    r.push((String::from_str("${version_name}"), c.version_name.clone()));
    r.push((String::from_str("${game_directory}"), c.game_directory.clone()));
    r.push((String::from_str("${assets_root}"), c.assets_root.clone()));
    r.push((String::from_str("${assets_index_name}"), c.assets_index_name.clone()));
    r.push((String::from_str("${auth_uuid}"), c.player_uuid.clone()));
    r.push((String::from_str("${auth_access_token}"), c.access_token.clone()));
    r.push((String::from_str("${clientid}"), c.client_id.clone()));
    r.push((String::from_str("${user_type}"), String::from_str("mojang")));
    r.push((String::from_str("${version_type}"), c.version_type.clone()));
    assert(pair_views(r@) =~= seq![
        ("${auth_player_name}"@, c.player_name@),
        ("${version_name}"@, c.version_name@),
        ("${game_directory}"@, c.game_directory@),
        ("${assets_root}"@, c.assets_root@),
        ("${assets_index_name}"@, c.assets_index_name@),
        ("${auth_uuid}"@, c.player_uuid@),
        ("${auth_access_token}"@, c.access_token@),
        ("${clientid}"@, c.client_id@),
        ("${user_type}"@, "mojang"@),
        ("${version_type}"@, c.version_type@),
    ]);
    r
}

} // verus!
