use mc_launcher_core::accounts::{Account, AccountStore};
use mc_launcher_core::config::get_default_config;
use mc_launcher_core::fetch::{FetchAction, FetchLedger};
use mc_launcher_core::launch::{
    game_substitutions, get_classpath, jvm_substitutions, launch_arguments, update_last_launched,
    GameContext,
};
use mc_launcher_core::launchermeta::{Artifact, ResolvedManifest};
use mc_launcher_core::msa::IdentityToken;
use mc_launcher_core::profile::ServiceSession;
use mc_launcher_core::staging::entry_target;
use mc_launcher_core::utils::{get_available_versions, get_java_executable, is_version_valid, Version};
use mc_launcher_core::version_manifest::{Latest, Type};

fn artifact(path: &str) -> Artifact {
    Artifact { path: path.to_string(), url: format!("https://x/{path}"), size: None, sha1: None }
}

fn account(id: &str, token: &str) -> Account {
    Account {
        id: id.to_string(),
        identity: IdentityToken { access_token: "A".to_string(), refresh_token: "R".to_string(), expires_at: 0 },
        session: ServiceSession {
            access_token: token.to_string(),
            token_type: "Bearer".to_string(),
            subject_id: id.to_string(),
            display_name: "Steve".to_string(),
            expires_at: None,
        },
    }
}

#[test]
fn ensure_fetched_twice_transfers_once() {
    let mut ledger = FetchLedger::new(Vec::new());
    let a = artifact("lib/a.jar");
    let mut transfers = 0;
    for _ in 0..2 {
        if ledger.plan(&a) == FetchAction::Download {
            transfers += 1;
            ledger.record(&a.path);
        }
    }
    assert_eq!(transfers, 1);
    let present = FetchLedger::new(vec!["lib/a.jar".to_string()]);
    assert_eq!(present.plan(&a), FetchAction::AlreadyPresent);
}

#[test]
fn batch_plan_deduplicates_and_skips_present() {
    let ledger = FetchLedger::new(vec!["b.jar".to_string()]);
    let batch = vec![artifact("a.jar"), artifact("b.jar"), artifact("a.jar"), artifact("c.jar")];
    let todo = ledger.plan_batch(&batch);
    let paths: Vec<String> = todo.iter().map(|a| a.path.clone()).collect();
    assert_eq!(paths, vec!["a.jar", "c.jar"]);
    assert!(ledger.contains(&"b.jar".to_string()));
    assert!(!ledger.contains(&"a.jar".to_string()));
}

#[test]
fn traversal_entries_are_skipped() {
    assert_eq!(entry_target("../../evil"), None);
    assert_eq!(entry_target("a/../../evil"), None);
    assert_eq!(entry_target("/etc/passwd"), None);
    assert_eq!(entry_target("\\windows\\x.dll"), None);
    assert_eq!(entry_target("C:evil.dll"), None);
    assert_eq!(entry_target("META-INF/"), None);
    assert_eq!(entry_target("."), None);
    assert_eq!(entry_target(""), None);
}

#[test]
fn regular_entries_are_normalized() {
    assert_eq!(entry_target("liblwjgl.so"), Some("liblwjgl.so".to_string()));
    assert_eq!(entry_target("a/../b.so"), Some("b.so".to_string()));
    assert_eq!(entry_target("x/./y//z.dll"), Some("x/y/z.dll".to_string()));
    assert_eq!(entry_target("dir\\lib.dylib"), Some("dir/lib.dylib".to_string()));
    assert_eq!(entry_target("lib:x.so"), Some("lib:x.so".to_string()));
    assert_eq!(entry_target("x/C:y.so"), Some("x/C:y.so".to_string()));
}

#[test]
fn accounts_add_replace_remove() {
    let mut store = AccountStore::get_new_config();
    assert_eq!(store.format_version, "0");
    store.add(account("u1", "t1"));
    store.add(account("u2", "t2"));
    store.add(account("u1", "t3"));
    assert_eq!(store.accounts.len(), 2);
    assert_eq!(store.accounts[0].session.access_token, "t3");
    assert!(store.contains(&"u2".to_string()));
    assert!(store.replace_identity(
        &"u2".to_string(),
        IdentityToken { access_token: "N".to_string(), refresh_token: "R2".to_string(), expires_at: 9 }
    ));
    assert_eq!(store.accounts[1].identity.refresh_token, "R2");
    assert!(store.remove(&"u1".to_string()));
    assert!(!store.remove(&"u1".to_string()));
    assert_eq!(store.accounts.len(), 1);
    assert_eq!(store.find(&"u2".to_string()), Some(0));
}

#[test]
fn default_config_and_last_launched() {
    let mut c = get_default_config();
    assert_eq!(c.locale, "en");
    assert_eq!(c.java.path, "java");
    assert_eq!(c.java.memory, "2G");
    assert!(c.last_launched_instance.is_empty());
    update_last_launched(&mut c, "survival");
    assert_eq!(c.last_launched_instance, "survival");
    assert_eq!(c.java.memory, "2G");
    assert_eq!(get_java_executable(), "java");
}

#[test]
fn classpath_and_launch_arguments() {
    let resolved = ResolvedManifest {
        version_id: "1.19.2".to_string(),
        client_artifact: artifact("com/mojang/minecraft/1.19.2/minecraft-1.19.2-client.jar"),
        library_artifacts: vec![artifact("a.jar"), artifact("b.jar")],
        native_artifacts: vec![],
        asset_index_id: "1.19".to_string(),
        asset_index_url: "u".to_string(),
        main_class: "Main".to_string(),
        jvm_args: vec![],
        game_args: vec![],
    };
    let cp = get_classpath("/libs", &resolved, ":");
    assert_eq!(cp, "/libs/a.jar:/libs/b.jar:/libs/com/mojang/minecraft/1.19.2/minecraft-1.19.2-client.jar");
    let jvm_table = jvm_substitutions("/natives", "launcher", "0.1.0", &cp);
    let ctx = GameContext {
        player_name: "Steve".to_string(),
        version_name: "1.19.2".to_string(),
        game_directory: ".".to_string(),
        assets_root: "/assets".to_string(),
        assets_index_name: "1.19".to_string(),
        player_uuid: "uuid".to_string(),
        access_token: "FINAL".to_string(),
        client_id: "launcher 0.1.0".to_string(),
        version_type: "release".to_string(),
    };
    let game_table = game_substitutions(&ctx);
    let jvm = vec!["-Djava.library.path=${natives_directory}".to_string(), "-cp".to_string(), "${classpath}".to_string()];
    let game = vec!["--username".to_string(), "${auth_player_name}".to_string(), "--accessToken".to_string(), "${auth_access_token}".to_string(), "${user_type}".to_string()];
    let args = launch_arguments(&jvm, &"Main".to_string(), &game, &jvm_table, &game_table);
    assert_eq!(
        args,
        vec![
            "-Djava.library.path=/natives".to_string(),
            "-cp".to_string(),
            cp.clone(),
            "Main".to_string(),
            "--username".to_string(),
            "Steve".to_string(),
            "--accessToken".to_string(),
            "FINAL".to_string(),
            "mojang".to_string(),
        ]
    );
}

#[test]
fn available_versions_merge_installed() {
    let offered = vec![
        Version { id: "1.20".to_string(), version_type: Type::Release },
        Version { id: "23w01a".to_string(), version_type: Type::Snapshot },
    ];
    let installed = vec![
        Version { id: "1.20".to_string(), version_type: Type::Release },
        Version { id: "custom".to_string(), version_type: Type::Release },
    ];
    assert!(is_version_valid(&"custom".to_string(), true, &offered));
    assert!(is_version_valid(&"23w01a".to_string(), false, &offered));
    assert!(!is_version_valid(&"custom".to_string(), false, &offered));
    let all = get_available_versions(offered, installed);
    let ids: Vec<String> = all.iter().map(|v| v.id.clone()).collect();
    assert_eq!(ids, vec!["1.20", "23w01a", "custom"]);
    let latest = Latest { release: "1.20".to_string(), snapshot: "23w01a".to_string() };
    assert_eq!(latest.newest(true), "23w01a");
    assert_eq!(latest.newest(false), "1.20");
}
