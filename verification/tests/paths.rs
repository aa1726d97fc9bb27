use cdr_runtime_core::runtime_paths::discovery::{environment_value, first_path, user_home, PathDiscoveryError};
use cdr_runtime_core::runtime_paths::helpers::{clean_executable, expand_home, is_windowsapps, join_path};
use cdr_runtime_core::runtime_paths::store_paths;
use cdr_runtime_core::runtime_paths::{
    ExecutableProbes, PathInputs, PathPlan, PathSource, RuntimePathError, RuntimePaths,
};

fn env(pairs: &[(&str, &str)]) -> Vec<(String, String)> {
    pairs.iter().map(|(a, b)| (a.to_string(), b.to_string())).collect()
}

fn inputs() -> PathInputs {
    PathInputs::new("/srv/bot".to_owned(), "/home/u".to_owned(), vec![], vec![])
}

fn no_probes() -> ExecutableProbes {
    ExecutableProbes { configured_is_file: false, newest_local: None, sandbox_is_file: false, path_candidates: vec![] }
}

#[test]
fn joins_and_home_expansion() {
    assert_eq!(join_path("/a", "b", '/'), "/a/b");
    assert_eq!(join_path("/a/", "b", '/'), "/a/b");
    assert_eq!(join_path("", "b", '/'), "b");
    assert_eq!(join_path("/a", "/abs", '/'), "/abs");
    assert_eq!(join_path("C:\\x", "y", '\\'), "C:\\x\\y");
    assert_eq!(expand_home("~", "/home/u", '/'), "/home/u");
    assert_eq!(expand_home("~/x", "/home/u", '/'), "/home/u/x");
    assert_eq!(expand_home("~\\x", "C:\\Users\\u", '\\'), "C:\\Users\\u\\x");
    assert_eq!(expand_home("~x", "/home/u", '/'), "~x");
}

#[test]
fn configured_executable_is_cleaned() {
    assert_eq!(clean_executable("  C:\\codex.exe,0 "), "C:\\codex.exe");
    assert_eq!(clean_executable("\"C:\\codex.exe\",0"), "C:\\codex.exe\"");
    assert_eq!(clean_executable("'codex'"), "codex");
    assert_eq!(clean_executable("\"\""), "");
    assert!(is_windowsapps("C:\\Program Files\\WindowsApps\\codex.exe"));
    assert!(is_windowsapps("/x/windowsapps/y"));
    assert!(!is_windowsapps("C:\\WindowsAppsX\\codex.exe"));
}

#[test]
fn plan_uses_defaults_under_home_and_root() {
    let plan = RuntimePaths::plan(&env(&[]), &inputs(), '/', "codex");
    assert_eq!(plan.codex_home, "/home/u/.codex");
    assert_eq!(plan.root, "/srv/bot");
    assert_eq!(plan.mirror_db, "/srv/bot/discord_mirror.sqlite");
    assert_eq!(plan.state_db, None);
    assert_eq!(plan.bridge_state, "/home/u/.codex/codex_desktop_bridge_state.json");
    assert_eq!(plan.log_db, "/home/u/.codex/logs_2.sqlite");
    assert_eq!(plan.global_state, "/home/u/.codex/.codex-global-state.json");
    assert_eq!(plan.session_index, "/home/u/.codex/session_index.jsonl");
    assert_eq!(plan.archived_sessions, "/home/u/.codex/archived_sessions");
    assert_eq!(plan.maintenance_backup_root, "/home/u/.codex/maintenance_backups");
    assert_eq!(plan.attachment_dir, "/srv/bot/.codex-discord-attachments");
    assert_eq!(plan.configured_exe, None);
    assert_eq!(plan.sandbox_exe, "/home/u/.codex/.sandbox-bin/codex");
}

#[test]
fn plan_honours_environment_overrides() {
    let e = env(&[
        ("CODEX_HOME", " ~/ch "),
        ("CODEX_DISCORD_ROOT", "/r"),
        ("CODEX_STATE_DB", "~/state.sqlite"),
        ("CODEX_LOG_DB", "   "),
        ("CODEX_EXE", "\"~/bin/codex\""),
    ]);
    let plan = RuntimePaths::plan(&e, &inputs(), '/', "codex");
    assert_eq!(plan.codex_home, "/home/u/ch");
    assert_eq!(plan.mirror_db, "/r/discord_mirror.sqlite");
    assert_eq!(plan.state_db.as_deref(), Some("/home/u/state.sqlite"));
    assert_eq!(plan.log_db, "/home/u/ch/logs_2.sqlite");
    assert_eq!(plan.configured_exe.as_deref(), Some("/home/u/bin/codex"));
}

fn plan_with(configured: Option<&str>) -> PathPlan {
    let mut plan = RuntimePaths::plan(&env(&[]), &inputs(), '/', "codex");
    plan.configured_exe = configured.map(str::to_owned);
    plan
}

#[test]
fn executable_choice_follows_priority() {
    let configured = plan_with(Some("/opt/codex"));
    let mut probes = no_probes();
    assert_eq!(
        RuntimePaths::choose_executable(&configured, &probes),
        Err(RuntimePathError::ConfiguredExecutableMissing("/opt/codex".to_owned()))
    );
    probes.configured_is_file = true;
    assert_eq!(
        RuntimePaths::choose_executable(&configured, &probes),
        Ok(("/opt/codex".to_owned(), PathSource::Environment))
    );
    let plan = plan_with(None);
    let mut probes = no_probes();
    probes.path_candidates = vec![
        ("/missing/codex".to_owned(), false),
        ("C:\\Users\\u\\AppData\\Local\\Microsoft\\WindowsApps\\codex.exe".to_owned(), true),
        ("/usr/bin/codex".to_owned(), true),
    ];
    assert_eq!(
        RuntimePaths::choose_executable(&plan, &probes),
        Ok(("/usr/bin/codex".to_owned(), PathSource::Path))
    );
    probes.sandbox_is_file = true;
    assert_eq!(
        RuntimePaths::choose_executable(&plan, &probes),
        Ok(("/home/u/.codex/.sandbox-bin/codex".to_owned(), PathSource::SandboxBin))
    );
    probes.newest_local = Some("/local/codex".to_owned());
    assert_eq!(
        RuntimePaths::choose_executable(&plan, &probes),
        Ok(("/local/codex".to_owned(), PathSource::LocalAppBin))
    );
}

#[test]
fn windowsapps_alias_alone_is_refused() {
    let plan = plan_with(None);
    let mut probes = no_probes();
    assert_eq!(RuntimePaths::choose_executable(&plan, &probes), Err(RuntimePathError::ExecutableNotFound));
    probes.path_candidates = vec![("C:\\WindowsApps\\codex.exe".to_owned(), true)];
    assert_eq!(RuntimePaths::choose_executable(&plan, &probes), Err(RuntimePathError::WindowsAppsAliasOnly));
}

#[test]
fn resolve_fills_state_db_and_executable() {
    let mut probes = no_probes();
    probes.sandbox_is_file = true;
    let paths = RuntimePaths::resolve(plan_with(None), "/home/u/.codex/state_5.sqlite".to_owned(), &probes).unwrap();
    assert_eq!(paths.state_db, "/home/u/.codex/state_5.sqlite");
    assert_eq!(paths.codex_exe_source, PathSource::SandboxBin);
    assert_eq!(paths.root, "/srv/bot");
    let mut configured = plan_with(None);
    configured.state_db = Some("/db".to_owned());
    let paths = RuntimePaths::resolve(configured, "/ignored".to_owned(), &probes).unwrap();
    assert_eq!(paths.state_db, "/db");
    assert_eq!(
        RuntimePaths::resolve(plan_with(None), String::new(), &no_probes()),
        Err(RuntimePathError::ExecutableNotFound)
    );
}

#[test]
fn store_paths_need_home_only_for_tilde() {
    assert_eq!(
        store_paths::resolve(&env(&[]), "/default", None, '/'),
        Ok(("/default".to_owned(), "/default/discord_mirror.sqlite".to_owned()))
    );
    assert_eq!(
        store_paths::resolve(&env(&[("CODEX_DISCORD_ROOT", "~/bot")]), "/default", Some("/home/u"), '/'),
        Ok(("/home/u/bot".to_owned(), "/home/u/bot/discord_mirror.sqlite".to_owned()))
    );
    assert_eq!(
        store_paths::resolve(&env(&[("CODEX_DISCORD_MIRROR_DB", "~")]), "/default", None, '/'),
        Err(RuntimePathError::UserHomeMissing)
    );
}

#[test]
fn environment_lookup_is_case_insensitive_on_windows_only() {
    let e = env(&[("Path", "a"), ("PATH_X", "b")]);
    assert_eq!(environment_value(&e, "PATH", false), Ok(None));
    assert_eq!(environment_value(&e, "PATH", true), Ok(Some("a".to_owned())));
    assert_eq!(environment_value(&e, "Path", false), Ok(Some("a".to_owned())));
    let clash = env(&[("Home", "a"), ("HOME_", "x"), ("home", "b")]);
    assert_eq!(
        environment_value(&clash, "HOME", true),
        Err(PathDiscoveryError::ConflictingEnvironmentValues("HOME".to_owned()))
    );
    let agree = env(&[("Home", "a"), ("home", "a")]);
    assert_eq!(environment_value(&agree, "HOME", true), Ok(Some("a".to_owned())));
}

#[test]
fn user_home_prefers_userprofile_then_home() {
    assert_eq!(user_home(&env(&[("HOME", "/h"), ("USERPROFILE", " C:\\U ")]), false), Ok("C:\\U".to_owned()));
    assert_eq!(user_home(&env(&[("HOME", "/h"), ("USERPROFILE", "  ")]), false), Ok("/h".to_owned()));
    assert_eq!(user_home(&env(&[]), false), Err(PathDiscoveryError::UserHomeMissing));
    assert_eq!(first_path(&env(&[("B", "x")]), &["A", "B"], false), Ok(Some("x".to_owned())));
}
