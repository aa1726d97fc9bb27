//! Resolution of the runtime's files and of the Codex executable from the
//! environment, the user home and what the file system shows.
//!
//! Paths are text. Joining puts the platform separator between a base and
//! a relative tail; a tail that starts with `/` stands for itself.

pub mod discovery;
pub mod helpers;
pub mod state_paths;
pub mod store_paths;

use vstd::prelude::*;

use helpers::{
    clean_executable, clean_spec, env_path, env_path_spec, expand_home, expand_home_spec,
    is_windowsapps, join_path, join_spec, resolved_path, resolved_spec, windowsapps_spec,
    EnvEntries,
};

verus! {

/// Where the Codex executable was found.
#[derive(Clone, Copy, Debug, Eq, PartialEq, Structural)]
pub enum PathSource {
    Environment,
    SandboxBin,
    LocalAppBin,
    Path,
}

/// Every file and directory the runtime uses.
#[derive(Clone, Debug, Eq, PartialEq)]
pub struct RuntimePaths {
    pub root: String,
    pub codex_home: String,
    pub mirror_db: String,
    pub state_db: String,
    pub bridge_state: String,
    pub log_db: String,
    pub global_state: String,
    pub session_index: String,
    pub archived_sessions: String,
    pub maintenance_backup_root: String,
    pub attachment_dir: String,
    pub codex_exe: String,
    pub codex_exe_source: PathSource,
}

/// What path resolution starts from.
#[derive(Clone, Debug)]
pub struct PathInputs {
    pub root: String,
    pub user_home: String,
    pub local_app_candidates: Vec<String>,
    pub path_candidates: Vec<String>,
}

impl PathInputs {
    /// Bundles the inputs.
    pub fn new(root: String, user_home: String, local_app_candidates: Vec<String>, path_candidates: Vec<String>) -> (r: Self)
        ensures
            r.root@ == root@,
            r.user_home@ == user_home@,
            r.local_app_candidates@ == local_app_candidates@,
            r.path_candidates@ == path_candidates@,
    {
        PathInputs { root, user_home, local_app_candidates, path_candidates }
    }
}

/// Why resolution failed.
#[derive(Clone, Debug, Eq, PartialEq)]
pub enum RuntimePathError {
    /// The configured `CODEX_EXE` does not exist or is not a file.
    ConfiguredExecutableMissing(String),
    /// Codex resolves only to a WindowsApps alias.
    WindowsAppsAliasOnly,
    /// No usable Codex executable was found.
    ExecutableNotFound,
    /// The user home is needed but unknown.
    UserHomeMissing,
}

/// The paths that follow from the environment alone, and the probes that
/// resolution still needs from the file system.
#[derive(Clone, Debug, Eq, PartialEq)]
pub struct PathPlan {
    pub root: String,
    pub codex_home: String,
    pub mirror_db: String,
    /// The configured state database; `None` means the newest one found in
    /// the Codex home.
    pub state_db: Option<String>,
    pub bridge_state: String,
    pub log_db: String,
    pub global_state: String,
    pub session_index: String,
    pub archived_sessions: String,
    pub maintenance_backup_root: String,
    pub attachment_dir: String,
    /// The configured executable, when `CODEX_EXE` names one.
    pub configured_exe: Option<String>,
    /// The executable in the Codex home's sandbox directory.
    pub sandbox_exe: String,
}

/// What the file system showed about the executable candidates.
#[derive(Clone, Debug, Eq, PartialEq)]
pub struct ExecutableProbes {
    /// The configured executable is a file.
    pub configured_is_file: bool,
    /// The most recently modified local-app candidate that is a file.
    pub newest_local: Option<String>,
    /// The sandbox executable is a file.
    pub sandbox_is_file: bool,
    /// Each `PATH` candidate, in order, and whether it is a file.
    pub path_candidates: Vec<(String, bool)>,
}

/// The path of variable `name` expanded, or `fallback`.
pub open spec fn env_or(env: Seq<(String, String)>, name: Seq<char>, fallback: Seq<char>, home: Seq<char>, sep: char) -> Seq<char> {
    match env_path_spec(env, name) {
        Some(p) => expand_home_spec(p, home, sep),
        None => fallback,
    }
}

/// The Codex home: `CODEX_HOME`, or `.codex` in the user home.
pub open spec fn codex_home_spec(env: Seq<(String, String)>, inputs: PathInputs, sep: char) -> Seq<char> {
    env_or(env, "CODEX_HOME"@, join_spec(inputs.user_home@, ".codex"@, sep), inputs.user_home@, sep)
}

/// The runtime root: `CODEX_DISCORD_ROOT`, or the given root.
pub open spec fn root_spec(env: Seq<(String, String)>, inputs: PathInputs, sep: char) -> Seq<char> {
    env_or(env, "CODEX_DISCORD_ROOT"@, inputs.root@, inputs.user_home@, sep)
}

/// The configured executable, when `CODEX_EXE` names one.
pub open spec fn configured_spec(env: Seq<(String, String)>, home: Seq<char>, sep: char) -> Option<Seq<char>> {
    match env_path_spec(env, "CODEX_EXE"@) {
        None => None,
        Some(raw) => if clean_spec(raw).len() == 0 {
            None
        } else {
            Some(expand_home_spec(clean_spec(raw), home, sep))
        },
    }
}

/// `plan` is what the environment and inputs give.
pub open spec fn plan_spec(plan: PathPlan, env: Seq<(String, String)>, inputs: PathInputs, sep: char, exe_name: Seq<char>) -> bool {
    let home = inputs.user_home@;
    let codex = codex_home_spec(env, inputs, sep);
    let root = root_spec(env, inputs, sep);
    &&& plan.codex_home@ == codex
    &&& plan.root@ == root
    &&& plan.mirror_db@ == env_or(env, "CODEX_DISCORD_MIRROR_DB"@, join_spec(root, "discord_mirror.sqlite"@, sep), home, sep)
    &&& match plan.state_db {
        Some(p) => env_path_spec(env, "CODEX_STATE_DB"@) is Some && p@ == expand_home_spec(
            env_path_spec(env, "CODEX_STATE_DB"@)->Some_0,
            home,
            sep,
        ),
        None => env_path_spec(env, "CODEX_STATE_DB"@) is None,
    }
    &&& plan.bridge_state@ == env_or(env, "CODEX_BRIDGE_STATE"@, join_spec(codex, "codex_desktop_bridge_state.json"@, sep), home, sep)
    &&& plan.log_db@ == resolved_spec(env, "CODEX_LOG_DB"@, codex, "logs_2.sqlite"@, home, sep)
    &&& plan.global_state@ == resolved_spec(env, "CODEX_GLOBAL_STATE"@, codex, ".codex-global-state.json"@, home, sep)
    &&& plan.session_index@ == resolved_spec(env, "CODEX_SESSION_INDEX"@, codex, "session_index.jsonl"@, home, sep)
    &&& plan.archived_sessions@ == resolved_spec(env, "CODEX_ARCHIVED_SESSIONS_DIR"@, codex, "archived_sessions"@, home, sep)
    &&& plan.maintenance_backup_root@ == resolved_spec(env, "CODEX_MAINTENANCE_BACKUP_ROOT"@, codex, "maintenance_backups"@, home, sep)
    &&& plan.attachment_dir@ == env_or(env, "DISCORD_ATTACHMENT_DOWNLOAD_DIR"@, join_spec(root, ".codex-discord-attachments"@, sep), home, sep)
    &&& match plan.configured_exe {
        Some(c) => configured_spec(env, home, sep) == Some(c@),
        None => configured_spec(env, home, sep) is None,
    }
    &&& plan.sandbox_exe@ == join_spec(join_spec(codex, ".sandbox-bin"@, sep), exe_name, sep)
}

fn env_or_exec(env: &EnvEntries, name: &str, fallback: String, home: &str, sep: char) -> (r: String)
    ensures
        r@ == env_or(env@, name@, fallback@, home@, sep),
{
    match env_path(env, name) {
        Some(p) => expand_home(p.as_str(), home, sep),
        None => fallback,
    }
}

/// The first `PATH` candidate that is a file outside `WindowsApps`.
pub open spec fn path_choice(cands: Seq<(String, bool)>) -> Option<Seq<char>>
    decreases cands.len(),
{
    if cands.len() == 0 {
        None
    } else if cands[0].1 && !windowsapps_spec(cands[0].0@) {
        Some(cands[0].0@)
    } else {
        path_choice(cands.drop_first())
    }
}

/// Some `PATH` candidate is a file inside `WindowsApps`.
pub open spec fn saw_alias(cands: Seq<(String, bool)>) -> bool {
    exists|i: int| 0 <= i < cands.len() && (#[trigger] cands[i]).1 && windowsapps_spec(cands[i].0@)
}

/// The executable chosen from the probes: the configured one, which must
/// exist; else the newest local-app one; else the sandbox one; else the
/// first on `PATH` outside `WindowsApps`.
pub open spec fn executable_spec(plan: PathPlan, probes: ExecutableProbes) -> Result<(Seq<char>, PathSource), RuntimePathError> {
    match plan.configured_exe {
        Some(c) => if probes.configured_is_file {
            Ok((c@, PathSource::Environment))
        } else {
            Err(RuntimePathError::ConfiguredExecutableMissing(c))
        },
        None => match probes.newest_local {
            Some(p) => Ok((p@, PathSource::LocalAppBin)),
            None => if probes.sandbox_is_file {
                Ok((plan.sandbox_exe@, PathSource::SandboxBin))
            } else {
                match path_choice(probes.path_candidates@) {
                    Some(p) => Ok((p, PathSource::Path)),
                    None => if saw_alias(probes.path_candidates@) {
                        Err(RuntimePathError::WindowsAppsAliasOnly)
                    } else {
                        Err(RuntimePathError::ExecutableNotFound)
                    },
                }
            },
        },
    }
}

impl RuntimePaths {
    /// The paths the environment and inputs give, with `sep` the platform
    /// separator and `exe_name` the platform's executable name.
    pub fn plan(env: &EnvEntries, inputs: &PathInputs, sep: char, exe_name: &str) -> (r: PathPlan)
        ensures
            plan_spec(r, env@, *inputs, sep, exe_name@),
    {
        let home = inputs.user_home.as_str();
        let codex_home = env_or_exec(env, "CODEX_HOME", join_path(home, ".codex", sep), home, sep);
        let root = env_or_exec(env, "CODEX_DISCORD_ROOT", inputs.root.clone(), home, sep);
        let mirror_db = env_or_exec(
            env,
            "CODEX_DISCORD_MIRROR_DB",
            join_path(root.as_str(), "discord_mirror.sqlite", sep),
            home,
            sep,
        );
        let state_db = match env_path(env, "CODEX_STATE_DB") {
            Some(p) => Some(expand_home(p.as_str(), home, sep)),
            None => None,
        };
        let bridge_state = env_or_exec(
            env,
            "CODEX_BRIDGE_STATE",
            join_path(codex_home.as_str(), "codex_desktop_bridge_state.json", sep),
            home,
            sep,
        );
        let log_db = resolved_path(env, "CODEX_LOG_DB", codex_home.as_str(), "logs_2.sqlite", home, sep);
        let global_state = resolved_path(
            env,
            "CODEX_GLOBAL_STATE",
            codex_home.as_str(),
            ".codex-global-state.json",
            home,
            sep,
        );
        let session_index = resolved_path(
            env,
            "CODEX_SESSION_INDEX",
            codex_home.as_str(),
            "session_index.jsonl",
            home,
            sep,
        );
        let archived_sessions = resolved_path(
            env,
            "CODEX_ARCHIVED_SESSIONS_DIR",
            codex_home.as_str(),
            "archived_sessions",
            home,
            sep,
        );
        let maintenance_backup_root = resolved_path(
            env,
            "CODEX_MAINTENANCE_BACKUP_ROOT",
            codex_home.as_str(),
            "maintenance_backups",
            home,
            sep,
        );
        let attachment_dir = env_or_exec(
            env,
            "DISCORD_ATTACHMENT_DOWNLOAD_DIR",
            join_path(root.as_str(), ".codex-discord-attachments", sep),
            home,
            sep,
        );
        let configured_exe = match env_path(env, "CODEX_EXE") {
            None => None,
            Some(raw) => {
                let cleaned = clean_executable(raw.as_str());
                if cleaned.as_str().is_empty() {
                    None
                } else {
                    Some(expand_home(cleaned.as_str(), home, sep))
                }
            },
        };
        let sandbox_dir = join_path(codex_home.as_str(), ".sandbox-bin", sep);
        let sandbox_exe = join_path(sandbox_dir.as_str(), exe_name, sep);
        PathPlan {
            root,
            codex_home,
            mirror_db,
            state_db,
            bridge_state,
            log_db,
            global_state,
            session_index,
            archived_sessions,
            maintenance_backup_root,
            attachment_dir,
            configured_exe,
            sandbox_exe,
        }
    }

    /// Chooses the executable from what the file system showed.
    pub fn choose_executable(plan: &PathPlan, probes: &ExecutableProbes) -> (r: Result<(String, PathSource), RuntimePathError>)
        ensures
            match (r, executable_spec(*plan, *probes)) {
                (Ok((p, s)), Ok((q, t))) => p@ == q && s == t,
                (Err(e), Err(f)) => e == f,
                _ => false,
            },
    {
        if let Some(c) = &plan.configured_exe {
            return if probes.configured_is_file {
                Ok((c.clone(), PathSource::Environment))
            } else {
                Err(RuntimePathError::ConfiguredExecutableMissing(c.clone()))
            };
        }
        if let Some(p) = &probes.newest_local {
            return Ok((p.clone(), PathSource::LocalAppBin));
        }
        if probes.sandbox_is_file {
            return Ok((plan.sandbox_exe.clone(), PathSource::SandboxBin));
        }
        let cands = &probes.path_candidates;
        let mut saw = false;
        let mut i: usize = 0;
        assert(cands@.subrange(0, cands.len() as int) =~= cands@);
        while i < cands.len()
            invariant
                i <= cands.len(),
                cands == &probes.path_candidates,
                plan.configured_exe is None,
                probes.newest_local is None,
                !probes.sandbox_is_file,
                path_choice(cands@) == path_choice(cands@.subrange(i as int, cands.len() as int)),
                saw == exists|j: int| 0 <= j < i && (#[trigger] cands@[j]).1 && windowsapps_spec(cands@[j].0@),
            decreases cands.len() - i,
        {
            let ghost rest = cands@.subrange(i as int, cands.len() as int);
            assert(rest[0] == cands@[i as int]);
            assert(rest.drop_first() =~= cands@.subrange(i + 1, cands.len() as int));
            if cands[i].1 {
                if is_windowsapps(cands[i].0.as_str()) {
                    saw = true;
                } else {
                    return Ok((cands[i].0.clone(), PathSource::Path));
                }
            }
            i = i + 1;
        }
        assert(cands@.subrange(cands.len() as int, cands.len() as int) =~= Seq::<(String, bool)>::empty());
        if saw {
            Err(RuntimePathError::WindowsAppsAliasOnly)
        } else {
            Err(RuntimePathError::ExecutableNotFound)
        }
    }

    /// The resolved paths: the planned ones, the newest state database when
    /// none is configured, and the chosen executable.
    pub fn resolve(plan: PathPlan, latest_state_db: String, probes: &ExecutableProbes) -> (r: Result<Self, RuntimePathError>)
        ensures
            match (r, executable_spec(plan, *probes)) {
                (Ok(paths), Ok((exe, source))) => {
                    &&& paths.codex_exe@ == exe
                    &&& paths.codex_exe_source == source
                    &&& paths.root@ == plan.root@
                    &&& paths.codex_home@ == plan.codex_home@
                    &&& paths.mirror_db@ == plan.mirror_db@
                    &&& paths.state_db@ == match plan.state_db {
                        Some(s) => s@,
                        None => latest_state_db@,
                    }
                    &&& paths.bridge_state@ == plan.bridge_state@
                    &&& paths.log_db@ == plan.log_db@
                    &&& paths.global_state@ == plan.global_state@
                    &&& paths.session_index@ == plan.session_index@
                    &&& paths.archived_sessions@ == plan.archived_sessions@
                    &&& paths.maintenance_backup_root@ == plan.maintenance_backup_root@
                    &&& paths.attachment_dir@ == plan.attachment_dir@
                },
                (Err(e), Err(f)) => e == f,
                _ => false,
            },
    {
        let (codex_exe, codex_exe_source) = match Self::choose_executable(&plan, probes) {
            Ok(x) => x,
            Err(e) => { return Err(e); },
        };
        let state_db = match plan.state_db {
            Some(s) => s,
            None => latest_state_db,
        };
        Ok(RuntimePaths {
            root: plan.root,
            codex_home: plan.codex_home,
            mirror_db: plan.mirror_db,
            state_db,
            bridge_state: plan.bridge_state,
            log_db: plan.log_db,
            global_state: plan.global_state,
            session_index: plan.session_index,
            archived_sessions: plan.archived_sessions,
            maintenance_backup_root: plan.maintenance_backup_root,
            attachment_dir: plan.attachment_dir,
            codex_exe,
            codex_exe_source,
        })
    }
}

/// The choice from `PATH` is the earliest candidate that is a file outside
/// `WindowsApps`, and there is none only when no candidate is such a file.
proof fn lemma_path_choice_is_earliest(cands: Seq<(String, bool)>)
    ensures
        match path_choice(cands) {
            Some(p) => exists|i: int|
                0 <= i < cands.len() && (#[trigger] cands[i]).1 && !windowsapps_spec(cands[i].0@) && cands[i].0@ == p
                    && forall|j: int| 0 <= j < i ==> !((#[trigger] cands[j]).1 && !windowsapps_spec(cands[j].0@)),
            None => forall|i: int| 0 <= i < cands.len() ==> !((#[trigger] cands[i]).1 && !windowsapps_spec(cands[i].0@)),
        },
    decreases cands.len(),
{
    if cands.len() > 0 {
        let rest = cands.drop_first();
        lemma_path_choice_is_earliest(rest);
        if cands[0].1 && !windowsapps_spec(cands[0].0@) {
            assert(cands[0].1 && !windowsapps_spec(cands[0].0@) && cands[0].0@ == cands[0].0@);
        } else {
            match path_choice(rest) {
                Some(p) => {
                    let k = choose|k: int|
                        0 <= k < rest.len() && (#[trigger] rest[k]).1 && !windowsapps_spec(rest[k].0@) && rest[k].0@
                            == p && forall|j: int| 0 <= j < k ==> !((#[trigger] rest[j]).1 && !windowsapps_spec(rest[j].0@));
                    assert(cands[k + 1] == rest[k]);
                    assert forall|j: int| 0 <= j < k + 1 implies !((#[trigger] cands[j]).1 && !windowsapps_spec(
                        cands[j].0@,
                    )) by {
                        if j > 0 {
                            assert(cands[j] == rest[j - 1]);
                        }
                    }
                },
                None => {
                    assert forall|i: int| 0 <= i < cands.len() implies !((#[trigger] cands[i]).1 && !windowsapps_spec(
                        cands[i].0@,
                    )) by {
                        if i > 0 {
                            assert(cands[i] == rest[i - 1]);
                        }
                    }
                },
            }
        }
    }
}

/// `PATH` precedence: when neither a configured, a local-app nor a sandbox
/// executable exists, the executable is taken from `PATH` exactly when some
/// candidate is a file outside `WindowsApps`, and it is the earliest such
/// candidate; a later candidate never wins over an earlier usable one.
pub proof fn law_path_precedence(plan: PathPlan, probes: ExecutableProbes)
    requires
        plan.configured_exe is None,
        probes.newest_local is None,
        !probes.sandbox_is_file,
    ensures
        (exists|i: int|
            0 <= i < probes.path_candidates@.len() && (#[trigger] probes.path_candidates@[i]).1 && !windowsapps_spec(
                probes.path_candidates@[i].0@,
            )) ==> (executable_spec(plan, probes) matches Ok((_, src)) && src == PathSource::Path),
        executable_spec(plan, probes) matches Ok((p, src)) ==> src == PathSource::Path && exists|i: int|
            0 <= i < probes.path_candidates@.len() && (#[trigger] probes.path_candidates@[i]).1 && !windowsapps_spec(
                probes.path_candidates@[i].0@,
            ) && probes.path_candidates@[i].0@ == p && forall|j: int|
                0 <= j < i ==> !((#[trigger] probes.path_candidates@[j]).1 && !windowsapps_spec(
                    probes.path_candidates@[j].0@,
                )),
{
    lemma_path_choice_is_earliest(probes.path_candidates@);
}

/// Offline tools and the running bot resolve the same runtime root and
/// mirror database, and the same Codex home and state database, from the
/// same environment and user home.
pub proof fn law_offline_paths_agree(plan: PathPlan, env: Seq<(String, String)>, inputs: PathInputs, sep: char, exe_name: Seq<char>)
    requires
        plan_spec(plan, env, inputs, sep, exe_name),
    ensures
        store_paths::store_spec(env, inputs.root@, Some(inputs.user_home@), sep) == Ok::<
            (Seq<char>, Seq<char>),
            RuntimePathError,
        >((plan.root@, plan.mirror_db@)),
        state_paths::state_spec(env, Some(inputs.user_home@), sep) == Ok::<
            (Seq<char>, Option<Seq<char>>),
            RuntimePathError,
        >(
            (
                plan.codex_home@,
                match plan.state_db {
                    Some(s) => Some(s@),
                    None => None,
                },
            ),
        ),
{
    let home = inputs.user_home@;
    match env_path_spec(env, "CODEX_DISCORD_ROOT"@) {
        Some(raw) => store_paths::lemma_expand_with_home(raw, home, sep),
        None => {},
    }
    match env_path_spec(env, "CODEX_DISCORD_MIRROR_DB"@) {
        Some(raw) => store_paths::lemma_expand_with_home(raw, home, sep),
        None => {},
    }
    match env_path_spec(env, "CODEX_HOME"@) {
        Some(raw) => store_paths::lemma_expand_with_home(raw, home, sep),
        None => {},
    }
    match env_path_spec(env, "CODEX_STATE_DB"@) {
        Some(raw) => store_paths::lemma_expand_with_home(raw, home, sep),
        None => {},
    }
}

} // verus!
