//! The launcher: resolves, for a worker kind and deployment mode, exactly
//! which executable to run, with which arguments, environment overrides,
//! stripped environment variables and working directory — and decides whether
//! a start call may spawn at all.
//!
//! Path resolution fails fast: where a required executable or entry script is
//! not at its resolved path, the plan is a [`LaunchError::MissingBinary`]
//! failure and nothing is spawned against a guessed path. Checking whether a
//! path exists on disk, and performing the spawn, are the caller's part; the
//! answers are handed in as plain booleans and the spawn outcome is handed
//! back to the registry afterwards.

use crate::registry::WorkerKind;
use vstd::prelude::*;

verus! {

/// How the application is deployed.
#[derive(Clone, Copy, Debug, PartialEq, Eq, Structural)]
pub enum DeployMode {
    /// Running from a source checkout: commands and scripts are resolved
    /// beneath the discovered project root.
    Development,
    /// Running from a bundled application: binaries and scripts are resolved
    /// beneath the fixed resource root.
    Packaged,
}

/// Why a start call failed before a worker became live.
pub enum LaunchError {
    /// Path resolution failed: the named path does not exist. Fatal to this
    /// start call; nothing was spawned.
    MissingBinary(String),
    /// The operating system refused the spawn (its error text). Fatal to
    /// this start call; the slot stays empty.
    SpawnFailed(String),
}

/// An immutable per-invocation launch descriptor, freshly built on every
/// start call.
pub struct LaunchSpec {
    /// The executable to spawn.
    pub executable: String,
    /// Its arguments, in order.
    pub args: Vec<String>,
    /// Environment variables to set for the child, in order.
    pub env_set: Vec<(String, String)>,
    /// Environment variables to set for the child only where the ambient
    /// environment lacks the key, in order.
    pub env_default: Vec<(String, String)>,
    /// Ambient environment variables to strip from the child, so that
    /// nothing redirects its module and interpreter discovery.
    pub env_remove: Vec<String>,
    /// The child's working directory, where one is prescribed.
    pub working_dir: Option<String>,
}

/// What a start call should do.
pub enum StartPlan {
    /// The worker is already live: the start is a successful no-op and
    /// nothing is spawned.
    AlreadyRunning,
    /// Spawn this, with both output streams piped to the caller.
    Spawn(LaunchSpec),
    /// The start fails before any spawn.
    Fail(LaunchError),
}

/// One key/value environment entry reads as expected.
pub open spec fn spec_env_pair(p: (String, String), key: Seq<char>, value: Seq<char>) -> bool {
    p.0@ == key && p.1@ == value
}

/// The ambient package-manager variables every spawn strips.
pub open spec fn spec_npm_strip(v: Seq<String>) -> bool {
    &&& v.len() == 6
    &&& v[0]@ == "npm_config_prefix"@
    &&& v[1]@ == "NPM_CONFIG_PREFIX"@
    &&& v[2]@ == "npm_config_userconfig"@
    &&& v[3]@ == "NPM_CONFIG_USERCONFIG"@
    &&& v[4]@ == "npm_config_globalconfig"@
    &&& v[5]@ == "NPM_CONFIG_GLOBALCONFIG"@
}

/// The supervisor's log directory beneath a home directory.
pub open spec fn spec_log_dir(home: Seq<char>) -> Seq<char> {
    home + "/Library/Logs/Terminal Tunnel"@
}

/// The environment defaults every primary-service spawn carries — the
/// terminal backend selection, the helper's address, and the two log files —
/// each set only where the ambient environment lacks the key.
pub open spec fn spec_primary_defaults(home: Seq<char>, v: Seq<(String, String)>) -> bool {
    &&& v.len() == 4
    &&& spec_env_pair(v[0], "PTY_BACKEND"@, "sidecar"@)
    &&& spec_env_pair(v[1], "PTY_SIDECAR_URL"@, "http://127.0.0.1:3457"@)
    &&& spec_env_pair(v[2], "SERVER_LOG"@, spec_log_dir(home) + "/server.log"@)
    &&& spec_env_pair(v[3], "PTY_SIDECAR_LOG"@, spec_log_dir(home) + "/pty-sidecar.log"@)
}

/// The packaged primary service: the bundled interpreter running the bundled
/// server entry script, on the fixed listening port.
pub open spec fn spec_primary_packaged(root: Seq<char>, home: Seq<char>, s: LaunchSpec) -> bool {
    &&& s.executable@ == root + "/bin/node"@
    &&& s.args@.len() == 1
    &&& s.args@[0]@ == root + "/server/server.js"@
    &&& s.env_set@.len() == 3
    &&& spec_env_pair(s.env_set@[0], "NODE_ENV"@, "production"@)
    &&& spec_env_pair(s.env_set@[1], "PORT"@, "3456"@)
    &&& spec_env_pair(
        s.env_set@[2],
        "NODE_PTY_BINARY"@,
        root + "/server/node_modules/node-pty/build/Release/pty.node"@,
    )
    &&& spec_primary_defaults(home, s.env_default@)
    &&& spec_npm_strip(s.env_remove@)
    &&& s.working_dir is None
}

/// The development primary service: the package manager's dev-server task,
/// run from the project root.
pub open spec fn spec_primary_development(root: Seq<char>, home: Seq<char>, s: LaunchSpec) -> bool {
    &&& s.executable@ == "npm"@
    &&& s.args@.len() == 2
    &&& s.args@[0]@ == "run"@
    &&& s.args@[1]@ == "dev:server"@
    &&& s.env_set@.len() == 1
    &&& spec_env_pair(s.env_set@[0], "MT_FORCE_RESTART"@, "1"@)
    &&& spec_primary_defaults(home, s.env_default@)
    &&& spec_npm_strip(s.env_remove@)
    &&& s.working_dir matches Some(d) && d@ == root
}

/// The tunnel client's executable: the bundled binary where it exists, the
/// one on the search path otherwise.
pub open spec fn spec_tunnel_executable(
    root: Seq<char>,
    mode: DeployMode,
    bundled_exists: bool,
) -> Seq<char> {
    if bundled_exists {
        match mode {
            DeployMode::Packaged => root + "/bin/cloudflared"@,
            DeployMode::Development => root + "/src-tauri/bin/cloudflared"@,
        }
    } else {
        "cloudflared"@
    }
}

/// The tunnel client: target-URL and protocol arguments, with any ambient
/// tunnel credential stripped so a quick tunnel is requested.
pub open spec fn spec_tunnel(
    root: Seq<char>,
    mode: DeployMode,
    bundled_exists: bool,
    s: LaunchSpec,
) -> bool {
    &&& s.executable@ == spec_tunnel_executable(root, mode, bundled_exists)
    &&& s.args@.len() == 6
    &&& s.args@[0]@ == "tunnel"@
    &&& s.args@[1]@ == "--url"@
    &&& s.args@[2]@ == "http://127.0.0.1:3456"@
    &&& s.args@[3]@ == "--no-autoupdate"@
    &&& s.args@[4]@ == "--protocol"@
    &&& s.args@[5]@ == "http2"@
    &&& s.env_set@.len() == 0
    &&& s.env_default@.len() == 0
    &&& s.env_remove@.len() == 7
    &&& spec_npm_strip(s.env_remove@.subrange(0, 6))
    &&& s.env_remove@[6]@ == "TUNNEL_TOKEN"@
    &&& s.working_dir is None
}

/// The development auxiliary helper: the bundled interpreter where it
/// exists, running the helper entry script from the project root on its own
/// fixed port.
pub open spec fn spec_auxiliary_development(
    root: Seq<char>,
    home: Seq<char>,
    bundled_node_exists: bool,
    s: LaunchSpec,
) -> bool {
    &&& s.executable@ == if bundled_node_exists {
        root + "/src-tauri/bin/node"@
    } else {
        "node"@
    }
    &&& s.args@.len() == 1
    &&& s.args@[0]@ == root + "/pty-sidecar.cjs"@
    &&& s.env_set@.len() == 4
    &&& spec_env_pair(s.env_set@[0], "NODE_ENV"@, "development"@)
    &&& spec_env_pair(s.env_set@[1], "PTY_SIDECAR_LOG"@, spec_log_dir(home) + "/pty-sidecar.log"@)
    &&& spec_env_pair(s.env_set@[2], "PTY_SIDECAR_HOST"@, "127.0.0.1"@)
    &&& spec_env_pair(s.env_set@[3], "PTY_SIDECAR_PORT"@, "3457"@)
    &&& s.env_default@.len() == 0
    &&& spec_npm_strip(s.env_remove@)
    &&& s.working_dir matches Some(d) && d@ == root
}

/// The packaged auxiliary helper: the bundled interpreter running the
/// bundled helper entry script, with module discovery pointed at the bundled
/// server's modules.
pub open spec fn spec_auxiliary_packaged(root: Seq<char>, home: Seq<char>, s: LaunchSpec) -> bool {
    &&& s.executable@ == root + "/bin/node"@
    &&& s.args@.len() == 1
    &&& s.args@[0]@ == root + "/pty-sidecar.cjs"@
    &&& s.env_set@.len() == 3
    &&& spec_env_pair(s.env_set@[0], "NODE_ENV"@, "production"@)
    &&& spec_env_pair(s.env_set@[1], "NODE_PATH"@, root + "/server/node_modules"@)
    &&& spec_env_pair(s.env_set@[2], "PTY_SIDECAR_LOG"@, spec_log_dir(home) + "/pty-sidecar.log"@)
    &&& s.env_default@.len() == 0
    &&& spec_npm_strip(s.env_remove@)
    &&& s.working_dir matches Some(d) && d@ == root + "/server"@
}

/// The plan is a path-resolution failure naming this path.
pub open spec fn spec_plan_missing(r: StartPlan, path: Seq<char>) -> bool {
    match r {
        StartPlan::Fail(e) => match e {
            LaunchError::MissingBinary(p) => p@ == path,
            LaunchError::SpawnFailed(_) => false,
        },
        _ => false,
    }
}

/// The path `root + rest`.
fn join(root: &str, rest: &str) -> (r: String)
    ensures
        r@ == root@ + rest@,
{
    let s = String::from_str(root);
    s.concat(rest)
}

/// The ambient package-manager variables every spawn strips.
fn npm_strip_vars() -> (v: Vec<String>)
    ensures
        spec_npm_strip(v@),
{
    let mut v: Vec<String> = Vec::new();
    v.push(String::from_str("npm_config_prefix"));
    v.push(String::from_str("NPM_CONFIG_PREFIX"));
    v.push(String::from_str("npm_config_userconfig"));
    v.push(String::from_str("NPM_CONFIG_USERCONFIG"));
    v.push(String::from_str("npm_config_globalconfig"));
    v.push(String::from_str("NPM_CONFIG_GLOBALCONFIG"));
    v
}

/// The supervisor's log directory beneath a home directory. The caller
/// creates it before a spawn that logs into it.
pub fn log_dir(home: &str) -> (r: String)
    ensures
        r@ == spec_log_dir(home@),
{
    String::from_str(home).concat("/Library/Logs/Terminal Tunnel")
}

fn primary_defaults(home: &str) -> (v: Vec<(String, String)>)
    ensures
        spec_primary_defaults(home@, v@),
{
    let mut v: Vec<(String, String)> = Vec::new();
    v.push((String::from_str("PTY_BACKEND"), String::from_str("sidecar")));
    v.push((String::from_str("PTY_SIDECAR_URL"), String::from_str("http://127.0.0.1:3457")));
    v.push((String::from_str("SERVER_LOG"), log_dir(home).concat("/server.log")));
    v.push((String::from_str("PTY_SIDECAR_LOG"), log_dir(home).concat("/pty-sidecar.log")));
    v
}

fn build_primary_packaged(root: &str, home: &str) -> (s: LaunchSpec)
    ensures
        spec_primary_packaged(root@, home@, s),
{
    let mut args: Vec<String> = Vec::new();
    args.push(join(root, "/server/server.js"));
    let mut env_set: Vec<(String, String)> = Vec::new();
    env_set.push((String::from_str("NODE_ENV"), String::from_str("production")));
    env_set.push((String::from_str("PORT"), String::from_str("3456")));
    env_set.push(
        (
            String::from_str("NODE_PTY_BINARY"),
            join(root, "/server/node_modules/node-pty/build/Release/pty.node"),
        ),
    );
    LaunchSpec {
        executable: join(root, "/bin/node"),
        args,
        env_set,
        env_default: primary_defaults(home),
        env_remove: npm_strip_vars(),
        working_dir: None,
    }
}

fn build_primary_development(root: &str, home: &str) -> (s: LaunchSpec)
    ensures
        spec_primary_development(root@, home@, s),
{
    let mut args: Vec<String> = Vec::new();
    args.push(String::from_str("run"));
    args.push(String::from_str("dev:server"));
    let mut env_set: Vec<(String, String)> = Vec::new();
    env_set.push((String::from_str("MT_FORCE_RESTART"), String::from_str("1")));
    LaunchSpec {
        executable: String::from_str("npm"),
        args,
        env_set,
        env_default: primary_defaults(home),
        env_remove: npm_strip_vars(),
        working_dir: Some(String::from_str(root)),
    }
}

fn build_tunnel(root: &str, mode: DeployMode, bundled_exists: bool) -> (s: LaunchSpec)
    ensures
        spec_tunnel(root@, mode, bundled_exists, s),
{
    let executable = if bundled_exists {
        match mode {
            DeployMode::Packaged => join(root, "/bin/cloudflared"),
            DeployMode::Development => join(root, "/src-tauri/bin/cloudflared"),
        }
    } else {
        String::from_str("cloudflared")
    };
    let mut args: Vec<String> = Vec::new();
    args.push(String::from_str("tunnel"));
    args.push(String::from_str("--url"));
    args.push(String::from_str("http://127.0.0.1:3456"));
    args.push(String::from_str("--no-autoupdate"));
    args.push(String::from_str("--protocol"));
    args.push(String::from_str("http2"));
    let mut env_remove = npm_strip_vars();
    env_remove.push(String::from_str("TUNNEL_TOKEN"));
    assert(spec_npm_strip(env_remove@.subrange(0, 6)));
    LaunchSpec {
        executable,
        args,
        env_set: Vec::new(),
        env_default: Vec::new(),
        env_remove,
        working_dir: None,
    }
}

fn build_auxiliary_development(root: &str, home: &str, bundled_node_exists: bool) -> (s: LaunchSpec)
    ensures
        spec_auxiliary_development(root@, home@, bundled_node_exists, s),
{
    let executable = if bundled_node_exists {
        join(root, "/src-tauri/bin/node")
    } else {
        String::from_str("node")
    };
    let mut args: Vec<String> = Vec::new();
    args.push(join(root, "/pty-sidecar.cjs"));
    let mut env_set: Vec<(String, String)> = Vec::new();
    env_set.push((String::from_str("NODE_ENV"), String::from_str("development")));
    env_set.push((String::from_str("PTY_SIDECAR_LOG"), log_dir(home).concat("/pty-sidecar.log")));
    env_set.push((String::from_str("PTY_SIDECAR_HOST"), String::from_str("127.0.0.1")));
    env_set.push((String::from_str("PTY_SIDECAR_PORT"), String::from_str("3457")));
    LaunchSpec {
        executable,
        args,
        env_set,
        env_default: Vec::new(),
        env_remove: npm_strip_vars(),
        working_dir: Some(String::from_str(root)),
    }
}

/// Plans one worker's start. `live` is whether the registry already holds a
/// live worker of this kind; `root` is the resource root (packaged) or the
/// discovered project root (development); `home` is the user's home
/// directory, beneath which the log paths are resolved; `executable_exists`
/// and `entry_exists` answer whether the resolved executable and
/// entry-script paths exist on disk, where the kind and mode call for such a
/// check.
///
/// A start against a live worker is a successful no-op. A required path that
/// does not exist fails fast with [`LaunchError::MissingBinary`] naming it —
/// the executable checked first — and nothing is spawned. The tunnel client
/// needs no path to exist: where the bundled binary is absent, the one on
/// the search path is used.
pub fn plan_start(
    live: bool,
    kind: WorkerKind,
    mode: DeployMode,
    root: &str,
    home: &str,
    executable_exists: bool,
    entry_exists: bool,
) -> (r: StartPlan)
    ensures
        live <==> r is AlreadyRunning,
        r matches StartPlan::Spawn(s) ==> match kind {
            WorkerKind::Primary => match mode {
                DeployMode::Packaged => executable_exists && entry_exists
                    && spec_primary_packaged(root@, home@, s),
                DeployMode::Development => spec_primary_development(root@, home@, s),
            },
            WorkerKind::Tunnel => spec_tunnel(root@, mode, executable_exists, s),
            WorkerKind::Auxiliary => match mode {
                DeployMode::Packaged => executable_exists && entry_exists
                    && spec_auxiliary_packaged(root@, home@, s),
                DeployMode::Development => entry_exists && spec_auxiliary_development(
                    root@,
                    home@,
                    executable_exists,
                    s,
                ),
            },
        },
        r is Fail ==> !live && match kind {
            WorkerKind::Primary => mode is Packaged && (!executable_exists || !entry_exists),
            WorkerKind::Tunnel => false,
            WorkerKind::Auxiliary => !entry_exists || (mode is Packaged && !executable_exists),
        },
        !live && kind is Primary && mode is Packaged && !executable_exists ==> spec_plan_missing(
            r,
            root@ + "/bin/node"@,
        ),
        !live && kind is Primary && mode is Packaged && executable_exists && !entry_exists
            ==> spec_plan_missing(r, root@ + "/server/server.js"@),
        !live && kind is Auxiliary && mode is Packaged && !executable_exists ==> spec_plan_missing(
            r,
            root@ + "/bin/node"@,
        ),
        !live && kind is Auxiliary && mode is Packaged && executable_exists && !entry_exists
            ==> spec_plan_missing(r, root@ + "/pty-sidecar.cjs"@),
        !live && kind is Auxiliary && mode is Development && !entry_exists ==> spec_plan_missing(
            r,
            root@ + "/pty-sidecar.cjs"@,
        ),
{
    if live {
        return StartPlan::AlreadyRunning;
    }
    match kind {
        WorkerKind::Primary => match mode {
            DeployMode::Packaged => {
                if !executable_exists {
                    StartPlan::Fail(LaunchError::MissingBinary(join(root, "/bin/node")))
                } else if !entry_exists {
                    StartPlan::Fail(LaunchError::MissingBinary(join(root, "/server/server.js")))
                } else {
                    StartPlan::Spawn(build_primary_packaged(root, home))
                }
            },
            DeployMode::Development => StartPlan::Spawn(build_primary_development(root, home)),
        },
        WorkerKind::Tunnel => StartPlan::Spawn(build_tunnel(root, mode, executable_exists)),
        WorkerKind::Auxiliary => match mode {
            DeployMode::Packaged => {
                if !executable_exists {
                    StartPlan::Fail(LaunchError::MissingBinary(join(root, "/bin/node")))
                } else if !entry_exists {
                    StartPlan::Fail(LaunchError::MissingBinary(join(root, "/pty-sidecar.cjs")))
                } else {
                    StartPlan::Spawn(build_auxiliary_packaged(root, home))
                }
            },
            DeployMode::Development => {
                if !entry_exists {
                    StartPlan::Fail(LaunchError::MissingBinary(join(root, "/pty-sidecar.cjs")))
                } else {
                    StartPlan::Spawn(build_auxiliary_development(root, home, executable_exists))
                }
            },
        },
    }
}

fn build_auxiliary_packaged(root: &str, home: &str) -> (s: LaunchSpec)
    ensures
        spec_auxiliary_packaged(root@, home@, s),
{
    let mut args: Vec<String> = Vec::new();
    args.push(join(root, "/pty-sidecar.cjs"));
    let mut env_set: Vec<(String, String)> = Vec::new();
    env_set.push((String::from_str("NODE_ENV"), String::from_str("production")));
    env_set.push((String::from_str("NODE_PATH"), join(root, "/server/node_modules")));
    env_set.push((String::from_str("PTY_SIDECAR_LOG"), log_dir(home).concat("/pty-sidecar.log")));
    LaunchSpec {
        executable: join(root, "/bin/node"),
        args,
        env_set,
        env_default: Vec::new(),
        env_remove: npm_strip_vars(),
        working_dir: Some(join(root, "/server")),
    }
}

} // verus!
