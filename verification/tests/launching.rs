use supervisor_core::launcher::{plan_start, DeployMode, LaunchError, StartPlan};
use supervisor_core::registry::WorkerKind;

#[test]
fn packaged_primary_resolves_bundled_paths() {
    let plan = plan_start(
        false,
        WorkerKind::Primary,
        DeployMode::Packaged,
        "/App/Resources",
        "/Users/me",
        true,
        true,
    );
    match plan {
        StartPlan::Spawn(spec) => {
            assert_eq!(spec.executable, "/App/Resources/bin/node");
            assert_eq!(spec.args, vec!["/App/Resources/server/server.js".to_string()]);
            assert_eq!(spec.env_set[0], ("NODE_ENV".to_string(), "production".to_string()));
            assert_eq!(spec.env_set[1], ("PORT".to_string(), "3456".to_string()));
            assert_eq!(
                spec.env_set[2],
                (
                    "NODE_PTY_BINARY".to_string(),
                    "/App/Resources/server/node_modules/node-pty/build/Release/pty.node"
                        .to_string()
                )
            );
            assert!(spec.env_remove.contains(&"npm_config_prefix".to_string()));
            assert!(spec.env_remove.contains(&"NPM_CONFIG_GLOBALCONFIG".to_string()));
            assert_eq!(
                spec.env_default,
                vec![
                    ("PTY_BACKEND".to_string(), "sidecar".to_string()),
                    ("PTY_SIDECAR_URL".to_string(), "http://127.0.0.1:3457".to_string()),
                    (
                        "SERVER_LOG".to_string(),
                        "/Users/me/Library/Logs/Terminal Tunnel/server.log".to_string()
                    ),
                    (
                        "PTY_SIDECAR_LOG".to_string(),
                        "/Users/me/Library/Logs/Terminal Tunnel/pty-sidecar.log".to_string()
                    ),
                ]
            );
            assert_eq!(spec.working_dir, None);
        }
        _ => panic!("expected a spawn plan"),
    }
}

#[test]
fn packaged_primary_missing_node_fails_fast() {
    let plan = plan_start(
        false,
        WorkerKind::Primary,
        DeployMode::Packaged,
        "/App/Resources",
        "/Users/me",
        false,
        true,
    );
    match plan {
        StartPlan::Fail(LaunchError::MissingBinary(path)) => {
            assert_eq!(path, "/App/Resources/bin/node");
        }
        _ => panic!("expected a missing-binary failure"),
    }
}

#[test]
fn packaged_primary_missing_entry_fails_fast() {
    let plan = plan_start(
        false,
        WorkerKind::Primary,
        DeployMode::Packaged,
        "/App/Resources",
        "/Users/me",
        true,
        false,
    );
    match plan {
        StartPlan::Fail(LaunchError::MissingBinary(path)) => {
            assert_eq!(path, "/App/Resources/server/server.js");
        }
        _ => panic!("expected a missing-binary failure"),
    }
}

#[test]
fn start_against_live_worker_is_a_no_op() {
    let plan = plan_start(
        true,
        WorkerKind::Primary,
        DeployMode::Packaged,
        "/App/Resources",
        "/Users/me",
        true,
        true,
    );
    assert!(matches!(plan, StartPlan::AlreadyRunning));
}

#[test]
fn development_primary_runs_dev_server_task_from_root() {
    let plan = plan_start(
        false,
        WorkerKind::Primary,
        DeployMode::Development,
        "/home/me/project",
        "/home/me",
        false,
        false,
    );
    match plan {
        StartPlan::Spawn(spec) => {
            assert_eq!(spec.executable, "npm");
            assert_eq!(spec.args, vec!["run".to_string(), "dev:server".to_string()]);
            assert_eq!(
                spec.env_set,
                vec![("MT_FORCE_RESTART".to_string(), "1".to_string())]
            );
            assert_eq!(spec.env_default.len(), 4);
            assert_eq!(spec.working_dir, Some("/home/me/project".to_string()));
        }
        _ => panic!("expected a spawn plan"),
    }
}

#[test]
fn tunnel_uses_bundled_binary_when_present() {
    let plan = plan_start(
        false,
        WorkerKind::Tunnel,
        DeployMode::Packaged,
        "/App/Resources",
        "/Users/me",
        true,
        false,
    );
    match plan {
        StartPlan::Spawn(spec) => {
            assert_eq!(spec.executable, "/App/Resources/bin/cloudflared");
            assert_eq!(
                spec.args,
                vec![
                    "tunnel".to_string(),
                    "--url".to_string(),
                    "http://127.0.0.1:3456".to_string(),
                    "--no-autoupdate".to_string(),
                    "--protocol".to_string(),
                    "http2".to_string(),
                ]
            );
            assert_eq!(spec.env_remove.last(), Some(&"TUNNEL_TOKEN".to_string()));
            assert_eq!(spec.working_dir, None);
        }
        _ => panic!("expected a spawn plan"),
    }
}

#[test]
fn tunnel_falls_back_to_search_path() {
    let plan = plan_start(
        false,
        WorkerKind::Tunnel,
        DeployMode::Development,
        "/home/me/project",
        "/home/me",
        false,
        false,
    );
    match plan {
        StartPlan::Spawn(spec) => assert_eq!(spec.executable, "cloudflared"),
        _ => panic!("expected a spawn plan"),
    }
}

#[test]
fn tunnel_dev_bundled_binary_under_project_root() {
    let plan = plan_start(
        false,
        WorkerKind::Tunnel,
        DeployMode::Development,
        "/home/me/project",
        "/home/me",
        true,
        false,
    );
    match plan {
        StartPlan::Spawn(spec) => {
            assert_eq!(spec.executable, "/home/me/project/src-tauri/bin/cloudflared");
        }
        _ => panic!("expected a spawn plan"),
    }
}

#[test]
fn auxiliary_development_requires_entry_script() {
    let plan = plan_start(
        false,
        WorkerKind::Auxiliary,
        DeployMode::Development,
        "/home/me/project",
        "/home/me",
        true,
        false,
    );
    match plan {
        StartPlan::Fail(LaunchError::MissingBinary(path)) => {
            assert_eq!(path, "/home/me/project/pty-sidecar.cjs");
        }
        _ => panic!("expected a missing-binary failure"),
    }
}

#[test]
fn auxiliary_development_spawns_helper_on_its_port() {
    let plan = plan_start(
        false,
        WorkerKind::Auxiliary,
        DeployMode::Development,
        "/home/me/project",
        "/home/me",
        false,
        true,
    );
    match plan {
        StartPlan::Spawn(spec) => {
            assert_eq!(spec.executable, "node");
            assert_eq!(spec.args, vec!["/home/me/project/pty-sidecar.cjs".to_string()]);
            assert_eq!(
                spec.env_set,
                vec![
                    ("NODE_ENV".to_string(), "development".to_string()),
                    (
                        "PTY_SIDECAR_LOG".to_string(),
                        "/home/me/Library/Logs/Terminal Tunnel/pty-sidecar.log".to_string()
                    ),
                    ("PTY_SIDECAR_HOST".to_string(), "127.0.0.1".to_string()),
                    ("PTY_SIDECAR_PORT".to_string(), "3457".to_string()),
                ]
            );
            assert!(spec.env_default.is_empty());
            assert_eq!(spec.working_dir, Some("/home/me/project".to_string()));
        }
        _ => panic!("expected a spawn plan"),
    }
}

#[test]
fn auxiliary_packaged_points_module_discovery_at_bundle() {
    let plan = plan_start(
        false,
        WorkerKind::Auxiliary,
        DeployMode::Packaged,
        "/App/Resources",
        "/Users/me",
        true,
        true,
    );
    match plan {
        StartPlan::Spawn(spec) => {
            assert_eq!(spec.executable, "/App/Resources/bin/node");
            assert_eq!(spec.args, vec!["/App/Resources/pty-sidecar.cjs".to_string()]);
            assert_eq!(
                spec.env_set,
                vec![
                    ("NODE_ENV".to_string(), "production".to_string()),
                    (
                        "NODE_PATH".to_string(),
                        "/App/Resources/server/node_modules".to_string()
                    ),
                    (
                        "PTY_SIDECAR_LOG".to_string(),
                        "/Users/me/Library/Logs/Terminal Tunnel/pty-sidecar.log".to_string()
                    ),
                ]
            );
            assert!(spec.env_default.is_empty());
            assert_eq!(spec.working_dir, Some("/App/Resources/server".to_string()));
        }
        _ => panic!("expected a spawn plan"),
    }
}
