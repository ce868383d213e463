use supervisor_core::orchestrator::{step, Stage, StartupAction, StartupEvent, Supervisor};
use supervisor_core::registry::{ProcessRegistry, WorkerKind};
use supervisor_core::updates::UpdateInfo;

#[test]
fn update_info_carries_what_it_was_given() {
    let info = UpdateInfo::new(
        "1.2.0".to_string(),
        "1.1.3".to_string(),
        Some("fixes".to_string()),
    );
    assert_eq!(info.version, "1.2.0");
    assert_eq!(info.current_version, "1.1.3");
    assert_eq!(info.body, Some("fixes".to_string()));
    let copy = info.clone();
    assert_eq!(copy.version, info.version);
}

#[test]
fn start_twice_yields_one_live_process() {
    let mut registry = ProcessRegistry::new();
    assert!(registry.install(WorkerKind::Primary, 100));
    // Second start without an intervening stop: the insert-time re-check
    // refuses it and the first process stays the only live one.
    assert!(!registry.install(WorkerKind::Primary, 200));
    assert!(registry.is_live(WorkerKind::Primary));
    assert_eq!(registry.pid(WorkerKind::Primary), Some(100));
}

#[test]
fn stop_on_non_live_kind_is_a_no_op() {
    let mut sup = Supervisor::new();
    let killed = sup.stop(WorkerKind::Tunnel);
    assert_eq!(killed, None);
    assert!(!sup.is_live(WorkerKind::Tunnel));
    let killed = sup.stop(WorkerKind::Auxiliary);
    assert_eq!(killed, None);
}

#[test]
fn stop_clears_slot_and_tunnel_stop_clears_endpoint() {
    let mut sup = Supervisor::new();
    sup.commit_spawn(WorkerKind::Tunnel, 42);
    let out = sup.process_tunnel_line("https://x.example-tunnel.com");
    assert!(out.connected.is_some());
    assert_eq!(sup.endpoint_url(), Some("https://x.example-tunnel.com".to_string()));
    let killed = sup.stop(WorkerKind::Tunnel);
    assert_eq!(killed, Some(42));
    assert!(!sup.is_live(WorkerKind::Tunnel));
    assert_eq!(sup.endpoint_url(), None);
}

#[test]
fn commit_spawn_rechecks_liveness_at_insert() {
    let mut sup = Supervisor::new();
    assert!(sup.commit_spawn(WorkerKind::Primary, 7));
    assert!(!sup.commit_spawn(WorkerKind::Primary, 8));
    assert_eq!(sup.registry.pid(WorkerKind::Primary), Some(7));
}

#[test]
fn full_teardown_records_kills_in_fixed_order() {
    let mut sup = Supervisor::new();
    sup.commit_spawn(WorkerKind::Primary, 1);
    sup.commit_spawn(WorkerKind::Tunnel, 2);
    sup.commit_spawn(WorkerKind::Auxiliary, 3);
    let kills = sup.shutdown();
    assert_eq!(
        kills,
        vec![
            (WorkerKind::Tunnel, Some(2)),
            (WorkerKind::Primary, Some(1)),
            (WorkerKind::Auxiliary, Some(3)),
        ]
    );
    assert!(!sup.is_live(WorkerKind::Primary));
    assert!(!sup.is_live(WorkerKind::Tunnel));
    assert!(!sup.is_live(WorkerKind::Auxiliary));
}

#[test]
fn teardown_order_holds_with_partial_liveness() {
    let mut sup = Supervisor::new();
    sup.commit_spawn(WorkerKind::Primary, 9);
    let kills = sup.shutdown();
    assert_eq!(
        kills,
        vec![
            (WorkerKind::Tunnel, None),
            (WorkerKind::Primary, Some(9)),
            (WorkerKind::Auxiliary, None),
        ]
    );
}

fn run(mut stage: Stage, events: &[StartupEvent]) -> Vec<StartupAction> {
    let mut actions = Vec::new();
    for &event in events {
        let (next, action) = step(stage, event);
        stage = next;
        actions.push(action);
    }
    actions
}

#[test]
fn happy_startup_sequence_reaches_steady() {
    let actions = run(
        Stage::Idle,
        &[
            StartupEvent::StartupRequested { auxiliary_required: true },
            StartupEvent::OrphansCleaned,
            StartupEvent::AuxiliaryStarted { ok: true },
            StartupEvent::PrimaryStarted { ok: true },
            StartupEvent::HealthVerdict { ready: true },
            StartupEvent::TunnelStarted { ok: true },
        ],
    );
    assert_eq!(
        actions,
        vec![
            StartupAction::CleanOrphans,
            StartupAction::StartAuxiliary,
            StartupAction::StartPrimary,
            StartupAction::AwaitHealth,
            StartupAction::StartTunnel,
            StartupAction::NoAction,
        ]
    );
}

#[test]
fn auxiliary_failure_is_not_fatal() {
    let actions = run(
        Stage::StartingAuxiliary,
        &[StartupEvent::AuxiliaryStarted { ok: false }],
    );
    assert_eq!(actions, vec![StartupAction::StartPrimary]);
}

#[test]
fn no_auxiliary_skips_straight_to_primary() {
    let actions = run(
        Stage::Idle,
        &[
            StartupEvent::StartupRequested { auxiliary_required: false },
            StartupEvent::OrphansCleaned,
        ],
    );
    assert_eq!(actions, vec![StartupAction::CleanOrphans, StartupAction::StartPrimary]);
}

#[test]
fn primary_failure_skips_health_and_tunnel() {
    let actions = run(
        Stage::Idle,
        &[
            StartupEvent::StartupRequested { auxiliary_required: false },
            StartupEvent::OrphansCleaned,
            StartupEvent::PrimaryStarted { ok: false },
            // Stray late events change nothing once the sequence is over.
            StartupEvent::HealthVerdict { ready: true },
            StartupEvent::TunnelStarted { ok: true },
        ],
    );
    assert!(!actions.contains(&StartupAction::AwaitHealth));
    assert!(!actions.contains(&StartupAction::StartTunnel));
}

#[test]
fn unready_health_verdict_skips_tunnel() {
    let actions = run(
        Stage::Idle,
        &[
            StartupEvent::StartupRequested { auxiliary_required: false },
            StartupEvent::OrphansCleaned,
            StartupEvent::PrimaryStarted { ok: true },
            StartupEvent::HealthVerdict { ready: false },
            StartupEvent::TunnelStarted { ok: true },
        ],
    );
    assert!(!actions.contains(&StartupAction::StartTunnel));
}

#[test]
fn shutdown_request_tears_down_from_any_stage() {
    let (stage, action) = step(Stage::AwaitingHealth, StartupEvent::ShutdownRequested);
    assert_eq!(stage, Stage::ShuttingDown);
    assert_eq!(action, StartupAction::TearDown);
    let (stage, action) = step(stage, StartupEvent::ShutdownFinished);
    assert_eq!(stage, Stage::Idle);
    assert_eq!(action, StartupAction::NoAction);
}
