//! The orchestrator: the startup/shutdown state machine that sequences
//! orphan cleanup, ordered launch, health gating and ordered teardown, and
//! the supervisor state it drives.
//!
//! The machine is a pure step function from stage and event to next stage
//! and action. The caller performs each action — cleaning orphans, spawning
//! a worker, running the health wait, tearing down — and hands the outcome
//! back as the next event.

use crate::registry::{ProcessRegistry, WorkerKind};
use crate::watcher::{LineOutcome, TunnelWatch};
use vstd::prelude::*;

verus! {

/// Where the startup/shutdown sequence stands.
#[derive(Clone, Copy, Debug, PartialEq, Eq, Structural)]
pub enum Stage {
    /// Nothing sequenced: before startup, or after a finished shutdown.
    Idle,
    /// Best-effort cleanup of workers left over from a prior run. The flag
    /// records whether an auxiliary helper is required this run.
    CleaningOrphans { auxiliary_required: bool },
    /// The auxiliary helper is being started (its failure is non-fatal).
    StartingAuxiliary,
    /// The primary service is being started (its failure is fatal to the
    /// sequence: health wait and tunnel start are both skipped).
    StartingPrimary,
    /// The bounded health wait is running; its verdict gates the tunnel.
    AwaitingHealth,
    /// The tunnel is being started and its readiness signal awaited.
    StartingTunnel,
    /// The sequence is over — fully up, or degraded where a non-fatal stage
    /// failed or the health verdict was not ready.
    Steady,
    /// Workers are being torn down in order Tunnel, Primary, Auxiliary.
    ShuttingDown,
}

/// What happened: the outcome of the last action, or an external request.
#[derive(Clone, Copy, Debug, PartialEq, Eq, Structural)]
pub enum StartupEvent {
    /// Startup was requested; whether an auxiliary helper is required.
    StartupRequested { auxiliary_required: bool },
    /// The best-effort orphan cleanup finished (it never fails the sequence).
    OrphansCleaned,
    /// The auxiliary helper's start finished, well or badly.
    AuxiliaryStarted { ok: bool },
    /// The primary service's start finished, well or badly.
    PrimaryStarted { ok: bool },
    /// The bounded health wait finished with this verdict.
    HealthVerdict { ready: bool },
    /// The tunnel start finished: ready in time, or failed and killed.
    TunnelStarted { ok: bool },
    /// A full stop was requested.
    ShutdownRequested,
    /// The ordered teardown finished.
    ShutdownFinished,
}

/// What the caller should do next.
#[derive(Clone, Copy, Debug, PartialEq, Eq, Structural)]
pub enum StartupAction {
    /// Terminate leftover workers from a prior run by name, and release the
    /// auxiliary port if still bound; failures are logged, never fatal.
    CleanOrphans,
    /// Start the auxiliary helper.
    StartAuxiliary,
    /// Start the primary service.
    StartPrimary,
    /// Run the bounded health wait against the primary service.
    AwaitHealth,
    /// Start the tunnel and await its one-shot readiness signal; on timeout
    /// kill the tunnel process and report the failure.
    StartTunnel,
    /// Tear all workers down, in order Tunnel, Primary, Auxiliary.
    TearDown,
    /// Nothing to perform.
    NoAction,
}

/// The machine's step: from a stage and an event to the next stage and the
/// action the caller should perform. An event that does not belong to the
/// stage changes nothing.
pub open spec fn spec_step(stage: Stage, event: StartupEvent) -> (Stage, StartupAction) {
    match (stage, event) {
        (_, StartupEvent::ShutdownRequested) => (Stage::ShuttingDown, StartupAction::TearDown),
        (Stage::Idle, StartupEvent::StartupRequested { auxiliary_required }) => (
            Stage::CleaningOrphans { auxiliary_required },
            StartupAction::CleanOrphans,
        ),
        (Stage::CleaningOrphans { auxiliary_required }, StartupEvent::OrphansCleaned) => if auxiliary_required {
            (Stage::StartingAuxiliary, StartupAction::StartAuxiliary)
        } else {
            (Stage::StartingPrimary, StartupAction::StartPrimary)
        },
        (Stage::StartingAuxiliary, StartupEvent::AuxiliaryStarted { .. }) => (
            Stage::StartingPrimary,
            StartupAction::StartPrimary,
        ),
        (Stage::StartingPrimary, StartupEvent::PrimaryStarted { ok }) => if ok {
            (Stage::AwaitingHealth, StartupAction::AwaitHealth)
        } else {
            (Stage::Steady, StartupAction::NoAction)
        },
        (Stage::AwaitingHealth, StartupEvent::HealthVerdict { ready }) => if ready {
            (Stage::StartingTunnel, StartupAction::StartTunnel)
        } else {
            (Stage::Steady, StartupAction::NoAction)
        },
        (Stage::StartingTunnel, StartupEvent::TunnelStarted { .. }) => (
            Stage::Steady,
            StartupAction::NoAction,
        ),
        (Stage::ShuttingDown, StartupEvent::ShutdownFinished) => (
            Stage::Idle,
            StartupAction::NoAction,
        ),
        _ => (stage, StartupAction::NoAction),
    }
}

/// Takes the machine one step.
pub fn step(stage: Stage, event: StartupEvent) -> (r: (Stage, StartupAction))
    ensures
        r == spec_step(stage, event),
{
    match (stage, event) {
        (_, StartupEvent::ShutdownRequested) => (Stage::ShuttingDown, StartupAction::TearDown),
        (Stage::Idle, StartupEvent::StartupRequested { auxiliary_required }) => (
            Stage::CleaningOrphans { auxiliary_required },
            StartupAction::CleanOrphans,
        ),
        (Stage::CleaningOrphans { auxiliary_required }, StartupEvent::OrphansCleaned) => if auxiliary_required {
            (Stage::StartingAuxiliary, StartupAction::StartAuxiliary)
        } else {
            (Stage::StartingPrimary, StartupAction::StartPrimary)
        },
        (Stage::StartingAuxiliary, StartupEvent::AuxiliaryStarted { .. }) => (
            Stage::StartingPrimary,
            StartupAction::StartPrimary,
        ),
        (Stage::StartingPrimary, StartupEvent::PrimaryStarted { ok }) => if ok {
            (Stage::AwaitingHealth, StartupAction::AwaitHealth)
        } else {
            (Stage::Steady, StartupAction::NoAction)
        },
        (Stage::AwaitingHealth, StartupEvent::HealthVerdict { ready }) => if ready {
            (Stage::StartingTunnel, StartupAction::StartTunnel)
        } else {
            (Stage::Steady, StartupAction::NoAction)
        },
        (Stage::StartingTunnel, StartupEvent::TunnelStarted { .. }) => (
            Stage::Steady,
            StartupAction::NoAction,
        ),
        (Stage::ShuttingDown, StartupEvent::ShutdownFinished) => (
            Stage::Idle,
            StartupAction::NoAction,
        ),
        _ => (stage, StartupAction::NoAction),
    }
}

/// Whether running the machine from `stage` over `events` ever emits the
/// tunnel-start action.
pub open spec fn spec_emits_tunnel_start(stage: Stage, events: Seq<StartupEvent>) -> bool
    decreases events.len(),
{
    if events.len() == 0 {
        false
    } else {
        ||| spec_step(stage, events[0]).1 is StartTunnel
        ||| spec_emits_tunnel_start(spec_step(stage, events[0]).0, events.drop_first())
    }
}

/// The tunnel-start action is emitted by exactly one step: a ready health
/// verdict arriving in the health wait.
pub proof fn lemma_tunnel_gate(stage: Stage, event: StartupEvent)
    ensures
        spec_step(stage, event).1 is StartTunnel <==> stage is AwaitingHealth && event == (
        StartupEvent::HealthVerdict { ready: true }),
{
}

/// A tunnel start is never attempted while no primary start has succeeded:
/// from any stage short of the health wait, a run whose events carry no
/// successful primary start never emits the tunnel-start action.
pub proof fn lemma_no_tunnel_without_primary(stage: Stage, events: Seq<StartupEvent>)
    requires
        !(stage is AwaitingHealth),
        forall|k: int|
            0 <= k < events.len() ==> events[k] != (StartupEvent::PrimaryStarted { ok: true }),
    ensures
        !spec_emits_tunnel_start(stage, events),
    decreases events.len(),
{
    if events.len() > 0 {
        let next = spec_step(stage, events[0]).0;
        assert(events[0] != (StartupEvent::PrimaryStarted { ok: true }));
        assert(!(next is AwaitingHealth));
        assert forall|k: int|
            0 <= k < events.drop_first().len() implies events.drop_first()[k] != (
        StartupEvent::PrimaryStarted { ok: true }) by {
            assert(events.drop_first()[k] == events[k + 1]);
        }
        lemma_no_tunnel_without_primary(next, events.drop_first());
    }
}

/// A tunnel start is never attempted while the health wait has not come back
/// ready: a run whose events carry no ready verdict never emits the
/// tunnel-start action, from any stage.
pub proof fn lemma_no_tunnel_without_health(stage: Stage, events: Seq<StartupEvent>)
    requires
        forall|k: int|
            0 <= k < events.len() ==> events[k] != (StartupEvent::HealthVerdict { ready: true }),
    ensures
        !spec_emits_tunnel_start(stage, events),
    decreases events.len(),
{
    if events.len() > 0 {
        let next = spec_step(stage, events[0]).0;
        assert forall|k: int|
            0 <= k < events.drop_first().len() implies events.drop_first()[k] != (
        StartupEvent::HealthVerdict { ready: true }) by {
            assert(events.drop_first()[k] == events[k + 1]);
        }
        lemma_no_tunnel_without_health(next, events.drop_first());
    }
}

/// The supervisor's shared state: the registry of live workers and the
/// tunnel watch holding the one-shot readiness flag and the discovered
/// endpoint.
pub struct Supervisor {
    /// One slot per worker kind.
    pub registry: ProcessRegistry,
    /// The tunnel output watch for the current tunnel lifetime.
    pub watch: TunnelWatch,
}

impl Supervisor {
    /// The watch never holds a URL it has not fired for.
    pub open spec fn wf(self) -> bool {
        self.watch.wf()
    }

    /// A fresh supervisor: no worker live, nothing watched.
    pub fn new() -> (s: Supervisor)
        ensures
            s.wf(),
            forall|k: WorkerKind| !s.registry.spec_is_live(k),
            !s.watch.fired,
            s.watch.url is None,
    {
        Supervisor { registry: ProcessRegistry::new(), watch: TunnelWatch::new() }
    }

    /// Whether a kind's worker is live.
    pub fn is_live(&self, kind: WorkerKind) -> (r: bool)
        ensures
            r == self.registry.spec_is_live(kind),
    {
        self.registry.is_live(kind)
    }

    /// The discovered tunnel endpoint URL, if the watch has seen one this
    /// tunnel lifetime.
    pub fn endpoint_url(&self) -> (r: Option<String>)
        ensures
            r == self.watch.url,
    {
        match &self.watch.url {
            Some(u) => Some(u.clone()),
            None => None,
        }
    }

    /// Installs a freshly spawned worker's process id, unless that kind is
    /// already live (the insert-time liveness re-check). Returns whether it
    /// was installed.
    pub fn commit_spawn(&mut self, kind: WorkerKind, pid: u32) -> (installed: bool)
        requires
            old(self).wf(),
        ensures
            final(self).wf(),
            final(self).registry == old(self).registry.spec_installed(kind, pid),
            final(self).watch == old(self).watch,
            installed == !old(self).registry.spec_is_live(kind),
            final(self).registry.spec_is_live(kind),
    {
        self.registry.install(kind, pid)
    }

    /// Feeds one tunnel log line from either output stream to the watch.
    pub fn process_tunnel_line(&mut self, line: &str) -> (out: LineOutcome)
        requires
            old(self).wf(),
        ensures
            final(self).wf(),
            final(self).registry == old(self).registry,
            final(self).watch.fired == (old(self).watch.fired || crate::watcher::spec_has_endpoint(
                line@,
            )),
            out.connected is Some <==> !old(self).watch.fired
                && crate::watcher::spec_has_endpoint(line@),
            out.error == crate::text::spec_contains(line@, crate::watcher::spec_error_marker()),
            match out.connected {
                Some(u) => crate::watcher::spec_leftmost_endpoint(line@, u@)
                    && final(self).watch.url == out.connected,
                None => final(self).watch.url == old(self).watch.url,
            },
    {
        self.watch.process_line(line)
    }

    /// Stops one worker kind: clears its slot and hands back the process id
    /// to kill and wait on (descendants first, then the child itself). On
    /// the tunnel this also clears the watch — the discovered endpoint does
    /// not outlive the tunnel. On a non-live kind the stop is a no-op and
    /// never errors.
    pub fn stop(&mut self, kind: WorkerKind) -> (r: Option<u32>)
        requires
            old(self).wf(),
        ensures
            final(self).wf(),
            r == old(self).registry.spec_slot(kind).spec_pid(),
            final(self).registry == old(self).registry.spec_cleared(kind),
            !final(self).registry.spec_is_live(kind),
            kind is Tunnel ==> !final(self).watch.fired && final(self).watch.url is None,
            !(kind is Tunnel) ==> final(self).watch == old(self).watch,
            !old(self).registry.spec_is_live(kind) && (kind is Tunnel ==> !old(self).watch.fired
                && old(self).watch.url is None) ==> *final(self) == *old(self) && r is None,
    {
        let r = self.registry.clear(kind);
        if let WorkerKind::Tunnel = kind {
            self.watch.reset();
        }
        r
    }

    /// Full teardown: stops every worker, recording the kills in the fixed
    /// order Tunnel, Primary, Auxiliary, and hands back that ordered record —
    /// each kind with the process id that was live for it, if any. Afterwards
    /// no worker is live and the watch is clear.
    pub fn shutdown(&mut self) -> (kills: Vec<(WorkerKind, Option<u32>)>)
        requires
            old(self).wf(),
        ensures
            final(self).wf(),
            kills@.len() == 3,
            kills@[0].0 is Tunnel,
            kills@[0].1 == old(self).registry.spec_slot(WorkerKind::Tunnel).spec_pid(),
            kills@[1].0 is Primary,
            kills@[1].1 == old(self).registry.spec_slot(WorkerKind::Primary).spec_pid(),
            kills@[2].0 is Auxiliary,
            kills@[2].1 == old(self).registry.spec_slot(WorkerKind::Auxiliary).spec_pid(),
            forall|k: WorkerKind| !final(self).registry.spec_is_live(k),
            !final(self).watch.fired && final(self).watch.url is None,
    {
        let t = self.stop(WorkerKind::Tunnel);
        let p = self.stop(WorkerKind::Primary);
        let a = self.stop(WorkerKind::Auxiliary);
        let mut kills: Vec<(WorkerKind, Option<u32>)> = Vec::new();
        kills.push((WorkerKind::Tunnel, t));
        kills.push((WorkerKind::Primary, p));
        kills.push((WorkerKind::Auxiliary, a));
        assert forall|k: WorkerKind| !self.registry.spec_is_live(k) by {
            match k {
                WorkerKind::Primary => {},
                WorkerKind::Tunnel => {},
                WorkerKind::Auxiliary => {},
            }
        }
        kills
    }
}

} // verus!
