//! A process supervisor core: it plans the launch, readiness gating, and
//! ordered teardown of a small fixed set of worker processes (a primary
//! backend service, an outbound tunnel client, and an optional auxiliary
//! helper), discovers the tunnel's public endpoint by scanning the tunnel
//! client's log output, and decides readiness of the primary service from
//! polled health-probe outcomes.
//!
//! The crate holds the supervisor's decision logic only: which executable to
//! run with which arguments, whether a worker is live, when a start is a
//! no-op, when the tunnel may be started, and in which order workers are torn
//! down. Performing the spawns, kills, network probes and log reads is the
//! caller's part; every outcome is handed back in as a plain value.

use vstd::prelude::*;

pub mod health;
pub mod launcher;
pub mod orchestrator;
pub mod orphans;
pub mod registry;
pub mod roots;
pub mod text;
pub mod updates;
pub mod watcher;

verus! {

} // verus!
