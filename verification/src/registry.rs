//! The process registry: one ownership slot per worker kind, the sole
//! authority on whether a worker is currently live.
//!
//! A slot records the process id of the live worker, or nothing. The actual
//! operating-system handle is owned by the caller; the registry's slot state
//! is what every start/stop decision is made from.

use vstd::prelude::*;

verus! {

/// The closed set of worker kinds the supervisor manages.
#[derive(Clone, Copy, Debug, PartialEq, Eq, Structural)]
pub enum WorkerKind {
    /// The primary backend service.
    Primary,
    /// The outbound tunnel client.
    Tunnel,
    /// The optional auxiliary helper.
    Auxiliary,
}

/// One worker kind's ownership record: the process id of the live worker,
/// if one is live.
#[derive(Clone, Copy, Debug, PartialEq, Eq, Structural)]
pub struct WorkerSlot {
    /// The live worker's process id, or `None` where no worker is live.
    pub pid: Option<u32>,
}

impl WorkerSlot {
    /// The recorded process id, if the slot is populated.
    pub open spec fn spec_pid(self) -> Option<u32> {
        self.pid
    }

    /// A slot is live exactly when it holds a process id.
    pub open spec fn spec_is_live(self) -> bool {
        self.spec_pid() is Some
    }

    /// The slot as it stands after a process id is installed.
    pub open spec fn spec_installed(self, pid: u32) -> WorkerSlot {
        if self.spec_is_live() {
            self
        } else {
            WorkerSlot { pid: Some(pid) }
        }
    }

    /// The slot as it stands after it is cleared.
    pub open spec fn spec_cleared(self) -> WorkerSlot {
        WorkerSlot { pid: None }
    }

    /// An empty slot: no live worker.
    pub fn empty() -> (s: WorkerSlot)
        ensures
            s.spec_pid() is None,
    {
        WorkerSlot { pid: None }
    }

    /// Whether the slot holds a live worker.
    pub fn is_live(&self) -> (r: bool)
        ensures
            r == self.spec_is_live(),
    {
        self.pid.is_some()
    }

    /// The recorded process id, if any.
    pub fn pid(&self) -> (r: Option<u32>)
        ensures
            r == self.spec_pid(),
    {
        self.pid
    }

    /// Installs a freshly spawned process id, unless the slot is already
    /// live: a populated slot is never overwritten, so the liveness re-check
    /// at insert time is part of the operation itself. Returns whether the
    /// id was installed.
    pub fn install(&mut self, pid: u32) -> (installed: bool)
        ensures
            *final(self) == old(self).spec_installed(pid),
            installed == !old(self).spec_is_live(),
            final(self).spec_is_live(),
    {
        if self.pid.is_some() {
            false
        } else {
            self.pid = Some(pid);
            true
        }
    }

    /// Clears the slot, handing back the process id it held. On an empty
    /// slot this is a no-op.
    pub fn clear(&mut self) -> (r: Option<u32>)
        ensures
            *final(self) == old(self).spec_cleared(),
            r == old(self).spec_pid(),
            !final(self).spec_is_live(),
    {
        let r = self.pid;
        self.pid = None;
        r
    }
}

/// One slot per worker kind.
#[derive(Clone, Copy, Debug, PartialEq, Eq, Structural)]
pub struct ProcessRegistry {
    /// The primary backend service's slot.
    pub primary: WorkerSlot,
    /// The tunnel client's slot.
    pub tunnel: WorkerSlot,
    /// The auxiliary helper's slot.
    pub auxiliary: WorkerSlot,
}

impl ProcessRegistry {
    /// The slot that belongs to a kind.
    pub open spec fn spec_slot(self, kind: WorkerKind) -> WorkerSlot {
        match kind {
            WorkerKind::Primary => self.primary,
            WorkerKind::Tunnel => self.tunnel,
            WorkerKind::Auxiliary => self.auxiliary,
        }
    }

    /// Whether a kind's worker is live.
    pub open spec fn spec_is_live(self, kind: WorkerKind) -> bool {
        self.spec_slot(kind).spec_is_live()
    }

    /// The registry as it stands after a process id is installed for a kind
    /// (a no-op where that kind is already live).
    pub open spec fn spec_installed(self, kind: WorkerKind, pid: u32) -> ProcessRegistry {
        self.spec_with_slot(kind, self.spec_slot(kind).spec_installed(pid))
    }

    /// The registry as it stands after a kind's slot is cleared.
    pub open spec fn spec_cleared(self, kind: WorkerKind) -> ProcessRegistry {
        self.spec_with_slot(kind, self.spec_slot(kind).spec_cleared())
    }

    /// The registry with one kind's slot replaced.
    pub open spec fn spec_with_slot(self, kind: WorkerKind, slot: WorkerSlot) -> ProcessRegistry {
        match kind {
            WorkerKind::Primary => ProcessRegistry { primary: slot, ..self },
            WorkerKind::Tunnel => ProcessRegistry { tunnel: slot, ..self },
            WorkerKind::Auxiliary => ProcessRegistry { auxiliary: slot, ..self },
        }
    }

    /// A registry with every slot empty.
    pub fn new() -> (r: ProcessRegistry)
        ensures
            forall|k: WorkerKind| !r.spec_is_live(k),
    {
        let r = ProcessRegistry {
            primary: WorkerSlot::empty(),
            tunnel: WorkerSlot::empty(),
            auxiliary: WorkerSlot::empty(),
        };
        assert forall|k: WorkerKind| !r.spec_is_live(k) by {
            match k {
                WorkerKind::Primary => {},
                WorkerKind::Tunnel => {},
                WorkerKind::Auxiliary => {},
            }
        }
        r
    }

    /// Whether a kind's worker is live.
    pub fn is_live(&self, kind: WorkerKind) -> (r: bool)
        ensures
            r == self.spec_is_live(kind),
    {
        match kind {
            WorkerKind::Primary => self.primary.is_live(),
            WorkerKind::Tunnel => self.tunnel.is_live(),
            WorkerKind::Auxiliary => self.auxiliary.is_live(),
        }
    }

    /// The process id recorded for a kind, if it is live.
    pub fn pid(&self, kind: WorkerKind) -> (r: Option<u32>)
        ensures
            r == self.spec_slot(kind).spec_pid(),
    {
        match kind {
            WorkerKind::Primary => self.primary.pid(),
            WorkerKind::Tunnel => self.tunnel.pid(),
            WorkerKind::Auxiliary => self.auxiliary.pid(),
        }
    }

    /// Installs a freshly spawned process id for a kind, unless that kind is
    /// already live. Returns whether the id was installed; every other
    /// kind's slot is untouched.
    pub fn install(&mut self, kind: WorkerKind, pid: u32) -> (installed: bool)
        ensures
            *final(self) == old(self).spec_installed(kind, pid),
            installed == !old(self).spec_is_live(kind),
            final(self).spec_is_live(kind),
    {
        match kind {
            WorkerKind::Primary => self.primary.install(pid),
            WorkerKind::Tunnel => self.tunnel.install(pid),
            WorkerKind::Auxiliary => self.auxiliary.install(pid),
        }
    }

    /// Starting a worker twice without an intervening stop yields exactly
    /// one live process: the first start installs its process id, and the
    /// second finds the slot live and changes nothing — whatever id the
    /// second spawn would have carried.
    pub proof fn lemma_start_idempotent(
        self,
        kind: WorkerKind,
        first_pid: u32,
        second_pid: u32,
    )
        requires
            !self.spec_is_live(kind),
        ensures
            self.spec_installed(kind, first_pid).spec_slot(kind).spec_pid() == Some(first_pid),
            self.spec_installed(kind, first_pid).spec_installed(kind, second_pid)
                == self.spec_installed(kind, first_pid),
    {
    }

    /// Clears a kind's slot, handing back the process id it held. On a
    /// non-live kind this is a no-op; every other kind's slot is untouched.
    pub fn clear(&mut self, kind: WorkerKind) -> (r: Option<u32>)
        ensures
            *final(self) == old(self).spec_cleared(kind),
            r == old(self).spec_slot(kind).spec_pid(),
            !final(self).spec_is_live(kind),
    {
        match kind {
            WorkerKind::Primary => self.primary.clear(),
            WorkerKind::Tunnel => self.tunnel.clear(),
            WorkerKind::Auxiliary => self.auxiliary.clear(),
        }
    }
}

} // verus!
