use vstd::prelude::*;

use crate::registry::{PeerAddr, PeerRegistry};
use crate::session::SessionOutcome;
use crate::supervisor::Supervisor;

verus! {

/// The life of a server: `Running`, then `ShuttingDown` after the first
/// interrupt, then `Stopped` once teardown is done.
#[derive(Clone, Copy, Debug, PartialEq, Eq, Structural)]
pub enum Phase {
    Running,
    ShuttingDown,
    Stopped,
}

/// What the stream dispatch loop observed.
pub enum StreamEvent {
    /// A connection was accepted.
    Accepted,
    /// Session task `id` ended.
    TaskDone { id: u64, outcome: SessionOutcome },
    /// The interrupt signal arrived.
    Interrupt,
}

/// What the stream dispatch loop must do next.
pub enum StreamAction {
    /// Start a session task for the new connection under this id.
    Spawn { id: u64 },
    /// Drop the new connection: the server is stopping or no id is left.
    Refuse,
    /// Report how session task `id` ended.
    Report { id: u64, outcome: SessionOutcome },
    /// Cancel these tasks and wait until all of them have stopped.
    CancelAll { ids: Vec<u64> },
    /// Nothing to do.
    Ignore,
}

/// What the datagram dispatch loop observed.
pub enum DatagramEvent {
    /// A datagram arrived from `from`.
    Received { from: PeerAddr },
    /// The interrupt signal arrived.
    Interrupt,
}

/// What the datagram dispatch loop must do next.
pub enum DatagramAction {
    /// Send the datagram's payload back to `to`; `first_contact` says whether
    /// `to` had never been seen before.
    Echo { to: PeerAddr, first_contact: bool },
    /// Send the farewell datagram to each of `targets`, then stop.
    Farewell { targets: Vec<PeerAddr> },
    /// Nothing to do.
    Ignore,
}

/// The decisions of the stream-mode dispatch loop.
pub struct StreamServer {
    pub phase: Phase,
    pub tasks: Supervisor,
}

impl StreamServer {
    /// Once shutdown has begun no task is registered any more.
    pub open spec fn wf(&self) -> bool {
        &&& self.tasks.wf()
        &&& self.phase != Phase::Running ==> self.tasks.tasks() == Set::<u64>::empty()
    }

    pub fn new() -> (r: StreamServer)
        ensures
            r.wf(),
            r.phase == Phase::Running,
            r.tasks.tasks() == Set::<u64>::empty(),
    {
        StreamServer { phase: Phase::Running, tasks: Supervisor::new() }
    }

    /// Whether the loop should wait for task completions: only while tasks are registered.
    pub fn awaits_completions(&self) -> (r: bool)
        requires
            self.wf(),
        ensures
            r == !self.tasks.tasks().is_empty(),
    {
        self.tasks.has_pending()
    }

    /// Decides what to do about one event.
    pub fn step(&mut self, ev: StreamEvent) -> (r: StreamAction)
        requires
            old(self).wf(),
        ensures
            final(self).wf(),
            final(self).tasks.next_id >= old(self).tasks.next_id,
            ev is Accepted && old(self).phase == Phase::Running && old(self).tasks.next_id
                < u64::MAX ==> r == (StreamAction::Spawn { id: old(self).tasks.next_id })
                && final(self).tasks.tasks() == old(self).tasks.tasks().insert(
                old(self).tasks.next_id,
            ) && final(self).phase == Phase::Running,
            ev is Accepted && (old(self).phase != Phase::Running || old(self).tasks.next_id
                == u64::MAX) ==> r is Refuse && *final(self) == *old(self),
            ev matches StreamEvent::TaskDone { id, outcome } ==> final(self).phase == old(
                self,
            ).phase && final(self).tasks.tasks() == old(self).tasks.tasks().remove(id) && if old(
                self,
            ).tasks.tasks().contains(id) {
                r == (StreamAction::Report { id, outcome })
            } else {
                r is Ignore
            },
            ev is Interrupt && old(self).phase == Phase::Running ==> final(self).phase
                == Phase::ShuttingDown && (r matches StreamAction::CancelAll { ids }
                && ids@.no_duplicates() && ids@.to_set() == old(self).tasks.tasks()),
            ev is Interrupt && old(self).phase != Phase::Running ==> r is Ignore && *final(self)
                == *old(self),
    {
        match ev {
            StreamEvent::Accepted => {
                if self.phase == Phase::Running {
                    match self.tasks.spawn() {
                        Some(id) => StreamAction::Spawn { id },
                        None => StreamAction::Refuse,
                    }
                } else {
                    StreamAction::Refuse
                }
            },
            StreamEvent::TaskDone { id, outcome } => {
                let known = self.tasks.complete(id);
                proof {
                    assert(Set::<u64>::empty().remove(id) =~= Set::<u64>::empty());
                }
                if known {
                    StreamAction::Report { id, outcome }
                } else {
                    StreamAction::Ignore
                }
            },
            StreamEvent::Interrupt => {
                if self.phase == Phase::Running {
                    let ids = self.tasks.cancel_all();
                    self.phase = Phase::ShuttingDown;
                    StreamAction::CancelAll { ids }
                } else {
                    StreamAction::Ignore
                }
            },
        }
    }

    /// Records that every cancelled task has stopped.
    pub fn shutdown_complete(&mut self)
        requires
            old(self).wf(),
            old(self).phase == Phase::ShuttingDown,
        ensures
            final(self).wf(),
            final(self).phase == Phase::Stopped,
            final(self).tasks.tasks() == Set::<u64>::empty(),
    {
        self.phase = Phase::Stopped;
    }
}

/// Once a stream server has stopped, no session task is left registered.
pub proof fn lemma_stopped_stream_server_has_no_tasks(s: StreamServer)
    requires
        s.wf(),
        s.phase == Phase::Stopped,
    ensures
        s.tasks.tasks() == Set::<u64>::empty(),
{
}

/// The decisions of the datagram-mode dispatch loop.
pub struct DatagramServer {
    pub phase: Phase,
    pub registry: PeerRegistry,
}

impl DatagramServer {
    /// Once shutdown has begun the registry has been handed to the farewell sweep.
    pub open spec fn wf(&self) -> bool {
        &&& self.registry.wf()
        &&& self.phase != Phase::Running ==> self.registry.view() == Set::<PeerAddr>::empty()
    }

    pub fn new() -> (r: DatagramServer)
        ensures
            r.wf(),
            r.phase == Phase::Running,
            r.registry.view() == Set::<PeerAddr>::empty(),
    {
        DatagramServer { phase: Phase::Running, registry: PeerRegistry::new() }
    }

    /// Decides what to do about one event.
    pub fn step(&mut self, ev: DatagramEvent) -> (r: DatagramAction)
        requires
            old(self).wf(),
        ensures
            final(self).wf(),
            ev matches DatagramEvent::Received { from } ==> (old(self).phase == Phase::Running
                ==> r == (DatagramAction::Echo {
                to: from,
                first_contact: !old(self).registry.view().contains(from),
            }) && final(self).registry.view() == old(self).registry.view().insert(from)
                && final(self).phase == Phase::Running),
            ev is Interrupt && old(self).phase == Phase::Running ==> final(self).phase
                == Phase::ShuttingDown && (r matches DatagramAction::Farewell { targets }
                && targets@.no_duplicates() && targets@.to_set() == old(self).registry.view()),
            old(self).phase != Phase::Running ==> r is Ignore && final(self).phase == old(
                self,
            ).phase && final(self).registry.view() == old(self).registry.view(),
    {
        if !(self.phase == Phase::Running) {
            return DatagramAction::Ignore;
        }
        match ev {
            DatagramEvent::Received { from } => {
                let first_contact = self.registry.observe(from);
                DatagramAction::Echo { to: from, first_contact }
            },
            DatagramEvent::Interrupt => {
                let mut reg = PeerRegistry::new();
                core::mem::swap(&mut self.registry, &mut reg);
                self.phase = Phase::ShuttingDown;
                let targets = reg.into_farewell_targets();
                DatagramAction::Farewell { targets }
            },
        }
    }

    /// Records that the farewell sweep is done.
    pub fn shutdown_complete(&mut self)
        requires
            old(self).wf(),
            old(self).phase == Phase::ShuttingDown,
        ensures
            final(self).wf(),
            final(self).phase == Phase::Stopped,
    {
        self.phase = Phase::Stopped;
    }
}

} // verus!
