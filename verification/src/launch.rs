//! Creating a fork, step by step.
//!
//! Creating a fork takes outside work: asking the upstream for its head,
//! finding a port, starting the node and waiting until it answers. The
//! caller does that work. After each piece it reports what happened, and
//! the functions here decide what is next. Every wait is bounded, and a
//! node that was started is stopped before a failure is reported.

use vstd::prelude::*;
use crate::error::AnchorError;
use crate::fork::{Fork, ForkManager, ForkView, fork_ids, port_taken, spec_record, spec_remove,
    spec_rpc_url};
use crate::registry::{known, position};
use crate::text::{copy_opt, opt_text};
use crate::network::Network;

verus! {

/// How often a port is picked before the search is given up.
pub const PORT_ATTEMPTS: u32 = 10;

/// How often a new node is asked before it counts as unresponsive.
pub const READY_POLLS: u32 = 150;

/// The pause before each question to a new node, in milliseconds.
pub const READY_POLL_INTERVAL_MS: u64 = 200;

/// What the caller wants forked.
#[derive(Debug, PartialEq, Eq)]
pub struct ForkRequest {
    pub network: Network,
    /// The block to fork at; the upstream's head where it is `None`.
    pub block: Option<u64>,
    /// The port to listen on; one that the host offers where it is `None`.
    pub port: Option<u16>,
    pub session: Option<String>,
}

/// The outside work that a fork in the making waits for.
#[derive(Clone, Copy, Debug, PartialEq, Eq)]
pub enum ForkPhase {
    /// The upstream is asked for its head.
    ResolvingHead,
    /// The host is asked whether the requested port can be bound.
    ProbingPort { block: u64, port: u16 },
    /// The host is asked for a free port.
    PickingPort { block: u64, attempts_left: u32 },
    /// The node is started.
    Spawning { block: u64, port: u16 },
    /// The node is asked, after a pause, whether it answers.
    Polling { block: u64, port: u16, pid: u32, polls_left: u32 },
    /// The node is stopped, because the fork failed for `reason`.
    Reaping { pid: u32, reason: AnchorError },
}

/// What the caller reports after a piece of outside work.
#[derive(Clone, Copy, Debug, PartialEq, Eq)]
pub enum ForkEvent {
    /// The upstream's head, or `None` where it could not be had.
    Head(Option<u64>),
    /// Whether the requested port could be bound.
    Probed(bool),
    /// A port that the host offers, or `None` where it offers none.
    Picked(Option<u16>),
    /// The process id of the node, or `None` where it could not be started.
    Spawned(Option<u32>),
    /// Whether the node answered.
    Polled(bool),
    /// The node was stopped.
    Reaped,
}

/// A piece of outside work.
#[derive(Clone, Copy, Debug, PartialEq, Eq)]
pub enum ForkAction {
    /// Ask the upstream of `network` for its current block number.
    QueryHead { network: Network },
    /// Try to bind `port` on the host.
    ProbePort { port: u16 },
    /// Ask the host for a free port.
    PickPort,
    /// Start a node that replays `network` from `block` and listens on `port`.
    Spawn { network: Network, block: u64, port: u16 },
    /// Pause, then ask the node on `port` for its block number.
    Poll { port: u16 },
    /// Stop the process `pid`.
    Terminate { pid: u32 },
}

/// What a fork in the making has come to.
#[derive(Clone, Copy, Debug, PartialEq, Eq)]
pub enum ForkStep {
    /// Do the work of this phase and report back.
    Wait(ForkPhase),
    /// The node answers: the fork can be recorded.
    Ready { block: u64, port: u16, pid: u32 },
    /// The fork failed, and no node is left running.
    Failed(AnchorError),
}

impl ForkPhase {
    /// The work that this phase waits for.
    pub open spec fn spec_action(self, network: Network) -> ForkAction {
        match self {
            ForkPhase::ResolvingHead => ForkAction::QueryHead { network },
            ForkPhase::ProbingPort { block, port } => ForkAction::ProbePort { port },
            ForkPhase::PickingPort { block, attempts_left } => ForkAction::PickPort,
            ForkPhase::Spawning { block, port } => ForkAction::Spawn { network, block, port },
            ForkPhase::Polling { block, port, pid, polls_left } => ForkAction::Poll { port },
            ForkPhase::Reaping { pid, reason } => ForkAction::Terminate { pid },
        }
    }

    /// The work that this phase waits for, for a fork of `network`.
    pub fn action(&self, network: Network) -> (r: ForkAction)
        ensures
            r == self.spec_action(network),
    {
        match *self {
            ForkPhase::ResolvingHead => ForkAction::QueryHead { network },
            ForkPhase::ProbingPort { block, port } => ForkAction::ProbePort { port },
            ForkPhase::PickingPort { block, attempts_left } => ForkAction::PickPort,
            ForkPhase::Spawning { block, port } => ForkAction::Spawn { network, block, port },
            ForkPhase::Polling { block, port, pid, polls_left } => ForkAction::Poll { port },
            ForkPhase::Reaping { pid, reason } => ForkAction::Terminate { pid },
        }
    }

    /// A bound on the pieces of work that are still to come, this phase's
    /// included.
    pub open spec fn budget(self) -> nat {
        match self {
            ForkPhase::ResolvingHead => (READY_POLLS + PORT_ATTEMPTS + 5) as nat,
            ForkPhase::PickingPort { block, attempts_left } => (READY_POLLS + attempts_left + 4) as nat,
            ForkPhase::ProbingPort { block, port } => (READY_POLLS + 4) as nat,
            ForkPhase::Spawning { block, port } => (READY_POLLS + 3) as nat,
            ForkPhase::Polling { block, port, pid, polls_left } => (polls_left + 2) as nat,
            ForkPhase::Reaping { pid, reason } => 1,
        }
    }
}

/// What follows once the block is known: the requested port is refused
/// where a live fork holds it and probed where none does; without a
/// requested port the host is asked for one.
pub open spec fn spec_choose_port(s: Seq<ForkView>, port: Option<u16>, block: u64) -> ForkStep {
    match port {
        Some(p) => if port_taken(s, p) {
            ForkStep::Failed(AnchorError::PortUnavailable)
        } else {
            ForkStep::Wait(ForkPhase::ProbingPort { block, port: p })
        },
        None => ForkStep::Wait(ForkPhase::PickingPort { block, attempts_left: PORT_ATTEMPTS }),
    }
}

/// The first step of a fork: without a requested block the upstream's head
/// is resolved first.
pub open spec fn spec_fork(s: Seq<ForkView>, block: Option<u64>, port: Option<u16>) -> ForkStep {
    match block {
        None => ForkStep::Wait(ForkPhase::ResolvingHead),
        Some(b) => spec_choose_port(s, port, b),
    }
}

/// What follows the phase `phase` once the caller reports `event`. An event
/// that does not answer the phase's work counts as the failure of that work.
pub open spec fn spec_fork_advance(
    s: Seq<ForkView>,
    port: Option<u16>,
    phase: ForkPhase,
    event: ForkEvent,
) -> ForkStep {
    match phase {
        ForkPhase::ResolvingHead => match event {
            ForkEvent::Head(Some(head)) => spec_choose_port(s, port, head),
            _ => ForkStep::Failed(AnchorError::UpstreamUnreachable),
        },
        ForkPhase::ProbingPort { block, port: p } => match event {
            ForkEvent::Probed(true) => if port_taken(s, p) {
                ForkStep::Failed(AnchorError::PortUnavailable)
            } else {
                ForkStep::Wait(ForkPhase::Spawning { block, port: p })
            },
            _ => ForkStep::Failed(AnchorError::PortUnavailable),
        },
        ForkPhase::PickingPort { block, attempts_left } => {
            if event matches ForkEvent::Picked(Some(p)) && !port_taken(s, p) {
                ForkStep::Wait(ForkPhase::Spawning { block, port: event->Picked_0->Some_0 })
            } else if attempts_left > 1 {
                ForkStep::Wait(
                    ForkPhase::PickingPort { block, attempts_left: (attempts_left - 1) as u32 },
                )
            } else {
                ForkStep::Failed(AnchorError::PortUnavailable)
            }
        },
        ForkPhase::Spawning { block, port: p } => match event {
            ForkEvent::Spawned(Some(pid)) => ForkStep::Wait(
                ForkPhase::Polling { block, port: p, pid, polls_left: READY_POLLS },
            ),
            _ => ForkStep::Failed(AnchorError::SpawnFailed),
        },
        ForkPhase::Polling { block, port: p, pid, polls_left } => {
            if event == ForkEvent::Polled(true) {
                if port_taken(s, p) {
                    ForkStep::Wait(ForkPhase::Reaping { pid, reason: AnchorError::PortUnavailable })
                } else {
                    ForkStep::Ready { block, port: p, pid }
                }
            } else if polls_left > 1 {
                ForkStep::Wait(
                    ForkPhase::Polling { block, port: p, pid, polls_left: (polls_left - 1) as u32 },
                )
            } else {
                ForkStep::Wait(ForkPhase::Reaping { pid, reason: AnchorError::ReadinessTimeout })
            }
        },
        ForkPhase::Reaping { pid, reason } => ForkStep::Failed(reason),
    }
}

/// A fork never takes the port of a live fork: a node is started, and a
/// fork is declared ready, only on a port that no fork of the registry
/// holds.
pub proof fn lemma_fork_never_reuses_port(
    s: Seq<ForkView>,
    port: Option<u16>,
    phase: ForkPhase,
    event: ForkEvent,
)
    ensures
        spec_fork_advance(s, port, phase, event) matches ForkStep::Ready { port: p, .. }
            ==> !port_taken(s, p),
        spec_fork_advance(s, port, phase, event) matches ForkStep::Wait(
            ForkPhase::Spawning { port: p, .. },
        ) ==> !port_taken(s, p),
        port matches Some(p) && port_taken(s, p) ==> forall|b: u64|
            #[trigger] spec_fork(s, Some(b), port) == ForkStep::Failed(
                AnchorError::PortUnavailable,
            ),
{
}

/// Creating a fork ends: each step leaves less work to come than the one
/// before it, so no run of steps is longer than the first phase's budget.
pub proof fn lemma_fork_budget_shrinks(
    s: Seq<ForkView>,
    port: Option<u16>,
    phase: ForkPhase,
    event: ForkEvent,
)
    ensures
        spec_fork_advance(s, port, phase, event) matches ForkStep::Wait(next) ==> next.budget()
            < phase.budget(),
        forall|b: Option<u64>| #[trigger]
            spec_fork(s, b, port) matches ForkStep::Wait(first) ==> first.budget() <= READY_POLLS
                + PORT_ATTEMPTS + 5,
{
}

/// A node that was started is never left behind: once a node runs, a
/// failure is reported only after the node was stopped.
pub proof fn lemma_fork_failure_reaps(
    s: Seq<ForkView>,
    port: Option<u16>,
    phase: ForkPhase,
    event: ForkEvent,
)
    ensures
        phase is Polling ==> !(spec_fork_advance(s, port, phase, event) is Failed),
        phase matches ForkPhase::Polling { pid, .. } ==> (spec_fork_advance(
            s,
            port,
            phase,
            event,
        ) matches ForkStep::Wait(next) ==> (next matches ForkPhase::Polling { pid: q, .. } && q
            == pid) || (next matches ForkPhase::Reaping { pid: q, .. } && q == pid)),
        phase matches ForkPhase::Reaping { pid, reason } ==> phase.spec_action(Network::Mainnet)
            == (ForkAction::Terminate { pid }) && spec_fork_advance(s, port, phase, event)
            == ForkStep::Failed(reason),
{
}

impl ForkManager {
    fn choose_port(&self, port: Option<u16>, block: u64) -> (r: ForkStep)
        ensures
            r == spec_choose_port(self@, port, block),
    {
        match port {
            Some(p) => if self.port_in_use(p) {
                ForkStep::Failed(AnchorError::PortUnavailable)
            } else {
                ForkStep::Wait(ForkPhase::ProbingPort { block, port: p })
            },
            None => ForkStep::Wait(ForkPhase::PickingPort { block, attempts_left: PORT_ATTEMPTS }),
        }
    }

    /// Begins a fork: says what is to be done first. The registry is not
    /// changed; a fork that becomes ready is entered with `enter`.
    pub fn fork(&self, request: &ForkRequest) -> (r: ForkStep)
        ensures
            r == spec_fork(self@, request.block, request.port),
    {
        match request.block {
            None => ForkStep::Wait(ForkPhase::ResolvingHead),
            Some(b) => self.choose_port(request.port, b),
        }
    }

    /// Continues a fork after the work of `phase` was done and `event`
    /// came of it.
    pub fn fork_advance(&self, request: &ForkRequest, phase: ForkPhase, event: ForkEvent) -> (r:
        ForkStep)
        ensures
            r == spec_fork_advance(self@, request.port, phase, event),
            r matches ForkStep::Ready { port, .. } ==> !port_taken(self@, port),
            r matches ForkStep::Wait(next) ==> next.budget() < phase.budget(),
    {
        match phase {
            ForkPhase::ResolvingHead => match event {
                ForkEvent::Head(Some(head)) => self.choose_port(request.port, head),
                _ => ForkStep::Failed(AnchorError::UpstreamUnreachable),
            },
            ForkPhase::ProbingPort { block, port } => match event {
                ForkEvent::Probed(true) => if self.port_in_use(port) {
                    ForkStep::Failed(AnchorError::PortUnavailable)
                } else {
                    ForkStep::Wait(ForkPhase::Spawning { block, port })
                },
                _ => ForkStep::Failed(AnchorError::PortUnavailable),
            },
            ForkPhase::PickingPort { block, attempts_left } => {
                let offered: Option<u16> = match event {
                    ForkEvent::Picked(Some(p)) => if self.port_in_use(p) {
                        None
                    } else {
                        Some(p)
                    },
                    _ => None,
                };
                match offered {
                    Some(p) => ForkStep::Wait(ForkPhase::Spawning { block, port: p }),
                    None => if attempts_left > 1 {
                        ForkStep::Wait(
                            ForkPhase::PickingPort { block, attempts_left: attempts_left - 1 },
                        )
                    } else {
                        ForkStep::Failed(AnchorError::PortUnavailable)
                    },
                }
            },
            ForkPhase::Spawning { block, port } => match event {
                ForkEvent::Spawned(Some(pid)) => ForkStep::Wait(
                    ForkPhase::Polling { block, port, pid, polls_left: READY_POLLS },
                ),
                _ => ForkStep::Failed(AnchorError::SpawnFailed),
            },
            ForkPhase::Polling { block, port, pid, polls_left } => {
                let answered: bool = match event {
                    ForkEvent::Polled(ok) => ok,
                    _ => false,
                };
                if answered {
                    if self.port_in_use(port) {
                        ForkStep::Wait(
                            ForkPhase::Reaping { pid, reason: AnchorError::PortUnavailable },
                        )
                    } else {
                        ForkStep::Ready { block, port, pid }
                    }
                } else if polls_left > 1 {
                    ForkStep::Wait(
                        ForkPhase::Polling { block, port, pid, polls_left: polls_left - 1 },
                    )
                } else {
                    ForkStep::Wait(
                        ForkPhase::Reaping { pid, reason: AnchorError::ReadinessTimeout },
                    )
                }
            },
            ForkPhase::Reaping { pid, reason } => ForkStep::Failed(reason),
        }
    }

    /// Enters a fork that has become ready into the registry, under the
    /// given id. Where the registry refuses it, the node must not be left
    /// running: what comes back is the phase in which it is stopped.
    pub fn enter(
        &mut self,
        id: String,
        request: &ForkRequest,
        block: u64,
        port: u16,
        pid: u32,
        now: u64,
    ) -> (r: Result<Fork, ForkPhase>)
        ensures
            match r {
                Ok(f) => {
                    &&& f@ == (ForkView {
                        id: id@,
                        network: request.network,
                        block_number: block,
                        port: port,
                        rpc_url: spec_rpc_url(port),
                        pid: pid,
                        session_id: opt_text(request.session),
                        created_at: now,
                    })
                    &&& !port_taken(old(self)@, port)
                    &&& spec_record(old(self)@, f@) == Ok::<Seq<ForkView>, AnchorError>(
                        final(self)@,
                    )
                },
                Err(phase) => {
                    &&& final(self)@ == old(self)@
                    &&& phase == (ForkPhase::Reaping {
                        pid,
                        reason: if known(fork_ids(old(self)@), id@) {
                            AnchorError::DuplicateId
                        } else {
                            AnchorError::PortUnavailable
                        },
                    })
                    &&& known(fork_ids(old(self)@), id@) || port_taken(old(self)@, port)
                },
            },
    {
        let session = copy_opt(&request.session);
        match self.record(id, request.network, block, port, pid, session, now) {
            Ok(fork) => Ok(fork),
            Err(reason) => Err(ForkPhase::Reaping { pid, reason }),
        }
    }

    /// Takes back a fork that was entered but whose registry could not be
    /// written: the entry leaves the registry, and the node is to be
    /// stopped before the failure is reported.
    pub fn retract(&mut self, id: &str) -> (r: ForkStep)
        ensures
            final(self)@ == spec_remove(old(self)@, id@),
            r == if known(fork_ids(old(self)@), id@) {
                ForkStep::Wait(
                    ForkPhase::Reaping {
                        pid: old(self)@[position(fork_ids(old(self)@), id@)].pid,
                        reason: AnchorError::Io,
                    },
                )
            } else {
                ForkStep::Failed(AnchorError::Io)
            },
    {
        match self.remove(id) {
            Some(fork) => ForkStep::Wait(
                ForkPhase::Reaping { pid: fork.pid, reason: AnchorError::Io },
            ),
            None => ForkStep::Failed(AnchorError::Io),
        }
    }
}

} // verus!
