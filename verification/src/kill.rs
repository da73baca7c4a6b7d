//! Ending forks.
//!
//! Ending a fork means stopping its node and taking its entry out of the
//! registry. The node is asked to stop, given a bounded time to do so, and
//! killed if it is still there. A node that is already gone is no failure:
//! what counts is that the fork's id can no longer be used.

use vstd::prelude::*;
use crate::error::AnchorError;
use crate::fork::{ForkManager, ForkView, fork_ids, forks_valid, lemma_remove_frees, port_taken,
    spec_record, spec_remove};
use crate::launch::{ForkPhase, ForkStep, spec_fork};
use crate::registry::{known, lemma_position_is, position, texts};

verus! {

/// How often a node that was asked to stop is looked at before it is killed.
pub const KILL_GRACE_CHECKS: u32 = 50;

/// The pause before each look at a node that was asked to stop, in
/// milliseconds.
pub const KILL_CHECK_INTERVAL_MS: u64 = 100;

/// The outside work that the ending of a fork waits for.
#[derive(Clone, Copy, Debug, PartialEq, Eq)]
pub enum KillPhase {
    /// The node is sent the signal to terminate.
    Signalling { pid: u32 },
    /// The node is looked at, after a pause, to see whether it has exited.
    Waiting { pid: u32, checks_left: u32 },
    /// The node is killed.
    Forcing { pid: u32 },
}

/// What the caller reports after a piece of outside work.
#[derive(Clone, Copy, Debug, PartialEq, Eq)]
pub enum KillEvent {
    /// Whether the signal reached a process; `false` where there is no such
    /// process any more.
    Signalled(bool),
    /// Whether the process has exited.
    Checked(bool),
    /// The process was killed.
    Forced,
}

/// A piece of outside work.
#[derive(Clone, Copy, Debug, PartialEq, Eq)]
pub enum KillAction {
    /// Send the process `pid` the signal to terminate.
    Terminate { pid: u32 },
    /// Pause, then see whether the process `pid` has exited.
    CheckExit { pid: u32 },
    /// Kill the process `pid`.
    ForceKill { pid: u32 },
}

/// What the ending of a fork has come to.
#[derive(Clone, Copy, Debug, PartialEq, Eq)]
pub enum KillStep {
    /// Do the work of this phase and report back.
    Wait(KillPhase),
    /// The fork is gone from the registry.
    Done,
    /// Nothing was done.
    Failed(AnchorError),
}

impl KillPhase {
    /// The work that this phase waits for.
    pub open spec fn spec_action(self) -> KillAction {
        match self {
            KillPhase::Signalling { pid } => KillAction::Terminate { pid },
            KillPhase::Waiting { pid, checks_left } => KillAction::CheckExit { pid },
            KillPhase::Forcing { pid } => KillAction::ForceKill { pid },
        }
    }

    /// The work that this phase waits for.
    pub fn action(&self) -> (r: KillAction)
        ensures
            r == self.spec_action(),
    {
        match *self {
            KillPhase::Signalling { pid } => KillAction::Terminate { pid },
            KillPhase::Waiting { pid, checks_left } => KillAction::CheckExit { pid },
            KillPhase::Forcing { pid } => KillAction::ForceKill { pid },
        }
    }

    /// A bound on the pieces of work that are still to come, this phase's
    /// included.
    pub open spec fn budget(self) -> nat {
        match self {
            KillPhase::Signalling { pid } => (KILL_GRACE_CHECKS + 3) as nat,
            KillPhase::Waiting { pid, checks_left } => (checks_left + 2) as nat,
            KillPhase::Forcing { pid } => 1,
        }
    }
}

/// The first step of ending the fork `id`: its node is signalled. An id
/// that the registry does not hold is not found, and nothing is signalled.
pub open spec fn spec_kill(s: Seq<ForkView>, id: Seq<char>) -> KillStep {
    if known(fork_ids(s), id) {
        KillStep::Wait(KillPhase::Signalling { pid: s[position(fork_ids(s), id)].pid })
    } else {
        KillStep::Failed(AnchorError::NotFound)
    }
}

/// What follows the phase `phase` once the caller reports `event`, for a
/// fork that the registry holds. A signal that found no process ends the
/// matter at once. An event that does not answer the phase's work counts as
/// a process that is still there.
pub open spec fn spec_kill_advance(phase: KillPhase, event: KillEvent) -> KillStep {
    match phase {
        KillPhase::Signalling { pid } => if event == KillEvent::Signalled(false) {
            KillStep::Done
        } else {
            KillStep::Wait(KillPhase::Waiting { pid, checks_left: KILL_GRACE_CHECKS })
        },
        KillPhase::Waiting { pid, checks_left } => if event == KillEvent::Checked(true) {
            KillStep::Done
        } else if checks_left > 1 {
            KillStep::Wait(KillPhase::Waiting { pid, checks_left: (checks_left - 1) as u32 })
        } else {
            KillStep::Wait(KillPhase::Forcing { pid })
        },
        KillPhase::Forcing { pid } => KillStep::Done,
    }
}

/// The ids whose ending failed, in the order of the outcomes. An outcome
/// is a fork's id and whether the fork was ended.
pub open spec fn spec_failed(outcomes: Seq<(Seq<char>, bool)>) -> Seq<Seq<char>>
    decreases outcomes.len(),
{
    if outcomes.len() == 0 {
        Seq::empty()
    } else {
        let rest = spec_failed(outcomes.drop_last());
        if outcomes.last().1 {
            rest
        } else {
            rest.push(outcomes.last().0)
        }
    }
}

/// The outcomes as plain values.
pub open spec fn outcome_views(v: Seq<(String, bool)>) -> Seq<(Seq<char>, bool)> {
    Seq::new(v.len(), |i: int| (v[i].0@, v[i].1))
}

/// Ending a fork that is not in the registry does nothing: it is reported
/// as not found, and no process is signalled.
pub proof fn lemma_kill_unknown_signals_nothing(s: Seq<ForkView>, id: Seq<char>)
    requires
        !known(fork_ids(s), id),
    ensures
        spec_kill(s, id) == KillStep::Failed(AnchorError::NotFound),
        !(spec_kill(s, id) is Wait),
        spec_remove(s, id) == s,
{
}

/// Ending a fork whose node is already gone succeeds: when the signal finds
/// no process, the fork is done with at once, and its entry leaves the
/// registry.
pub proof fn lemma_kill_stale_succeeds(s: Seq<ForkView>, k: int)
    requires
        forks_valid(s),
        0 <= k < s.len(),
    ensures
        spec_kill(s, s[k].id) == KillStep::Wait(KillPhase::Signalling { pid: s[k].pid }),
        spec_kill_advance(KillPhase::Signalling { pid: s[k].pid }, KillEvent::Signalled(false))
            == KillStep::Done,
        !known(fork_ids(spec_remove(s, s[k].id)), s[k].id),
{
    lemma_remove_frees(s, k);
    let ids = fork_ids(s);
    assert(ids[k] == s[k].id);
    assert forall|a: int| 0 <= a < k implies ids[a] != s[k].id by {
        assert(ids[a] != ids[k]);
    }
    lemma_position_is(ids, s[k].id, k);
}

/// Once a fork is ended, its port is free again: no fork of the registry
/// holds it, so a new fork that asks for it is not refused, and a fork
/// with a fresh id is recorded on it.
pub proof fn lemma_kill_frees_port(s: Seq<ForkView>, k: int, block: u64, new: ForkView)
    requires
        forks_valid(s),
        0 <= k < s.len(),
        new.port == s[k].port,
        !known(fork_ids(spec_remove(s, s[k].id)), new.id),
    ensures
        forks_valid(spec_remove(s, s[k].id)),
        !port_taken(spec_remove(s, s[k].id), s[k].port),
        spec_fork(spec_remove(s, s[k].id), Some(block), Some(s[k].port)) == ForkStep::Wait(
            ForkPhase::ProbingPort { block, port: s[k].port },
        ),
        spec_record(spec_remove(s, s[k].id), new) == Ok::<Seq<ForkView>, AnchorError>(
            spec_remove(s, s[k].id).push(new),
        ),
{
    lemma_remove_frees(s, k);
}

/// Ending a fork ends: each step leaves less work to come than the one
/// before it.
pub proof fn lemma_kill_budget_shrinks(phase: KillPhase, event: KillEvent)
    ensures
        spec_kill_advance(phase, event) matches KillStep::Wait(next) ==> next.budget()
            < phase.budget(),
        !(spec_kill_advance(phase, event) is Failed),
{
}

impl ForkManager {
    /// Begins the ending of the fork `id`: says what is to be done first.
    pub fn kill(&self, id: &str) -> (r: KillStep)
        ensures
            r == spec_kill(self@, id@),
    {
        match self.get(id) {
            Some(fork) => KillStep::Wait(KillPhase::Signalling { pid: fork.pid }),
            None => KillStep::Failed(AnchorError::NotFound),
        }
    }

    /// Continues the ending of the fork `id` after the work of `phase` was
    /// done and `event` came of it. When the node is gone, the fork's entry
    /// leaves the registry; until then the registry is not changed.
    pub fn kill_advance(&mut self, id: &str, phase: KillPhase, event: KillEvent) -> (r: KillStep)
        ensures
            r == if known(fork_ids(old(self)@), id@) {
                spec_kill_advance(phase, event)
            } else {
                KillStep::Failed(AnchorError::NotFound)
            },
            final(self)@ == if r == KillStep::Done {
                spec_remove(old(self)@, id@)
            } else {
                old(self)@
            },
            r == KillStep::Done ==> !known(fork_ids(final(self)@), id@),
            r matches KillStep::Wait(next) ==> next.budget() < phase.budget(),
    {
        if self.get(id).is_none() {
            return KillStep::Failed(AnchorError::NotFound);
        }
        let gone: bool = match phase {
            KillPhase::Signalling { pid } => match event {
                KillEvent::Signalled(reached) => !reached,
                _ => false,
            },
            KillPhase::Waiting { pid, checks_left } => match event {
                KillEvent::Checked(exited) => exited,
                _ => false,
            },
            KillPhase::Forcing { pid } => true,
        };
        if gone {
            let _ = self.remove(id);
            return KillStep::Done;
        }
        match phase {
            KillPhase::Signalling { pid } => KillStep::Wait(
                KillPhase::Waiting { pid, checks_left: KILL_GRACE_CHECKS },
            ),
            KillPhase::Waiting { pid, checks_left } => if checks_left > 1 {
                KillStep::Wait(KillPhase::Waiting { pid, checks_left: checks_left - 1 })
            } else {
                KillStep::Wait(KillPhase::Forcing { pid })
            },
            KillPhase::Forcing { pid } => KillStep::Done,
        }
    }

    /// Sums up an attempt to end every fork: each outcome is the id of a
    /// fork that was tried and whether it was ended. The attempt succeeded
    /// if every fork was ended; else the ids of those that were not are
    /// reported, in the order in which they were tried.
    pub fn kill_all(outcomes: &Vec<(String, bool)>) -> (r: Result<(), Vec<String>>)
        ensures
            match r {
                Ok(()) => forall|i: int| 0 <= i < outcomes@.len() ==> outcomes@[i].1,
                Err(failed) => texts(failed@) == spec_failed(outcome_views(outcomes@))
                    && failed@.len() > 0 && exists|i: int|
                    0 <= i < outcomes@.len() && !outcomes@[i].1,
            },
    {
        let ghost all = outcome_views(outcomes@);
        let mut failed: Vec<String> = Vec::new();
        let mut i: usize = 0;
        assert(all.take(0) =~= Seq::<(Seq<char>, bool)>::empty());
        assert(texts(failed@) =~= Seq::<Seq<char>>::empty());
        while i < outcomes.len()
            invariant
                i <= outcomes.len(),
                all == outcome_views(outcomes@),
                texts(failed@) == spec_failed(all.take(i as int)),
                failed@.len() == 0 <==> forall|j: int| 0 <= j < i ==> outcomes@[j].1,
            decreases outcomes.len() - i,
        {
            let ghost before = texts(failed@);
            proof {
                assert(all.take(i + 1).drop_last() =~= all.take(i as int));
                assert(all.take(i + 1).last() == (outcomes@[i as int].0@, outcomes@[i as int].1));
            }
            if !outcomes[i].1 {
                failed.push(outcomes[i].0.clone());
                assert(texts(failed@) =~= before.push(outcomes@[i as int].0@));
            }
            i += 1;
        }
        assert(all.take(i as int) =~= all);
        if failed.len() == 0 {
            Ok(())
        } else {
            Err(failed)
        }
    }
}

} // verus!
