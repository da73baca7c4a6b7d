//! The commands of the `anchor` program.
//!
//! Each invocation runs one command against one tree of managers: the fork
//! registry alone, or the fork registry with the snapshots of one fork or
//! with the checkpoints of one session.

use vstd::prelude::*;
use vstd::string::*;
use crate::text::text_eq;

verus! {

/// A command of the program.
#[derive(Clone, Copy, Debug, PartialEq, Eq, Hash, Structural)]
pub enum Command {
    /// Create a local fork of a network.
    Fork,
    /// List the live forks.
    Forks,
    /// End a fork.
    Kill,
    /// End every fork.
    KillAll,
    /// Print a fork's environment variables.
    Env,
    /// Validate code against forked state.
    Ground,
    /// Take a snapshot of a fork.
    Snapshot,
    /// List a fork's snapshots.
    Snapshots,
    /// Revert a fork to a snapshot.
    Revert,
    /// Save a checkpoint of a fork.
    Checkpoint,
    /// List a session's checkpoints.
    Checkpoints,
    /// Restore a fork from a checkpoint.
    Restore,
    /// Show the live forks and the settings.
    Status,
    /// Show the version.
    Version,
}

/// The registries that a command works on, beside the fork registry.
#[derive(Clone, Copy, Debug, PartialEq, Eq, Structural)]
pub enum Tree {
    /// The fork registry alone.
    Forks,
    /// The fork registry and the snapshot registry of one fork.
    Snapshots,
    /// The fork registry and the checkpoint registry of one session.
    Checkpoints,
}

impl Command {
    /// The command's name on the command line.
    pub open spec fn spec_name(self) -> Seq<char> {
        match self {
            Command::Fork => "fork"@,
            Command::Forks => "forks"@,
            Command::Kill => "kill"@,
            Command::KillAll => "kill-all"@,
            Command::Env => "env"@,
            Command::Ground => "ground"@,
            Command::Snapshot => "snapshot"@,
            Command::Snapshots => "snapshots"@,
            Command::Revert => "revert"@,
            Command::Checkpoint => "checkpoint"@,
            Command::Checkpoints => "checkpoints"@,
            Command::Restore => "restore"@,
            Command::Status => "status"@,
            Command::Version => "version"@,
        }
    }

    /// The tree of managers that the command works on.
    pub open spec fn spec_tree(self) -> Tree {
        match self {
            Command::Fork => Tree::Forks,
            Command::Forks => Tree::Forks,
            Command::Kill => Tree::Forks,
            Command::KillAll => Tree::Forks,
            Command::Env => Tree::Forks,
            Command::Ground => Tree::Forks,
            Command::Snapshot => Tree::Snapshots,
            Command::Snapshots => Tree::Snapshots,
            Command::Revert => Tree::Snapshots,
            Command::Checkpoint => Tree::Checkpoints,
            Command::Checkpoints => Tree::Checkpoints,
            Command::Restore => Tree::Checkpoints,
            Command::Status => Tree::Forks,
            Command::Version => Tree::Forks,
        }
    }

    /// Whether the command rewrites a registry.
    pub open spec fn spec_mutates(self) -> bool {
        match self {
            Command::Fork => true,
            Command::Forks => false,
            Command::Kill => true,
            Command::KillAll => true,
            Command::Env => false,
            Command::Ground => false,
            Command::Snapshot => true,
            Command::Snapshots => false,
            Command::Revert => true,
            Command::Checkpoint => true,
            Command::Checkpoints => false,
            Command::Restore => false,
            Command::Status => false,
            Command::Version => false,
        }
    }

    /// The command that a word names; the word is taken as it stands.
    pub open spec fn spec_parse(word: Seq<char>) -> Option<Command> {
        if word == Command::Fork.spec_name() {
            Some(Command::Fork)
        } else if word == Command::Forks.spec_name() {
            Some(Command::Forks)
        } else if word == Command::Kill.spec_name() {
            Some(Command::Kill)
        } else if word == Command::KillAll.spec_name() {
            Some(Command::KillAll)
        } else if word == Command::Env.spec_name() {
            Some(Command::Env)
        } else if word == Command::Ground.spec_name() {
            Some(Command::Ground)
        } else if word == Command::Snapshot.spec_name() {
            Some(Command::Snapshot)
        } else if word == Command::Snapshots.spec_name() {
            Some(Command::Snapshots)
        } else if word == Command::Revert.spec_name() {
            Some(Command::Revert)
        } else if word == Command::Checkpoint.spec_name() {
            Some(Command::Checkpoint)
        } else if word == Command::Checkpoints.spec_name() {
            Some(Command::Checkpoints)
        } else if word == Command::Restore.spec_name() {
            Some(Command::Restore)
        } else if word == Command::Status.spec_name() {
            Some(Command::Status)
        } else if word == Command::Version.spec_name() {
            Some(Command::Version)
        } else {
            None
        }
    }

    /// The command's name on the command line.
    pub fn name(&self) -> (r: &'static str)
        ensures
            r@ == self.spec_name(),
    {
        match self {
            Command::Fork => "fork",
            Command::Forks => "forks",
            Command::Kill => "kill",
            Command::KillAll => "kill-all",
            Command::Env => "env",
            Command::Ground => "ground",
            Command::Snapshot => "snapshot",
            Command::Snapshots => "snapshots",
            Command::Revert => "revert",
            Command::Checkpoint => "checkpoint",
            Command::Checkpoints => "checkpoints",
            Command::Restore => "restore",
            Command::Status => "status",
            Command::Version => "version",
        }
    }

    /// The tree of managers that the command works on.
    pub fn tree(&self) -> (r: Tree)
        ensures
            r == self.spec_tree(),
    {
        match self {
            Command::Fork => Tree::Forks,
            Command::Forks => Tree::Forks,
            Command::Kill => Tree::Forks,
            Command::KillAll => Tree::Forks,
            Command::Env => Tree::Forks,
            Command::Ground => Tree::Forks,
            Command::Snapshot => Tree::Snapshots,
            Command::Snapshots => Tree::Snapshots,
            Command::Revert => Tree::Snapshots,
            Command::Checkpoint => Tree::Checkpoints,
            Command::Checkpoints => Tree::Checkpoints,
            Command::Restore => Tree::Checkpoints,
            Command::Status => Tree::Forks,
            Command::Version => Tree::Forks,
        }
    }

    /// Whether the command rewrites a registry.
    pub fn mutates(&self) -> (r: bool)
        ensures
            r == self.spec_mutates(),
    {
        match self {
            Command::Fork => true,
            Command::Forks => false,
            Command::Kill => true,
            Command::KillAll => true,
            Command::Env => false,
            Command::Ground => false,
            Command::Snapshot => true,
            Command::Snapshots => false,
            Command::Revert => true,
            Command::Checkpoint => true,
            Command::Checkpoints => false,
            Command::Restore => false,
            Command::Status => false,
            Command::Version => false,
        }
    }

    /// Every command, in the order of the program's help.
    pub fn all() -> (r: Vec<Command>)
        ensures
            r@ == seq![
                Command::Fork,
                Command::Forks,
                Command::Kill,
                Command::KillAll,
                Command::Env,
                Command::Ground,
                Command::Snapshot,
                Command::Snapshots,
                Command::Revert,
                Command::Checkpoint,
                Command::Checkpoints,
                Command::Restore,
                Command::Status,
                Command::Version,
            ],
    {
        let mut v: Vec<Command> = Vec::new();
        v.push(Command::Fork);
        v.push(Command::Forks);
        v.push(Command::Kill);
        v.push(Command::KillAll);
        v.push(Command::Env);
        v.push(Command::Ground);
        v.push(Command::Snapshot);
        v.push(Command::Snapshots);
        v.push(Command::Revert);
        v.push(Command::Checkpoint);
        v.push(Command::Checkpoints);
        v.push(Command::Restore);
        v.push(Command::Status);
        v.push(Command::Version);
        assert(v@ =~= seq![
            Command::Fork,
            Command::Forks,
            Command::Kill,
            Command::KillAll,
            Command::Env,
            Command::Ground,
            Command::Snapshot,
            Command::Snapshots,
            Command::Revert,
            Command::Checkpoint,
            Command::Checkpoints,
            Command::Restore,
            Command::Status,
            Command::Version,
        ]);
        v
    }

    /// Finds the command that a word names.
    pub fn parse(word: &str) -> (r: Option<Command>)
        ensures
            r == Command::spec_parse(word@),
    {
        if text_eq(word, "fork") {
            Some(Command::Fork)
        } else if text_eq(word, "forks") {
            Some(Command::Forks)
        } else if text_eq(word, "kill") {
            Some(Command::Kill)
        } else if text_eq(word, "kill-all") {
            Some(Command::KillAll)
        } else if text_eq(word, "env") {
            Some(Command::Env)
        } else if text_eq(word, "ground") {
            Some(Command::Ground)
        } else if text_eq(word, "snapshot") {
            Some(Command::Snapshot)
        } else if text_eq(word, "snapshots") {
            Some(Command::Snapshots)
        } else if text_eq(word, "revert") {
            Some(Command::Revert)
        } else if text_eq(word, "checkpoint") {
            Some(Command::Checkpoint)
        } else if text_eq(word, "checkpoints") {
            Some(Command::Checkpoints)
        } else if text_eq(word, "restore") {
            Some(Command::Restore)
        } else if text_eq(word, "status") {
            Some(Command::Status)
        } else if text_eq(word, "version") {
            Some(Command::Version)
        } else {
            None
        }
    }
}

/// No two commands share a name, so each command's name names it.
pub proof fn lemma_command_names()
    ensures
        forall|a: Command, b: Command| a.spec_name() == b.spec_name() ==> a == b,
        forall|c: Command| Command::spec_parse(#[trigger] c.spec_name()) == Some(c),
{
    reveal_strlit("fork");
    reveal_strlit("forks");
    reveal_strlit("kill");
    reveal_strlit("kill-all");
    reveal_strlit("env");
    reveal_strlit("ground");
    reveal_strlit("snapshot");
    reveal_strlit("snapshots");
    reveal_strlit("revert");
    reveal_strlit("checkpoint");
    reveal_strlit("checkpoints");
    reveal_strlit("restore");
    reveal_strlit("status");
    reveal_strlit("version");
    assert forall|a: Command, b: Command| a.spec_name() == b.spec_name() implies a == b by {
        assert(a.spec_name().len() == b.spec_name().len());
        assert(a.spec_name()[0] == b.spec_name()[0]);
    }
}

} // verus!
