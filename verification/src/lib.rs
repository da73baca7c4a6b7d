//! State-pinned development forks: the lifecycle rules behind fork,
//! snapshot and checkpoint management.
//!
//! Every decision the managers take is a function on plain values with a
//! contract. Spawning processes, talking to nodes and touching files is left
//! to the caller, who performs the action a function asks for and reports
//! back what happened.

use vstd::prelude::*;

pub mod checkpoint;
pub mod command;
pub mod error;
pub mod fork;
pub mod kill;
pub mod launch;
pub mod network;
pub mod paths;
pub mod registry;
pub mod rpc;
pub mod snapshot;
pub mod store;
pub mod text;
pub mod transport;
pub mod zone;

pub use crate::checkpoint::{Checkpoint, CheckpointManager};
pub use crate::command::{Command, Tree};
pub use crate::error::{AnchorError, ErrorKind};
pub use crate::fork::{Fork, ForkManager};
pub use crate::kill::{KillAction, KillEvent, KillPhase, KillStep};
pub use crate::launch::{ForkAction, ForkEvent, ForkPhase, ForkRequest, ForkStep};
pub use crate::network::Network;
pub use crate::registry::Loaded;
pub use crate::rpc::RpcMethod;
pub use crate::snapshot::{Snapshot, SnapshotManager};
pub use crate::store::{WritePhase, WriteStep};
pub use crate::zone::Zone;

verus! {

/// The version of the program.
pub const VERSION: &'static str = "0.1.0";

} // verus!
