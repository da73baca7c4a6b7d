//! The typed failures that every manager operation reports.

use vstd::prelude::*;

verus! {

/// The broad class a failure belongs to; callers map classes to messages and
/// exit codes.
#[derive(Clone, Copy, Debug, PartialEq, Eq, Structural)]
pub enum ErrorKind {
    /// A referenced fork, snapshot or checkpoint id is unknown.
    NotFound,
    /// The input is invalid: a bad network name, a malformed registry, a
    /// checkpoint restored into a fork of another network.
    Schema,
    /// A host resource could not be had: a port, a process, a ready node.
    Resource,
    /// A node rejected a request or could not serve it.
    Rpc,
    /// What is on disk contradicts the recorded metadata.
    Corruption,
    /// A registry or blob could not be read or written.
    Io,
}

/// Every failure a manager operation can report.
#[derive(Clone, Copy, Debug, PartialEq, Eq, Structural)]
pub enum AnchorError {
    /// The id names no entry of the registry.
    NotFound,
    /// The string names none of the known networks.
    UnknownNetwork,
    /// A checkpoint was restored into a fork of another network.
    NetworkMismatch,
    /// A registry document breaks the rules its records must keep.
    MalformedRegistry,
    /// A new record carries an id that the registry already holds.
    DuplicateId,
    /// The port is already recorded in the registry, or cannot be bound.
    PortUnavailable,
    /// The node process could not be started.
    SpawnFailed,
    /// The node process started but never answered.
    ReadinessTimeout,
    /// The upstream head could not be resolved.
    UpstreamUnreachable,
    /// The node rejected a request.
    RpcFailure,
    /// A blob's size differs from the recorded size.
    Corruption,
    /// A file could not be read or written.
    Io,
}

impl AnchorError {
    /// The class of this failure.
    pub open spec fn spec_kind(self) -> ErrorKind {
        match self {
            AnchorError::NotFound => ErrorKind::NotFound,
            AnchorError::UnknownNetwork => ErrorKind::Schema,
            AnchorError::NetworkMismatch => ErrorKind::Schema,
            AnchorError::MalformedRegistry => ErrorKind::Schema,
            AnchorError::DuplicateId => ErrorKind::Schema,
            AnchorError::PortUnavailable => ErrorKind::Resource,
            AnchorError::SpawnFailed => ErrorKind::Resource,
            AnchorError::ReadinessTimeout => ErrorKind::Resource,
            AnchorError::UpstreamUnreachable => ErrorKind::Rpc,
            AnchorError::RpcFailure => ErrorKind::Rpc,
            AnchorError::Corruption => ErrorKind::Corruption,
            AnchorError::Io => ErrorKind::Io,
        }
    }

    /// The class of this failure.
    #[verifier::when_used_as_spec(spec_kind)]
    pub fn kind(self) -> (k: ErrorKind)
        ensures
            k == self.spec_kind(),
    {
        match self {
            AnchorError::NotFound => ErrorKind::NotFound,
            AnchorError::UnknownNetwork => ErrorKind::Schema,
            AnchorError::NetworkMismatch => ErrorKind::Schema,
            AnchorError::MalformedRegistry => ErrorKind::Schema,
            AnchorError::DuplicateId => ErrorKind::Schema,
            AnchorError::PortUnavailable => ErrorKind::Resource,
            AnchorError::SpawnFailed => ErrorKind::Resource,
            AnchorError::ReadinessTimeout => ErrorKind::Resource,
            AnchorError::UpstreamUnreachable => ErrorKind::Rpc,
            AnchorError::RpcFailure => ErrorKind::Rpc,
            AnchorError::Corruption => ErrorKind::Corruption,
            AnchorError::Io => ErrorKind::Io,
        }
    }
}

} // verus!
