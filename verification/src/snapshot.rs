//! Snapshots of one fork: a creation-ordered sequence that a revert cuts.
//!
//! A node invalidates every snapshot taken after the one it reverts to, and
//! the one it reverts to as well. The manager mirrors that: a revert removes
//! the snapshot and all that were created after it.

use vstd::prelude::*;
use vstd::string::*;
use crate::error::AnchorError;
use crate::registry::{first_free, is_first_free, texts, Keyed, Loaded, all_distinct, distinct, find, known, keys,
    lemma_position_is, lemma_push_distinct, lemma_take_forgets, position};
use crate::text::{copy_opt, opt_is, opt_text};

verus! {

/// A lightweight capture of a fork's state, held by the node.
#[derive(Debug, PartialEq, Eq)]
pub struct Snapshot {
    pub id: String,
    pub fork_id: String,
    pub block_number: u64,
    pub session_id: Option<String>,
    pub description: Option<String>,
    /// Seconds since the epoch at which the snapshot was taken.
    pub created_at: u64,
    /// What the node wants back to revert to this snapshot.
    pub handle: String,
}

/// A snapshot as plain values.
pub struct SnapshotView {
    pub id: Seq<char>,
    pub fork_id: Seq<char>,
    pub block_number: u64,
    pub session_id: Option<Seq<char>>,
    pub description: Option<Seq<char>>,
    pub created_at: u64,
    pub handle: Seq<char>,
}

impl View for Snapshot {
    type V = SnapshotView;

    open spec fn view(&self) -> SnapshotView {
        SnapshotView {
            id: self.id@,
            fork_id: self.fork_id@,
            block_number: self.block_number,
            session_id: opt_text(self.session_id),
            description: opt_text(self.description),
            created_at: self.created_at,
            handle: self.handle@,
        }
    }
}

impl Keyed for Snapshot {
    open spec fn key(&self) -> Seq<char> {
        self.id@
    }

    fn key_is(&self, id: &String) -> (r: bool) {
        self.id == *id
    }

    fn same_key(&self, other: &Self) -> (r: bool) {
        self.id == other.id
    }
}

impl Clone for Snapshot {
    fn clone(&self) -> (r: Self)
        ensures
            r@ == self@,
    {
        Snapshot {
            id: self.id.clone(),
            fork_id: self.fork_id.clone(),
            block_number: self.block_number,
            session_id: copy_opt(&self.session_id),
            description: copy_opt(&self.description),
            created_at: self.created_at,
            handle: self.handle.clone(),
        }
    }
}

/// The records as plain values.
pub open spec fn snapshot_views(items: Seq<Snapshot>) -> Seq<SnapshotView> {
    Seq::new(items.len(), |i: int| items[i]@)
}

/// The ids of a snapshot sequence, in order.
pub open spec fn snapshot_ids(s: Seq<SnapshotView>) -> Seq<Seq<char>> {
    Seq::new(s.len(), |i: int| s[i].id)
}

/// Whether a sequence can be the registry of the fork `fork_id`: no id
/// occurs twice and every snapshot belongs to that fork.
pub open spec fn snapshots_valid(s: Seq<SnapshotView>, fork_id: Seq<char>) -> bool {
    &&& distinct(snapshot_ids(s))
    &&& forall|i: int| 0 <= i < s.len() ==> (#[trigger] s[i]).fork_id == fork_id
}

/// The block that a new snapshot records: the one the caller names, else
/// the one the node reports.
pub open spec fn spec_block(block_override: Option<u64>, node_block: Option<u64>) -> Option<u64> {
    match block_override {
        Some(b) => Some(b),
        None => node_block,
    }
}

/// What `create` makes of a registry: the new snapshot at the end, unless
/// its id is taken.
pub open spec fn spec_create(s: Seq<SnapshotView>, new: SnapshotView) -> Result<
    Seq<SnapshotView>,
    AnchorError,
> {
    if known(snapshot_ids(s), new.id) {
        Err(AnchorError::DuplicateId)
    } else {
        Ok(s.push(new))
    }
}

/// What `revert` makes of a registry. An unknown id is `NotFound`. Where the
/// node refused, the registry stays and the refusal is reported. Else the
/// snapshot and all that follow it leave.
pub open spec fn spec_revert(s: Seq<SnapshotView>, id: Seq<char>, accepted: bool) -> Result<
    Seq<SnapshotView>,
    AnchorError,
> {
    if !known(snapshot_ids(s), id) {
        Err(AnchorError::NotFound)
    } else if !accepted {
        Err(AnchorError::RpcFailure)
    } else {
        Ok(s.take(position(snapshot_ids(s), id)))
    }
}

/// The snapshots of one session, in creation order.
pub open spec fn spec_by_session(s: Seq<SnapshotView>, session: Seq<char>) -> Seq<SnapshotView> {
    s.filter(|v: SnapshotView| v.session_id == Some(session))
}

/// A revert to a snapshot removes it and every snapshot created after it,
/// and leaves those created before it: of snapshots with distinct ids, a
/// revert to the one at place `i` keeps exactly the first `i`, and a later
/// revert to the one that stood at a place `j` from `i` on finds nothing,
/// whatever the node would answer.
pub proof fn lemma_revert_forgets_later(s: Seq<SnapshotView>, i: int, j: int, accepted: bool)
    requires
        distinct(snapshot_ids(s)),
        0 <= i <= j < s.len(),
    ensures
        spec_revert(s, s[i].id, true) == Ok::<Seq<SnapshotView>, AnchorError>(s.take(i)),
        spec_revert(s.take(i), s[j].id, accepted) == Err::<Seq<SnapshotView>, AnchorError>(
            AnchorError::NotFound,
        ),
{
    let ids = snapshot_ids(s);
    assert(ids[i] == s[i].id);
    assert(ids[j] == s[j].id);
    assert forall|a: int| 0 <= a < i implies ids[a] != s[i].id by {
        assert(ids[a] != ids[i]);
    }
    lemma_position_is(ids, s[i].id, i);
    lemma_take_forgets(ids, i, j);
    assert(snapshot_ids(s.take(i)) =~= ids.take(i));
}

/// The snapshot registry of one fork.
pub struct SnapshotManager {
    fork_id: String,
    snapshots: Vec<Snapshot>,
}

impl View for SnapshotManager {
    type V = Seq<SnapshotView>;

    closed spec fn view(&self) -> Seq<SnapshotView> {
        snapshot_views(self.snapshots@)
    }
}

impl SnapshotManager {
    #[verifier::type_invariant]
    spec fn valid(&self) -> bool {
        snapshots_valid(snapshot_views(self.snapshots@), self.fork_id@)
    }

    /// The id of the fork whose snapshots these are.
    pub closed spec fn scope(&self) -> Seq<char> {
        self.fork_id@
    }

    /// An empty registry for the fork `fork_id`.
    pub fn new(fork_id: &str) -> (m: Self)
        ensures
            m@ == Seq::<SnapshotView>::empty(),
            m.scope() == fork_id@,
    {
        let m = SnapshotManager { fork_id: String::from_str(fork_id), snapshots: Vec::new() };
        assert(m@ =~= Seq::<SnapshotView>::empty());
        m
    }

    /// The id of the fork whose snapshots these are.
    pub fn fork_id(&self) -> (r: &String)
        ensures
            r@ == self.scope(),
    {
        &self.fork_id
    }

    /// The registry always holds distinct ids of its own fork.
    pub fn well_formed(&self)
        ensures
            snapshots_valid(self@, self.scope()),
    {
        proof {
            use_type_invariant(self);
        }
    }

    /// All snapshots, in creation order.
    pub fn list(&self) -> (r: &Vec<Snapshot>)
        ensures
            snapshot_views(r@) == self@,
    {
        &self.snapshots
    }

    /// The snapshot with the given id.
    pub fn get(&self, id: &str) -> (r: Option<&Snapshot>)
        ensures
            match r {
                Some(s) => known(snapshot_ids(self@), id@) && s@ == self@[position(
                    snapshot_ids(self@),
                    id@,
                )],
                None => !known(snapshot_ids(self@), id@),
            },
    {
        let key = String::from_str(id);
        assert(keys(self.snapshots@) =~= snapshot_ids(self@));
        match find(&self.snapshots, &key) {
            Some(k) => {
                proof {
                    lemma_position_is(snapshot_ids(self@), id@, k as int);
                }
                Some(&self.snapshots[k])
            },
            None => None,
        }
    }

    /// Picks an id for a new record: the place of the first candidate that
    /// the registry does not hold, or `None` where it holds them all.
    pub fn free_id(&self, candidates: &Vec<String>) -> (r: Option<usize>)
        ensures
            match r {
                Some(k) => is_first_free(snapshot_ids(self@), texts(candidates@), k as int),
                None => forall|j: int|
                    0 <= j < candidates@.len() ==> known(
                        snapshot_ids(self@),
                        #[trigger] texts(candidates@)[j],
                    ),
            },
    {
        assert(keys(self.snapshots@) =~= snapshot_ids(self@));
        first_free(&self.snapshots, candidates)
    }

    /// The snapshots of one session, in creation order.
    pub fn list_by_session(&self, session: &str) -> (r: Vec<Snapshot>)
        ensures
            snapshot_views(r@) == spec_by_session(self@, session@),
    {
        let want = String::from_str(session);
        let ghost pred = |v: SnapshotView| v.session_id == Some(session@);
        let mut out: Vec<Snapshot> = Vec::new();
        let mut i: usize = 0;
        proof {
            reveal(Seq::filter);
            assert(self@.take(0) =~= Seq::<SnapshotView>::empty());
            assert(snapshot_views(out@) =~= self@.take(0).filter(pred));
        }
        while i < self.snapshots.len()
            invariant
                i <= self.snapshots.len(),
                want@ == session@,
                pred == (|v: SnapshotView| v.session_id == Some(session@)),
                snapshot_views(out@) == self@.take(i as int).filter(pred),
            decreases self.snapshots.len() - i,
        {
            let ghost before = snapshot_views(out@);
            proof {
                reveal(Seq::filter);
                assert(self@.take(i + 1).drop_last() =~= self@.take(i as int));
                assert(self@.take(i + 1).last() == self.snapshots@[i as int]@);
            }
            if opt_is(&self.snapshots[i].session_id, &want) {
                out.push(self.snapshots[i].clone());
                assert(snapshot_views(out@) =~= before.push(self.snapshots@[i as int]@));
            }
            i += 1;
        }
        assert(self@.take(i as int) =~= self@);
        out
    }

    /// Takes the registry from what reading its document gave. A missing
    /// document is an empty registry and no failure. One that could not be
    /// read or parsed, or whose records break the registry's rules, leaves an
    /// empty registry and is reported, for the caller to warn about.
    pub fn load_registry(&mut self, outcome: Loaded<Snapshot>) -> (r: Result<(), AnchorError>)
        ensures
            final(self).scope() == old(self).scope(),
            match outcome {
                Loaded::Missing => r == Ok::<(), AnchorError>(()) && final(self)@ == Seq::<
                    SnapshotView,
                >::empty(),
                Loaded::Unreadable => r == Err::<(), AnchorError>(AnchorError::Io) && final(self)@
                    == Seq::<SnapshotView>::empty(),
                Loaded::Malformed => r == Err::<(), AnchorError>(AnchorError::MalformedRegistry)
                    && final(self)@ == Seq::<SnapshotView>::empty(),
                Loaded::Records(v) => if snapshots_valid(snapshot_views(v@), old(self).scope()) {
                    r == Ok::<(), AnchorError>(()) && final(self)@ == snapshot_views(v@)
                } else {
                    r == Err::<(), AnchorError>(AnchorError::MalformedRegistry) && final(self)@
                        == Seq::<SnapshotView>::empty()
                },
            },
    {
        proof {
            use_type_invariant(&*self);
        }
        let (records, r) = match outcome {
            Loaded::Missing => (Vec::new(), Ok(())),
            Loaded::Unreadable => (Vec::new(), Err(AnchorError::Io)),
            Loaded::Malformed => (Vec::new(), Err(AnchorError::MalformedRegistry)),
            Loaded::Records(v) => {
                assert(keys(v@) =~= snapshot_ids(snapshot_views(v@)));
                if all_distinct(&v) && all_of_fork(&v, &self.fork_id) {
                    (v, Ok(()))
                } else {
                    (Vec::new(), Err(AnchorError::MalformedRegistry))
                }
            },
        };
        assert(r is Err ==> snapshot_views(records@) =~= Seq::<SnapshotView>::empty());
        assert(outcome is Missing ==> snapshot_views(records@) =~= Seq::<SnapshotView>::empty());
        self.snapshots = records;
        r
    }

    /// Records a snapshot that the node was asked to take. `handle` is
    /// what the node returned for it, `None` where it refused. The snapshot
    /// records `block_override` where the caller names a block; else the
    /// node is asked for its block number, and `node_block` is its answer,
    /// `None` where it gave none. Without a block or without a handle the
    /// node has failed and nothing is recorded. Else the new snapshot goes
    /// to the end of the sequence and a copy is returned.
    pub fn create(
        &mut self,
        id: String,
        handle: Option<String>,
        block_override: Option<u64>,
        node_block: Option<u64>,
        session: Option<String>,
        description: Option<String>,
        now: u64,
    ) -> (r: Result<Snapshot, AnchorError>)
        ensures
            final(self).scope() == old(self).scope(),
            match r {
                Ok(s) => {
                    &&& handle is Some
                    &&& spec_block(block_override, node_block) is Some
                    &&& s@ == (SnapshotView {
                        id: id@,
                        fork_id: old(self).scope(),
                        block_number: spec_block(block_override, node_block)->Some_0,
                        session_id: opt_text(session),
                        description: opt_text(description),
                        created_at: now,
                        handle: handle->Some_0@,
                    })
                    &&& spec_create(old(self)@, s@) == Ok::<Seq<SnapshotView>, AnchorError>(
                        final(self)@,
                    )
                },
                Err(e) => {
                    &&& final(self)@ == old(self)@
                    &&& if handle is None || spec_block(block_override, node_block) is None {
                        e == AnchorError::RpcFailure
                    } else {
                        e == AnchorError::DuplicateId && known(snapshot_ids(old(self)@), id@)
                    }
                },
            },
    {
        proof {
            use_type_invariant(&*self);
        }
        let block_number: u64 = match block_override {
            Some(b) => b,
            None => match node_block {
                Some(b) => b,
                None => {
                    return Err(AnchorError::RpcFailure);
                },
            },
        };
        let handle_text: String = match handle {
            Some(h) => h,
            None => {
                return Err(AnchorError::RpcFailure);
            },
        };
        assert(keys(self.snapshots@) =~= snapshot_ids(self@));
        if find(&self.snapshots, &id).is_some() {
            return Err(AnchorError::DuplicateId);
        }
        let snapshot = Snapshot {
            id: id,
            fork_id: self.fork_id.clone(),
            block_number: block_number,
            session_id: session,
            description: description,
            created_at: now,
            handle: handle_text,
        };
        let copy = snapshot.clone();
        let ghost before = self@;
        proof {
            lemma_push_distinct(snapshot_ids(before), snapshot@.id);
            assert(snapshot_ids(before.push(snapshot@)) =~= snapshot_ids(before).push(
                snapshot@.id,
            ));
            assert(snapshot_views(self.snapshots@.push(snapshot)) =~= before.push(snapshot@));
        }
        let mut items: Vec<Snapshot> = Vec::new();
        std::mem::swap(&mut self.snapshots, &mut items);
        items.push(snapshot);
        self.snapshots = items;
        Ok(copy)
    }

    /// Begins a revert to the snapshot `id`: gives the handle that the node
    /// is to be asked to revert to. An id that the registry does not hold
    /// is not found, and the node is asked nothing.
    pub fn handle_for(&self, id: &str) -> (r: Result<String, AnchorError>)
        ensures
            match r {
                Ok(handle) => known(snapshot_ids(self@), id@) && handle@ == self@[position(
                    snapshot_ids(self@),
                    id@,
                )].handle,
                Err(e) => e == AnchorError::NotFound && !known(snapshot_ids(self@), id@),
            },
    {
        match self.get(id) {
            Some(snapshot) => Ok(snapshot.handle.clone()),
            None => Err(AnchorError::NotFound),
        }
    }

    /// Completes a revert to the snapshot `id`, after the node was asked to
    /// revert to its handle: `accepted` says whether the node did. Where it
    /// did, the snapshot and every snapshot created after it leave the
    /// registry. Where it refused, the registry is left as it is.
    pub fn revert(&mut self, id: &str, accepted: bool) -> (r: Result<(), AnchorError>)
        ensures
            final(self).scope() == old(self).scope(),
            match spec_revert(old(self)@, id@, accepted) {
                Ok(s) => r == Ok::<(), AnchorError>(()) && final(self)@ == s,
                Err(e) => r == Err::<(), AnchorError>(e) && final(self)@ == old(self)@,
            },
    {
        proof {
            use_type_invariant(&*self);
        }
        let key = String::from_str(id);
        assert(keys(self.snapshots@) =~= snapshot_ids(self@));
        match find(&self.snapshots, &key) {
            None => Err(AnchorError::NotFound),
            Some(k) => {
                if !accepted {
                    proof {
                        lemma_position_is(snapshot_ids(self@), id@, k as int);
                    }
                    return Err(AnchorError::RpcFailure);
                }
                let ghost before = self@;
                proof {
                    lemma_position_is(snapshot_ids(before), id@, k as int);
                    lemma_take_forgets(snapshot_ids(before), k as int, k as int);
                    assert(snapshot_ids(before.take(k as int)) =~= snapshot_ids(before).take(
                        k as int,
                    ));
                    assert(snapshot_views(self.snapshots@.take(k as int)) =~= before.take(
                        k as int,
                    ));
                }
                let mut items: Vec<Snapshot> = Vec::new();
                std::mem::swap(&mut self.snapshots, &mut items);
                items.truncate(k);
                self.snapshots = items;
                Ok(())
            },
        }
    }
}

fn all_of_fork(items: &Vec<Snapshot>, fork_id: &String) -> (r: bool)
    ensures
        r == (forall|i: int|
            0 <= i < items@.len() ==> (#[trigger] snapshot_views(items@)[i]).fork_id == fork_id@),
{
    let mut i: usize = 0;
    while i < items.len()
        invariant
            i <= items.len(),
            forall|j: int| 0 <= j < i ==> (#[trigger] snapshot_views(items@)[j]).fork_id == fork_id@,
        decreases items.len() - i,
    {
        if !(items[i].fork_id == *fork_id) {
            assert(snapshot_views(items@)[i as int].fork_id != fork_id@);
            return false;
        }
        i += 1;
    }
    true
}

} // verus!
