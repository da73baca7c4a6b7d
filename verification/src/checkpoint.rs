//! Checkpoints of one session: durable state dumps with their metadata.
//!
//! A checkpoint is a blob file and a record of it. The record holds the
//! blob's length, and a restore refuses a blob of any other length.

use vstd::prelude::*;
use vstd::string::*;
use crate::error::AnchorError;
use crate::network::Network;
use crate::registry::{first_free, is_first_free, texts, Keyed, Loaded, all_distinct, distinct, find, known, keys,
    lemma_position_is, lemma_push_distinct, position};
use crate::text::{concat2, copy_opt, opt_text};

verus! {

/// A durable capture of a fork's full state.
#[derive(Debug, PartialEq, Eq)]
pub struct Checkpoint {
    pub id: String,
    /// The fork the state was taken from.
    pub fork_id: String,
    pub session_id: String,
    /// The network of the fork the state was taken from.
    pub network: Network,
    pub block_number: u64,
    /// The length of the blob file, in bytes.
    pub size_bytes: u64,
    pub description: Option<String>,
    /// Seconds since the epoch at which the checkpoint was saved.
    pub created_at: u64,
    /// The name of the blob file in the blob directory.
    pub blob: String,
}

/// A checkpoint as plain values.
pub struct CheckpointView {
    pub id: Seq<char>,
    pub fork_id: Seq<char>,
    pub session_id: Seq<char>,
    pub network: Network,
    pub block_number: u64,
    pub size_bytes: u64,
    pub description: Option<Seq<char>>,
    pub created_at: u64,
    pub blob: Seq<char>,
}

impl View for Checkpoint {
    type V = CheckpointView;

    open spec fn view(&self) -> CheckpointView {
        CheckpointView {
            id: self.id@,
            fork_id: self.fork_id@,
            session_id: self.session_id@,
            network: self.network,
            block_number: self.block_number,
            size_bytes: self.size_bytes,
            description: opt_text(self.description),
            created_at: self.created_at,
            blob: self.blob@,
        }
    }
}

impl Keyed for Checkpoint {
    open spec fn key(&self) -> Seq<char> {
        self.id@
    }

    fn key_is(&self, id: &String) -> (r: bool) {
        self.id == *id
    }

    fn same_key(&self, other: &Self) -> (r: bool) {
        self.id == other.id
    }
}

impl Clone for Checkpoint {
    fn clone(&self) -> (r: Self)
        ensures
            r@ == self@,
    {
        Checkpoint {
            id: self.id.clone(),
            fork_id: self.fork_id.clone(),
            session_id: self.session_id.clone(),
            network: self.network,
            block_number: self.block_number,
            size_bytes: self.size_bytes,
            description: copy_opt(&self.description),
            created_at: self.created_at,
            blob: self.blob.clone(),
        }
    }
}

/// The name of the blob file of the checkpoint `id`.
pub open spec fn spec_blob_name(id: Seq<char>) -> Seq<char> {
    id + ".bin"@
}

/// The name of the blob file of the checkpoint `id`.
pub fn blob_name(id: &str) -> (r: String)
    ensures
        r@ == spec_blob_name(id@),
{
    concat2(id, ".bin")
}

/// The records as plain values.
pub open spec fn checkpoint_views(items: Seq<Checkpoint>) -> Seq<CheckpointView> {
    Seq::new(items.len(), |i: int| items[i]@)
}

/// The ids of a checkpoint sequence, in order.
pub open spec fn checkpoint_ids(s: Seq<CheckpointView>) -> Seq<Seq<char>> {
    Seq::new(s.len(), |i: int| s[i].id)
}

/// Whether a record can stand in the registry of `session`.
pub open spec fn checkpoint_fits(c: CheckpointView, session: Seq<char>) -> bool {
    c.session_id == session && c.blob == spec_blob_name(c.id)
}

/// Whether a sequence can be the registry of `session`: no id occurs twice,
/// every checkpoint belongs to the session and names the blob file of its id.
pub open spec fn checkpoints_valid(s: Seq<CheckpointView>, session: Seq<char>) -> bool {
    &&& distinct(checkpoint_ids(s))
    &&& forall|i: int| 0 <= i < s.len() ==> checkpoint_fits(#[trigger] s[i], session)
}

/// What `save` makes of a registry once the blob is stored: the new record
/// at the end, unless its id is taken.
pub open spec fn spec_save(s: Seq<CheckpointView>, new: CheckpointView) -> Result<
    Seq<CheckpointView>,
    AnchorError,
> {
    if known(checkpoint_ids(s), new.id) {
        Err(AnchorError::DuplicateId)
    } else {
        Ok(s.push(new))
    }
}

/// What `restore` hands to a fork of the network `target`, given the bytes
/// read from the checkpoint's blob file: those bytes, where the checkpoint
/// is known, comes from that network and records their length.
pub open spec fn spec_restore(
    s: Seq<CheckpointView>,
    id: Seq<char>,
    target: Network,
    blob: Seq<u8>,
) -> Result<Seq<u8>, AnchorError> {
    if !known(checkpoint_ids(s), id) {
        Err(AnchorError::NotFound)
    } else {
        let c = s[position(checkpoint_ids(s), id)];
        if c.network != target {
            Err(AnchorError::NetworkMismatch)
        } else if c.size_bytes != blob.len() {
            Err(AnchorError::Corruption)
        } else {
            Ok(blob)
        }
    }
}

/// The blob file that a restore of `id` into a fork of `target` reads: that
/// of the checkpoint, where it is known and comes from that network.
pub open spec fn spec_blob_for(s: Seq<CheckpointView>, id: Seq<char>, target: Network) -> Result<
    Seq<char>,
    AnchorError,
> {
    if !known(checkpoint_ids(s), id) {
        Err(AnchorError::NotFound)
    } else {
        let c = s[position(checkpoint_ids(s), id)];
        if c.network != target {
            Err(AnchorError::NetworkMismatch)
        } else {
            Ok(c.blob)
        }
    }
}

/// Whether every checkpoint's blob file is there with the recorded length:
/// `sizes` holds, for each checkpoint in order, the length of its blob
/// file, or `None` where the file is missing.
pub open spec fn spec_intact(s: Seq<CheckpointView>, sizes: Seq<Option<u64>>) -> bool {
    forall|i: int|
        0 <= i < s.len() ==> i < sizes.len() && sizes[i] == Some((#[trigger] s[i]).size_bytes)
}

/// Saving and restoring is a round trip: once a checkpoint with a fresh id
/// is saved with the length of the blob that was written, a restore into any
/// fork of the same network hands over that blob, byte for byte.
pub proof fn lemma_save_restore_round_trip(
    s: Seq<CheckpointView>,
    new: CheckpointView,
    blob: Seq<u8>,
)
    requires
        distinct(checkpoint_ids(s)),
        !known(checkpoint_ids(s), new.id),
        new.size_bytes == blob.len(),
    ensures
        spec_save(s, new) == Ok::<Seq<CheckpointView>, AnchorError>(s.push(new)),
        spec_restore(s.push(new), new.id, new.network, blob) == Ok::<Seq<u8>, AnchorError>(blob),
{
    let ids = checkpoint_ids(s);
    lemma_push_distinct(ids, new.id);
    assert(checkpoint_ids(s.push(new)) =~= ids.push(new.id));
    lemma_position_is(ids.push(new.id), new.id, ids.len() as int);
}

/// A blob whose length differs from the recorded one is never restored: for
/// a known checkpoint and a fork of its network, the restore reports
/// corruption.
pub proof fn lemma_wrong_length_is_corruption(
    s: Seq<CheckpointView>,
    k: int,
    blob: Seq<u8>,
)
    requires
        distinct(checkpoint_ids(s)),
        0 <= k < s.len(),
        blob.len() != s[k].size_bytes,
    ensures
        spec_restore(s, s[k].id, s[k].network, blob) == Err::<Seq<u8>, AnchorError>(
            AnchorError::Corruption,
        ),
{
    let ids = checkpoint_ids(s);
    assert(ids[k] == s[k].id);
    assert forall|a: int| 0 <= a < k implies ids[a] != s[k].id by {
        assert(ids[a] != ids[k]);
    }
    lemma_position_is(ids, s[k].id, k);
}

/// The checkpoint registry of one session, as seen from one fork.
pub struct CheckpointManager {
    fork_id: String,
    session_id: String,
    checkpoints: Vec<Checkpoint>,
}

impl View for CheckpointManager {
    type V = Seq<CheckpointView>;

    closed spec fn view(&self) -> Seq<CheckpointView> {
        checkpoint_views(self.checkpoints@)
    }
}

impl CheckpointManager {
    #[verifier::type_invariant]
    spec fn valid(&self) -> bool {
        checkpoints_valid(checkpoint_views(self.checkpoints@), self.session_id@)
    }

    /// The id of the fork that new checkpoints are taken from.
    pub closed spec fn origin(&self) -> Seq<char> {
        self.fork_id@
    }

    /// The id of the session whose checkpoints these are.
    pub closed spec fn scope(&self) -> Seq<char> {
        self.session_id@
    }

    /// An empty registry for `session_id`, seen from the fork `fork_id`.
    pub fn new(fork_id: &str, session_id: &str) -> (m: Self)
        ensures
            m@ == Seq::<CheckpointView>::empty(),
            m.origin() == fork_id@,
            m.scope() == session_id@,
    {
        let m = CheckpointManager {
            fork_id: String::from_str(fork_id),
            session_id: String::from_str(session_id),
            checkpoints: Vec::new(),
        };
        assert(m@ =~= Seq::<CheckpointView>::empty());
        m
    }

    /// The id of the fork that new checkpoints are taken from.
    pub fn fork_id(&self) -> (r: &String)
        ensures
            r@ == self.origin(),
    {
        &self.fork_id
    }

    /// The id of the session whose checkpoints these are.
    pub fn session_id(&self) -> (r: &String)
        ensures
            r@ == self.scope(),
    {
        &self.session_id
    }

    /// The registry always holds distinct ids of its own session, each with
    /// the blob file of its id.
    pub fn well_formed(&self)
        ensures
            checkpoints_valid(self@, self.scope()),
    {
        proof {
            use_type_invariant(self);
        }
    }

    /// The session's checkpoints in creation order, whatever fork each was
    /// taken from.
    pub fn list(&self) -> (r: &Vec<Checkpoint>)
        ensures
            checkpoint_views(r@) == self@,
    {
        &self.checkpoints
    }

    /// The checkpoint with the given id.
    pub fn get(&self, id: &str) -> (r: Option<&Checkpoint>)
        ensures
            match r {
                Some(c) => known(checkpoint_ids(self@), id@) && c@ == self@[position(
                    checkpoint_ids(self@),
                    id@,
                )],
                None => !known(checkpoint_ids(self@), id@),
            },
    {
        let key = String::from_str(id);
        assert(keys(self.checkpoints@) =~= checkpoint_ids(self@));
        match find(&self.checkpoints, &key) {
            Some(k) => {
                proof {
                    lemma_position_is(checkpoint_ids(self@), id@, k as int);
                }
                Some(&self.checkpoints[k])
            },
            None => None,
        }
    }

    /// Picks an id for a new record: the place of the first candidate that
    /// the registry does not hold, or `None` where it holds them all.
    pub fn free_id(&self, candidates: &Vec<String>) -> (r: Option<usize>)
        ensures
            match r {
                Some(k) => is_first_free(checkpoint_ids(self@), texts(candidates@), k as int),
                None => forall|j: int|
                    0 <= j < candidates@.len() ==> known(
                        checkpoint_ids(self@),
                        #[trigger] texts(candidates@)[j],
                    ),
            },
    {
        assert(keys(self.checkpoints@) =~= checkpoint_ids(self@));
        first_free(&self.checkpoints, candidates)
    }

    /// Takes the registry from what reading its document gave. A missing
    /// document is an empty registry and no failure. One that could not be
    /// read or parsed, or whose records break the registry's rules, leaves an
    /// empty registry and is reported, for the caller to warn about.
    pub fn load_registry(&mut self, outcome: Loaded<Checkpoint>) -> (r: Result<(), AnchorError>)
        ensures
            final(self).scope() == old(self).scope(),
            final(self).origin() == old(self).origin(),
            match outcome {
                Loaded::Missing => r == Ok::<(), AnchorError>(()) && final(self)@ == Seq::<
                    CheckpointView,
                >::empty(),
                Loaded::Unreadable => r == Err::<(), AnchorError>(AnchorError::Io) && final(self)@
                    == Seq::<CheckpointView>::empty(),
                Loaded::Malformed => r == Err::<(), AnchorError>(AnchorError::MalformedRegistry)
                    && final(self)@ == Seq::<CheckpointView>::empty(),
                Loaded::Records(v) => if checkpoints_valid(
                    checkpoint_views(v@),
                    old(self).scope(),
                ) {
                    r == Ok::<(), AnchorError>(()) && final(self)@ == checkpoint_views(v@)
                } else {
                    r == Err::<(), AnchorError>(AnchorError::MalformedRegistry) && final(self)@
                        == Seq::<CheckpointView>::empty()
                },
            },
    {
        proof {
            use_type_invariant(&*self);
        }
        let (records, r) = match outcome {
            Loaded::Missing => (Vec::new(), Ok(())),
            Loaded::Unreadable => (Vec::new(), Err(AnchorError::Io)),
            Loaded::Malformed => (Vec::new(), Err(AnchorError::MalformedRegistry)),
            Loaded::Records(v) => {
                assert(keys(v@) =~= checkpoint_ids(checkpoint_views(v@)));
                if all_distinct(&v) && all_fit(&v, &self.session_id) {
                    (v, Ok(()))
                } else {
                    (Vec::new(), Err(AnchorError::MalformedRegistry))
                }
            },
        };
        assert(r is Err ==> checkpoint_views(records@) =~= Seq::<CheckpointView>::empty());
        assert(outcome is Missing ==> checkpoint_views(records@) =~= Seq::<
            CheckpointView,
        >::empty());
        self.checkpoints = records;
        r
    }

    /// Records a checkpoint of the fork's state at `block_number`, after the
    /// dump `blob` was written to the blob file of `id`: `stored` says
    /// whether that write was completed. Where it was not, nothing is
    /// recorded. Else the record holds the blob's length, goes to the end of
    /// the sequence, and a copy is returned.
    pub fn save(
        &mut self,
        id: String,
        network: Network,
        block_number: u64,
        blob: &Vec<u8>,
        stored: bool,
        description: Option<String>,
        now: u64,
    ) -> (r: Result<Checkpoint, AnchorError>)
        ensures
            final(self).scope() == old(self).scope(),
            final(self).origin() == old(self).origin(),
            match r {
                Ok(c) => {
                    &&& stored
                    &&& c@ == (CheckpointView {
                        id: id@,
                        fork_id: old(self).origin(),
                        session_id: old(self).scope(),
                        network: network,
                        block_number: block_number,
                        size_bytes: blob@.len() as u64,
                        description: opt_text(description),
                        created_at: now,
                        blob: spec_blob_name(id@),
                    })
                    &&& c@.size_bytes == blob@.len()
                    &&& spec_save(old(self)@, c@) == Ok::<Seq<CheckpointView>, AnchorError>(
                        final(self)@,
                    )
                },
                Err(e) => {
                    &&& final(self)@ == old(self)@
                    &&& e == if !stored {
                        AnchorError::Io
                    } else {
                        AnchorError::DuplicateId
                    }
                    &&& stored ==> known(checkpoint_ids(old(self)@), id@)
                },
            },
    {
        proof {
            use_type_invariant(&*self);
        }
        if !stored {
            return Err(AnchorError::Io);
        }
        assert(keys(self.checkpoints@) =~= checkpoint_ids(self@));
        if find(&self.checkpoints, &id).is_some() {
            return Err(AnchorError::DuplicateId);
        }
        let blob_file = blob_name(id.as_str());
        let checkpoint = Checkpoint {
            id: id,
            fork_id: self.fork_id.clone(),
            session_id: self.session_id.clone(),
            network: network,
            block_number: block_number,
            size_bytes: blob.len() as u64,
            description: description,
            created_at: now,
            blob: blob_file,
        };
        let copy = checkpoint.clone();
        let ghost before = self@;
        proof {
            lemma_push_distinct(checkpoint_ids(before), checkpoint@.id);
            assert(checkpoint_ids(before.push(checkpoint@)) =~= checkpoint_ids(before).push(
                checkpoint@.id,
            ));
            assert(checkpoint_views(self.checkpoints@.push(checkpoint)) =~= before.push(
                checkpoint@,
            ));
        }
        let mut items: Vec<Checkpoint> = Vec::new();
        std::mem::swap(&mut self.checkpoints, &mut items);
        items.push(checkpoint);
        self.checkpoints = items;
        Ok(copy)
    }

    /// The name of the blob file to read for a restore of the checkpoint
    /// `id` into a fork of the network `target`. An unknown id is not
    /// found; a checkpoint of another network is refused.
    pub fn blob_for(&self, id: &str, target: Network) -> (r: Result<String, AnchorError>)
        ensures
            match spec_blob_for(self@, id@, target) {
                Ok(name) => r is Ok && r->Ok_0@ == name,
                Err(e) => r == Err::<String, AnchorError>(e),
            },
    {
        match self.get(id) {
            None => Err(AnchorError::NotFound),
            Some(c) => {
                if c.network != target {
                    Err(AnchorError::NetworkMismatch)
                } else {
                    Ok(c.blob.clone())
                }
            },
        }
    }

    /// Checks the checkpoints against their blob files before they are
    /// listed: `sizes` holds, for each checkpoint in order, the length of
    /// its blob file, or `None` where the file is missing. A file that is
    /// missing or of another length than recorded is corruption.
    pub fn audit(&self, sizes: &Vec<Option<u64>>) -> (r: Result<(), AnchorError>)
        ensures
            r == if spec_intact(self@, sizes@) {
                Ok::<(), AnchorError>(())
            } else {
                Err::<(), AnchorError>(AnchorError::Corruption)
            },
    {
        let mut i: usize = 0;
        while i < self.checkpoints.len()
            invariant
                i <= self.checkpoints.len(),
                forall|j: int|
                    0 <= j < i ==> j < sizes@.len() && sizes@[j] == Some(
                        (#[trigger] self@[j]).size_bytes,
                    ),
            decreases self.checkpoints.len() - i,
        {
            let found: bool = if i < sizes.len() {
                match sizes[i] {
                    Some(n) => n == self.checkpoints[i].size_bytes,
                    None => false,
                }
            } else {
                false
            };
            if !found {
                assert(!(i < sizes@.len() && sizes@[i as int] == Some(self@[i as int].size_bytes)));
                return Err(AnchorError::Corruption);
            }
            i += 1;
        }
        Ok(())
    }

    /// Decides a restore of the checkpoint `id` into a fork of the network
    /// `target`, given the bytes read from its blob file. What is returned
    /// on success is what the fork is to load: the bytes as they were read.
    pub fn restore(&self, id: &str, target: Network, blob: Vec<u8>) -> (r: Result<
        Vec<u8>,
        AnchorError,
    >)
        ensures
            match spec_restore(self@, id@, target, blob@) {
                Ok(bytes) => r is Ok && r->Ok_0@ == bytes,
                Err(e) => r == Err::<Vec<u8>, AnchorError>(e),
            },
    {
        match self.get(id) {
            None => Err(AnchorError::NotFound),
            Some(c) => {
                if c.network != target {
                    Err(AnchorError::NetworkMismatch)
                } else if c.size_bytes != blob.len() as u64 {
                    Err(AnchorError::Corruption)
                } else {
                    Ok(blob)
                }
            },
        }
    }
}

fn all_fit(items: &Vec<Checkpoint>, session: &String) -> (r: bool)
    ensures
        r == (forall|i: int|
            0 <= i < items@.len() ==> checkpoint_fits(
                #[trigger] checkpoint_views(items@)[i],
                session@,
            )),
{
    let mut i: usize = 0;
    while i < items.len()
        invariant
            i <= items.len(),
            forall|j: int|
                0 <= j < i ==> checkpoint_fits(#[trigger] checkpoint_views(items@)[j], session@),
        decreases items.len() - i,
    {
        let expected = blob_name(items[i].id.as_str());
        if !(items[i].session_id == *session) || !(items[i].blob == expected) {
            assert(!checkpoint_fits(checkpoint_views(items@)[i as int], session@));
            return false;
        }
        i += 1;
    }
    true
}

} // verus!
