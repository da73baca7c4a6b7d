//! Forks and their registry.
//!
//! A fork is a local node process that replays a network from a fixed
//! block. The registry lists the live forks in creation order. No two of
//! them share an id or a port, and each is reached at the URL of its port.

use vstd::prelude::*;
use vstd::string::*;
use crate::error::AnchorError;
use crate::network::Network;
use crate::registry::{first_free, is_first_free, texts, Keyed, Loaded, all_distinct, distinct, find, known, keys,
    lemma_position_is, lemma_push_distinct, lemma_remove_forgets, position};
use crate::text::{concat2, copy_opt, decimal, decimal_string, opt_text};

verus! {

/// A live fork.
#[derive(Debug, PartialEq, Eq)]
pub struct Fork {
    pub id: String,
    pub network: Network,
    /// The block the fork was made at; fixed when the fork is created.
    pub block_number: u64,
    pub port: u16,
    /// Where the fork's node answers: the URL of `port`.
    pub rpc_url: String,
    /// The node's process id.
    pub pid: u32,
    pub session_id: Option<String>,
    /// Seconds since the epoch at which the fork was created.
    pub created_at: u64,
}

/// A fork as plain values.
pub struct ForkView {
    pub id: Seq<char>,
    pub network: Network,
    pub block_number: u64,
    pub port: u16,
    pub rpc_url: Seq<char>,
    pub pid: u32,
    pub session_id: Option<Seq<char>>,
    pub created_at: u64,
}

impl View for Fork {
    type V = ForkView;

    open spec fn view(&self) -> ForkView {
        ForkView {
            id: self.id@,
            network: self.network,
            block_number: self.block_number,
            port: self.port,
            rpc_url: self.rpc_url@,
            pid: self.pid,
            session_id: opt_text(self.session_id),
            created_at: self.created_at,
        }
    }
}

impl Keyed for Fork {
    open spec fn key(&self) -> Seq<char> {
        self.id@
    }

    fn key_is(&self, id: &String) -> (r: bool) {
        self.id == *id
    }

    fn same_key(&self, other: &Self) -> (r: bool) {
        self.id == other.id
    }
}

impl Clone for Fork {
    fn clone(&self) -> (r: Self)
        ensures
            r@ == self@,
    {
        Fork {
            id: self.id.clone(),
            network: self.network,
            block_number: self.block_number,
            port: self.port,
            rpc_url: self.rpc_url.clone(),
            pid: self.pid,
            session_id: copy_opt(&self.session_id),
            created_at: self.created_at,
        }
    }
}

/// The URL at which the node listening on `port` answers.
pub open spec fn spec_rpc_url(port: u16) -> Seq<char> {
    "http://localhost:"@ + decimal(port as nat)
}

/// The URL at which the node listening on `port` answers.
pub fn rpc_url(port: u16) -> (r: String)
    ensures
        r@ == spec_rpc_url(port),
{
    let digits = decimal_string(port as u64);
    concat2("http://localhost:", digits.as_str())
}

/// The records as plain values.
pub open spec fn fork_views(items: Seq<Fork>) -> Seq<ForkView> {
    Seq::new(items.len(), |i: int| items[i]@)
}

/// The ids of a fork sequence, in order.
pub open spec fn fork_ids(s: Seq<ForkView>) -> Seq<Seq<char>> {
    Seq::new(s.len(), |i: int| s[i].id)
}

/// Whether some fork of the sequence is recorded on `port`.
pub open spec fn port_taken(s: Seq<ForkView>, port: u16) -> bool {
    exists|i: int| 0 <= i < s.len() && (#[trigger] s[i]).port == port
}

/// Whether a sequence can be a fork registry: no id and no port occurs
/// twice, and every fork's URL is that of its port.
pub open spec fn forks_valid(s: Seq<ForkView>) -> bool {
    &&& distinct(fork_ids(s))
    &&& forall|i: int, j: int| 0 <= i < j < s.len() ==> (#[trigger] s[i]).port != (#[trigger] s[j]).port
    &&& forall|i: int| 0 <= i < s.len() ==> (#[trigger] s[i]).rpc_url == spec_rpc_url(s[i].port)
}

/// What `record` makes of a registry: the new fork at the end, unless its
/// id or its port is taken.
pub open spec fn spec_record(s: Seq<ForkView>, new: ForkView) -> Result<Seq<ForkView>, AnchorError> {
    if known(fork_ids(s), new.id) {
        Err(AnchorError::DuplicateId)
    } else if port_taken(s, new.port) {
        Err(AnchorError::PortUnavailable)
    } else {
        Ok(s.push(new))
    }
}

/// The registry without the fork `id`; the registry itself where it holds
/// no such fork.
pub open spec fn spec_remove(s: Seq<ForkView>, id: Seq<char>) -> Seq<ForkView> {
    if known(fork_ids(s), id) {
        s.remove(position(fork_ids(s), id))
    } else {
        s
    }
}

/// Removing a fork keeps the registry valid, forgets the fork's id and
/// frees its port.
pub proof fn lemma_remove_frees(s: Seq<ForkView>, k: int)
    requires
        forks_valid(s),
        0 <= k < s.len(),
    ensures
        spec_remove(s, s[k].id) == s.remove(k),
        forks_valid(s.remove(k)),
        !known(fork_ids(s.remove(k)), s[k].id),
        !port_taken(s.remove(k), s[k].port),
{
    let ids = fork_ids(s);
    let rest = s.remove(k);
    assert(ids[k] == s[k].id);
    assert forall|a: int| 0 <= a < k implies ids[a] != s[k].id by {
        assert(ids[a] != ids[k]);
    }
    lemma_position_is(ids, s[k].id, k);
    lemma_remove_forgets(ids, k);
    assert(fork_ids(rest) =~= ids.remove(k));
    assert forall|i: int| 0 <= i < rest.len() implies (#[trigger] rest[i]).port != s[k].port
        && rest[i].rpc_url == spec_rpc_url(rest[i].port) by {
        let i0 = if i < k { i } else { i + 1 };
        assert(rest[i] == s[i0]);
    }
    assert forall|i: int, j: int| 0 <= i < j < rest.len() implies (#[trigger] rest[i]).port != (
    #[trigger] rest[j]).port by {
        let i0 = if i < k { i } else { i + 1 };
        let j0 = if j < k { j } else { j + 1 };
        assert(rest[i] == s[i0] && rest[j] == s[j0]);
    }
}

/// The registry of live forks.
pub struct ForkManager {
    forks: Vec<Fork>,
}

impl View for ForkManager {
    type V = Seq<ForkView>;

    closed spec fn view(&self) -> Seq<ForkView> {
        fork_views(self.forks@)
    }
}

impl ForkManager {
    #[verifier::type_invariant]
    spec fn valid(&self) -> bool {
        forks_valid(fork_views(self.forks@))
    }

    /// An empty registry.
    pub fn new() -> (m: Self)
        ensures
            m@ == Seq::<ForkView>::empty(),
    {
        let m = ForkManager { forks: Vec::new() };
        assert(m@ =~= Seq::<ForkView>::empty());
        m
    }

    /// The registry always holds distinct ids and distinct ports.
    pub fn well_formed(&self)
        ensures
            forks_valid(self@),
    {
        proof {
            use_type_invariant(self);
        }
    }

    /// The live forks, in creation order.
    pub fn all(&self) -> (r: &Vec<Fork>)
        ensures
            fork_views(r@) == self@,
    {
        &self.forks
    }

    /// The fork with exactly the given id.
    pub fn get(&self, id: &str) -> (r: Option<&Fork>)
        ensures
            match r {
                Some(f) => known(fork_ids(self@), id@) && f@ == self@[position(
                    fork_ids(self@),
                    id@,
                )],
                None => !known(fork_ids(self@), id@),
            },
    {
        let key = String::from_str(id);
        assert(keys(self.forks@) =~= fork_ids(self@));
        match find(&self.forks, &key) {
            Some(k) => {
                proof {
                    lemma_position_is(fork_ids(self@), id@, k as int);
                }
                Some(&self.forks[k])
            },
            None => None,
        }
    }

    /// Picks an id for a new record: the place of the first candidate that
    /// the registry does not hold, or `None` where it holds them all.
    pub fn free_id(&self, candidates: &Vec<String>) -> (r: Option<usize>)
        ensures
            match r {
                Some(k) => is_first_free(fork_ids(self@), texts(candidates@), k as int),
                None => forall|j: int|
                    0 <= j < candidates@.len() ==> known(
                        fork_ids(self@),
                        #[trigger] texts(candidates@)[j],
                    ),
            },
    {
        assert(keys(self.forks@) =~= fork_ids(self@));
        first_free(&self.forks, candidates)
    }

    /// Whether a live fork is recorded on `port`.
    pub fn port_in_use(&self, port: u16) -> (r: bool)
        ensures
            r == port_taken(self@, port),
    {
        port_among(&self.forks, port)
    }

    /// Takes the registry from what reading its document gave. A missing
    /// document is an empty registry and no failure. One that could not be
    /// read or parsed, or whose records break the registry's rules, leaves an
    /// empty registry and is reported, for the caller to warn about.
    pub fn load_registry(&mut self, outcome: Loaded<Fork>) -> (r: Result<(), AnchorError>)
        ensures
            match outcome {
                Loaded::Missing => r == Ok::<(), AnchorError>(()) && final(self)@ == Seq::<
                    ForkView,
                >::empty(),
                Loaded::Unreadable => r == Err::<(), AnchorError>(AnchorError::Io) && final(self)@
                    == Seq::<ForkView>::empty(),
                Loaded::Malformed => r == Err::<(), AnchorError>(AnchorError::MalformedRegistry)
                    && final(self)@ == Seq::<ForkView>::empty(),
                Loaded::Records(v) => if forks_valid(fork_views(v@)) {
                    r == Ok::<(), AnchorError>(()) && final(self)@ == fork_views(v@)
                } else {
                    r == Err::<(), AnchorError>(AnchorError::MalformedRegistry) && final(self)@
                        == Seq::<ForkView>::empty()
                },
            },
    {
        let (records, r) = match outcome {
            Loaded::Missing => (Vec::new(), Ok(())),
            Loaded::Unreadable => (Vec::new(), Err(AnchorError::Io)),
            Loaded::Malformed => (Vec::new(), Err(AnchorError::MalformedRegistry)),
            Loaded::Records(v) => {
                assert(keys(v@) =~= fork_ids(fork_views(v@)));
                if all_distinct(&v) && ports_distinct(&v) && urls_derived(&v) {
                    (v, Ok(()))
                } else {
                    (Vec::new(), Err(AnchorError::MalformedRegistry))
                }
            },
        };
        assert(r is Err ==> fork_views(records@) =~= Seq::<ForkView>::empty());
        assert(outcome is Missing ==> fork_views(records@) =~= Seq::<ForkView>::empty());
        self.forks = records;
        r
    }

    /// Records a fork whose node runs as process `pid`, listens on `port`
    /// and answers. The fork's URL is derived from the port. The port is
    /// checked against the registry once more: a fork is never recorded on
    /// the port of another live fork. The new fork goes to the end of the
    /// sequence and a copy is returned.
    pub fn record(
        &mut self,
        id: String,
        network: Network,
        block_number: u64,
        port: u16,
        pid: u32,
        session: Option<String>,
        now: u64,
    ) -> (r: Result<Fork, AnchorError>)
        ensures
            match r {
                Ok(f) => {
                    &&& f@ == (ForkView {
                        id: id@,
                        network: network,
                        block_number: block_number,
                        port: port,
                        rpc_url: spec_rpc_url(port),
                        pid: pid,
                        session_id: opt_text(session),
                        created_at: now,
                    })
                    &&& !port_taken(old(self)@, port)
                    &&& spec_record(old(self)@, f@) == Ok::<Seq<ForkView>, AnchorError>(
                        final(self)@,
                    )
                },
                Err(e) => {
                    &&& final(self)@ == old(self)@
                    &&& if known(fork_ids(old(self)@), id@) {
                        e == AnchorError::DuplicateId
                    } else {
                        e == AnchorError::PortUnavailable && port_taken(old(self)@, port)
                    }
                },
            },
    {
        proof {
            use_type_invariant(&*self);
        }
        assert(keys(self.forks@) =~= fork_ids(self@));
        if find(&self.forks, &id).is_some() {
            return Err(AnchorError::DuplicateId);
        }
        if port_among(&self.forks, port) {
            return Err(AnchorError::PortUnavailable);
        }
        let fork = Fork {
            id: id,
            network: network,
            block_number: block_number,
            port: port,
            rpc_url: rpc_url(port),
            pid: pid,
            session_id: session,
            created_at: now,
        };
        let copy = fork.clone();
        let ghost before = self@;
        proof {
            lemma_push_distinct(fork_ids(before), fork@.id);
            assert(fork_ids(before.push(fork@)) =~= fork_ids(before).push(fork@.id));
            assert(fork_views(self.forks@.push(fork)) =~= before.push(fork@));
            let grown = before.push(fork@);
            assert forall|i: int, j: int| 0 <= i < j < grown.len() implies (#[trigger] grown[i]).port
                != (#[trigger] grown[j]).port by {
                if j == before.len() {
                    assert(grown[i] == before[i]);
                } else {
                    assert(grown[i] == before[i] && grown[j] == before[j]);
                }
            }
            assert forall|i: int| 0 <= i < grown.len() implies (#[trigger] grown[i]).rpc_url
                == spec_rpc_url(grown[i].port) by {
                if i < before.len() {
                    assert(grown[i] == before[i]);
                }
            }
        }
        let mut items: Vec<Fork> = Vec::new();
        std::mem::swap(&mut self.forks, &mut items);
        items.push(fork);
        self.forks = items;
        Ok(copy)
    }

    /// Takes the fork `id` out of the registry and returns it; `None`, and
    /// no change, where the registry holds no such fork.
    pub fn remove(&mut self, id: &str) -> (r: Option<Fork>)
        ensures
            final(self)@ == spec_remove(old(self)@, id@),
            match r {
                Some(f) => known(fork_ids(old(self)@), id@) && f@ == old(self)@[position(
                    fork_ids(old(self)@),
                    id@,
                )] && !known(fork_ids(final(self)@), id@) && !port_taken(final(self)@, f@.port),
                None => !known(fork_ids(old(self)@), id@),
            },
    {
        proof {
            use_type_invariant(&*self);
        }
        let key = String::from_str(id);
        assert(keys(self.forks@) =~= fork_ids(self@));
        match find(&self.forks, &key) {
            None => None,
            Some(k) => {
                let ghost before = self@;
                proof {
                    lemma_position_is(fork_ids(before), id@, k as int);
                    lemma_remove_frees(before, k as int);
                    assert(fork_views(self.forks@.remove(k as int)) =~= before.remove(k as int));
                }
                let mut items: Vec<Fork> = Vec::new();
                std::mem::swap(&mut self.forks, &mut items);
                let fork = items.remove(k);
                self.forks = items;
                Some(fork)
            },
        }
    }
}

fn port_among(items: &Vec<Fork>, port: u16) -> (r: bool)
    ensures
        r == port_taken(fork_views(items@), port),
{
    let mut i: usize = 0;
    while i < items.len()
        invariant
            i <= items.len(),
            forall|j: int| 0 <= j < i ==> (#[trigger] fork_views(items@)[j]).port != port,
        decreases items.len() - i,
    {
        if items[i].port == port {
            assert(fork_views(items@)[i as int].port == port);
            return true;
        }
        i += 1;
    }
    false
}

fn ports_distinct(items: &Vec<Fork>) -> (r: bool)
    ensures
        r == (forall|i: int, j: int|
            0 <= i < j < items@.len() ==> (#[trigger] fork_views(items@)[i]).port != (
            #[trigger] fork_views(items@)[j]).port),
{
    let mut b: usize = 0;
    while b < items.len()
        invariant
            b <= items.len(),
            forall|i: int, j: int|
                0 <= i < j < b ==> (#[trigger] fork_views(items@)[i]).port != (
                #[trigger] fork_views(items@)[j]).port,
        decreases items.len() - b,
    {
        let mut a: usize = 0;
        while a < b
            invariant
                a <= b < items.len(),
                forall|i: int|
                    0 <= i < a ==> (#[trigger] fork_views(items@)[i]).port != fork_views(
                        items@,
                    )[b as int].port,
            decreases b - a,
        {
            if items[a].port == items[b].port {
                assert(fork_views(items@)[a as int].port == fork_views(items@)[b as int].port);
                return false;
            }
            a += 1;
        }
        b += 1;
    }
    true
}

fn urls_derived(items: &Vec<Fork>) -> (r: bool)
    ensures
        r == (forall|i: int|
            0 <= i < items@.len() ==> (#[trigger] fork_views(items@)[i]).rpc_url == spec_rpc_url(
                fork_views(items@)[i].port,
            )),
{
    let mut i: usize = 0;
    while i < items.len()
        invariant
            i <= items.len(),
            forall|j: int|
                0 <= j < i ==> (#[trigger] fork_views(items@)[j]).rpc_url == spec_rpc_url(
                    fork_views(items@)[j].port,
                ),
        decreases items.len() - i,
    {
        let expected = rpc_url(items[i].port);
        if !(items[i].rpc_url == expected) {
            assert(fork_views(items@)[i as int].rpc_url != spec_rpc_url(
                fork_views(items@)[i as int].port,
            ));
            return false;
        }
        i += 1;
    }
    true
}

} // verus!
