//! Keyed record collections: what every registry shares.
//!
//! A registry is a sequence of records in creation order, each found by its
//! id. The functions here speak of the sequence of ids alone.

use vstd::prelude::*;

verus! {

/// A record that a registry finds by its id.
pub trait Keyed {
    /// The record's id.
    spec fn key(&self) -> Seq<char>;

    /// Whether the record's id reads `id`.
    fn key_is(&self, id: &String) -> (r: bool)
        ensures
            r == (self.key() == id@),
    ;

    /// Whether two records carry the same id.
    fn same_key(&self, other: &Self) -> (r: bool)
        ensures
            r == (self.key() == other.key()),
    ;
}

/// What reading a registry document gave.
#[derive(Debug)]
pub enum Loaded<T> {
    /// There is no document yet.
    Missing,
    /// The document is there and could not be read.
    Unreadable,
    /// The document could not be parsed into records.
    Malformed,
    /// The records of the document, in its order.
    Records(Vec<T>),
}

/// The ids of the records, in order.
pub open spec fn keys<T: Keyed>(items: Seq<T>) -> Seq<Seq<char>> {
    Seq::new(items.len(), |i: int| items[i].key())
}

/// Whether some entry carries `id`.
pub open spec fn known(ids: Seq<Seq<char>>, id: Seq<char>) -> bool {
    exists|i: int| 0 <= i < ids.len() && ids[i] == id
}

/// Whether `k` is the first place at which `id` stands.
pub open spec fn is_position(ids: Seq<Seq<char>>, id: Seq<char>, k: int) -> bool {
    &&& 0 <= k < ids.len()
    &&& ids[k] == id
    &&& forall|j: int| 0 <= j < k ==> ids[j] != id
}

/// The first place at which `id` stands; meaningful where `known(ids, id)`.
pub open spec fn position(ids: Seq<Seq<char>>, id: Seq<char>) -> int {
    choose|k: int| is_position(ids, id, k)
}

/// Whether no id occurs twice.
pub open spec fn distinct(ids: Seq<Seq<char>>) -> bool {
    forall|i: int, j: int| 0 <= i < j < ids.len() ==> ids[i] != ids[j]
}

/// A first place is the only first place.
pub proof fn lemma_position_is(ids: Seq<Seq<char>>, id: Seq<char>, k: int)
    requires
        is_position(ids, id, k),
    ensures
        known(ids, id),
        position(ids, id) == k,
{
    let p = position(ids, id);
    assert(is_position(ids, id, p));
    if p < k {
        assert(ids[p] != id);
    } else if k < p {
        assert(ids[k] != id);
    }
}

/// Cutting a registry of distinct ids at `k` leaves distinct ids, and none
/// of the ids that stood at `k` or later.
pub proof fn lemma_take_forgets(ids: Seq<Seq<char>>, k: int, j: int)
    requires
        distinct(ids),
        0 <= k <= j < ids.len(),
    ensures
        distinct(ids.take(k)),
        !known(ids.take(k), ids[j]),
{
    let cut = ids.take(k);
    assert forall|a: int, b: int| 0 <= a < b < cut.len() implies cut[a] != cut[b] by {
        assert(cut[a] == ids[a] && cut[b] == ids[b]);
    }
    assert forall|i: int| 0 <= i < cut.len() implies cut[i] != ids[j] by {
        assert(cut[i] == ids[i]);
    }
}

/// Appending an id that is not there keeps the ids distinct.
pub proof fn lemma_push_distinct(ids: Seq<Seq<char>>, id: Seq<char>)
    requires
        distinct(ids),
        !known(ids, id),
    ensures
        distinct(ids.push(id)),
        known(ids.push(id), id),
        is_position(ids.push(id), id, ids.len() as int),
{
    let grown = ids.push(id);
    assert forall|a: int, b: int| 0 <= a < b < grown.len() implies grown[a] != grown[b] by {
        if b == ids.len() {
            assert(grown[a] == ids[a]);
        } else {
            assert(grown[a] == ids[a] && grown[b] == ids[b]);
        }
    }
    assert(grown[ids.len() as int] == id);
    assert forall|j: int| 0 <= j < ids.len() implies grown[j] != id by {
        assert(grown[j] == ids[j]);
    }
}

/// Taking one entry out of distinct ids leaves distinct ids without it.
pub proof fn lemma_remove_forgets(ids: Seq<Seq<char>>, k: int)
    requires
        distinct(ids),
        0 <= k < ids.len(),
    ensures
        distinct(ids.remove(k)),
        !known(ids.remove(k), ids[k]),
{
    let rest = ids.remove(k);
    assert forall|a: int, b: int| 0 <= a < b < rest.len() implies rest[a] != rest[b] by {
        let a0 = if a < k { a } else { a + 1 };
        let b0 = if b < k { b } else { b + 1 };
        assert(rest[a] == ids[a0] && rest[b] == ids[b0]);
    }
    assert forall|i: int| 0 <= i < rest.len() implies rest[i] != ids[k] by {
        let i0 = if i < k { i } else { i + 1 };
        assert(rest[i] == ids[i0]);
    }
}

/// Finds the place of the record with the given id.
pub fn find<T: Keyed>(items: &Vec<T>, id: &String) -> (r: Option<usize>)
    ensures
        match r {
            Some(k) => is_position(keys(items@), id@, k as int),
            None => !known(keys(items@), id@),
        },
{
    let mut i: usize = 0;
    while i < items.len()
        invariant
            i <= items.len(),
            forall|j: int| 0 <= j < i ==> keys(items@)[j] != id@,
        decreases items.len() - i,
    {
        if items[i].key_is(id) {
            assert(keys(items@)[i as int] == id@);
            return Some(i);
        }
        i += 1;
    }
    None
}

/// The texts of a list of strings.
pub open spec fn texts(v: Seq<String>) -> Seq<Seq<char>> {
    Seq::new(v.len(), |i: int| v[i]@)
}

/// Whether `k` is the first place of `candidates` whose id no entry of
/// `ids` carries.
pub open spec fn is_first_free(ids: Seq<Seq<char>>, candidates: Seq<Seq<char>>, k: int) -> bool {
    &&& 0 <= k < candidates.len()
    &&& !known(ids, candidates[k])
    &&& forall|j: int| 0 <= j < k ==> known(ids, #[trigger] candidates[j])
}

/// Picks an id for a new record: the first of the candidates that no
/// record carries, or `None` where every candidate is taken.
pub fn first_free<T: Keyed>(items: &Vec<T>, candidates: &Vec<String>) -> (r: Option<usize>)
    ensures
        match r {
            Some(k) => is_first_free(keys(items@), texts(candidates@), k as int),
            None => forall|j: int|
                0 <= j < candidates@.len() ==> known(keys(items@), #[trigger] texts(candidates@)[j]),
        },
{
    let mut i: usize = 0;
    while i < candidates.len()
        invariant
            i <= candidates.len(),
            forall|j: int| 0 <= j < i ==> known(keys(items@), #[trigger] texts(candidates@)[j]),
        decreases candidates.len() - i,
    {
        match find(items, &candidates[i]) {
            None => {
                assert(texts(candidates@)[i as int] == candidates@[i as int]@);
                return Some(i);
            },
            Some(k) => {
                assert(keys(items@)[k as int] == candidates@[i as int]@);
                assert(known(keys(items@), texts(candidates@)[i as int]));
            },
        }
        i += 1;
    }
    None
}

/// Whether no two records share an id.
pub fn all_distinct<T: Keyed>(items: &Vec<T>) -> (r: bool)
    ensures
        r == distinct(keys(items@)),
{
    let mut b: usize = 0;
    while b < items.len()
        invariant
            b <= items.len(),
            forall|i: int, j: int| 0 <= i < j < b ==> keys(items@)[i] != keys(items@)[j],
        decreases items.len() - b,
    {
        let mut a: usize = 0;
        while a < b
            invariant
                a <= b < items.len(),
                forall|i: int| 0 <= i < a ==> keys(items@)[i] != keys(items@)[b as int],
            decreases b - a,
        {
            if items[a].same_key(&items[b]) {
                assert(keys(items@)[a as int] == keys(items@)[b as int]);
                return false;
            }
            a += 1;
        }
        b += 1;
    }
    true
}

} // verus!
