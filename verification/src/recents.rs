//! The list of recently opened files: for each file identifier the time it
//! was last opened, kept in insertion order.
//!
//! The list is held in an insertion-ordered map of the `indexmap` crate.
//! Its contents are named by `recent_entries`, and each method the logic
//! needs is declared with the contract that the crate's documentation gives.

use indexmap::IndexMap;
use std::collections::hash_map::RandomState;
use vstd::prelude::*;

verus! {

#[verifier::external_type_specification]
#[verifier::external_body]
#[verifier::reject_recursive_types(K)]
#[verifier::reject_recursive_types(V)]
#[verifier::reject_recursive_types(S)]
pub struct ExIndexMap<K, V, S>(IndexMap<K, V, S>);

/// The entries of the map, in order: for each one the key and the value.
pub uninterp spec fn recent_entries(m: IndexMap<String, i64, RandomState>) -> Seq<(Seq<char>, i64)>;

/// No two entries share a key.
pub open spec fn distinct_keys(es: Seq<(Seq<char>, i64)>) -> bool {
    forall|i: int, j: int| 0 <= i < j < es.len() ==> es[i].0 != es[j].0
}

/// Some entry has the key `k`.
pub open spec fn has_key(es: Seq<(Seq<char>, i64)>, k: Seq<char>) -> bool {
    exists|j: int| 0 <= j < es.len() && es[j].0 == k
}

/// The position of the entry with key `k`; meaningful when the keys are
/// distinct and `has_key(es, k)`.
pub open spec fn key_index(es: Seq<(Seq<char>, i64)>, k: Seq<char>) -> int {
    choose|j: int| 0 <= j < es.len() && es[j].0 == k
}

/// Relies on indexmap's `IndexMap::new`: a new map is empty.
#[verifier::external_body]
fn recent_map_new() -> (r: IndexMap<String, i64, RandomState>)
    ensures
        recent_entries(r) == Seq::<(Seq<char>, i64)>::empty(),
{
    IndexMap::new()
}

/// Relies on indexmap's `IndexMap::len`: the number of entries.
#[verifier::external_body]
fn recent_map_len(m: &IndexMap<String, i64, RandomState>) -> (r: usize)
    ensures
        r == recent_entries(*m).len(),
{
    m.len()
}

/// Relies on indexmap's `IndexMap::get_index`: the entry at a position,
/// in order; `None` beyond the last.
#[verifier::external_body]
fn recent_map_get_index(m: &IndexMap<String, i64, RandomState>, i: usize) -> (r: Option<(String, i64)>)
    ensures
        match r {
            Some(p) => i < recent_entries(*m).len() && p.0@ == recent_entries(*m)[i as int].0
                && p.1 == recent_entries(*m)[i as int].1,
            None => i >= recent_entries(*m).len(),
        },
{
    m.get_index(i).map(|(k, v)| (k.clone(), *v))
}

/// Relies on indexmap's `IndexMap::get_index_of`: the position of the entry
/// with the key, if one exists.
#[verifier::external_body]
fn recent_map_get_index_of(m: &IndexMap<String, i64, RandomState>, key: &str) -> (r: Option<usize>)
    ensures
        match r {
            Some(i) => i < recent_entries(*m).len() && recent_entries(*m)[i as int].0 == key@,
            None => !has_key(recent_entries(*m), key@),
        },
{
    m.get_index_of(key)
}

/// Relies on indexmap's `IndexMap::insert`: an existing key keeps its place
/// in the order and only its value is updated, and the old value comes back;
/// a new key is appended, and `None` comes back. A map's keys are distinct.
#[verifier::external_body]
fn recent_map_insert(m: &mut IndexMap<String, i64, RandomState>, key: String, value: i64) -> (r: Option<i64>)
    ensures
        distinct_keys(recent_entries(*final(m))),
        has_key(recent_entries(*old(m)), key@) ==> {
            let j = key_index(recent_entries(*old(m)), key@);
            recent_entries(*final(m)) == recent_entries(*old(m)).update(j, (key@, value)) && r
                == Some(recent_entries(*old(m))[j].1)
        },
        !has_key(recent_entries(*old(m)), key@) ==> recent_entries(*final(m)) == recent_entries(
            *old(m),
        ).push((key@, value)) && r is None,
{
    m.insert(key, value)
}

/// Relies on indexmap's `IndexMap::shift_remove_full`: removes the entry
/// with the key, shifting the entries after it and keeping their order, and
/// returns its position, key and value; `None` when the key is absent.
#[verifier::external_body]
fn recent_map_shift_remove(m: &mut IndexMap<String, i64, RandomState>, key: &str) -> (r: Option<(usize, String, i64)>)
    ensures
        distinct_keys(recent_entries(*final(m))),
        match r {
            Some(t) => t.0 < recent_entries(*old(m)).len() && recent_entries(*old(m))[t.0 as int].0
                == key@ && t.1@ == key@ && t.2 == recent_entries(*old(m))[t.0 as int].1
                && recent_entries(*final(m)) == recent_entries(*old(m)).remove(t.0 as int),
            None => recent_entries(*final(m)) == recent_entries(*old(m)) && !has_key(
                recent_entries(*old(m)),
                key@,
            ),
        },
{
    m.shift_remove_full(key)
}

/// Adding the pair `(k, v)` to entries: an existing key keeps its place and
/// takes the new value, a new key is appended.
pub open spec fn insert_entry(es: Seq<(Seq<char>, i64)>, k: Seq<char>, v: i64) -> Seq<
    (Seq<char>, i64),
> {
    if has_key(es, k) {
        es.update(key_index(es, k), (k, v))
    } else {
        es.push((k, v))
    }
}

/// The entries that loading the pairs one by one leaves behind.
pub open spec fn entries_of_pairs(ps: Seq<(String, i64)>) -> Seq<(Seq<char>, i64)>
    decreases ps.len(),
{
    if ps.len() == 0 {
        Seq::empty()
    } else {
        insert_entry(entries_of_pairs(ps.drop_last()), ps.last().0@, ps.last().1)
    }
}

/// Adding an entry keeps the keys distinct.
proof fn lemma_insert_entry_distinct(es: Seq<(Seq<char>, i64)>, k: Seq<char>, v: i64)
    requires
        distinct_keys(es),
    ensures
        distinct_keys(insert_entry(es, k, v)),
{
    if has_key(es, k) {
        let j = key_index(es, k);
        assert(0 <= j < es.len() && es[j].0 == k);
        let es2 = es.update(j, (k, v));
        assert forall|a: int, b: int| 0 <= a < b < es2.len() implies es2[a].0 != es2[b].0 by {
            assert(es2[a].0 == es[a].0 && es2[b].0 == es[b].0);
        }
    } else {
        let es2 = es.push((k, v));
        assert forall|a: int, b: int| 0 <= a < b < es2.len() implies es2[a].0 != es2[b].0 by {
            if b == es.len() {
                assert(es2[a].0 == es[a].0);
                assert(!(es[a].0 == k));
            } else {
                assert(es2[a].0 == es[a].0 && es2[b].0 == es[b].0);
            }
        }
    }
}

/// The recently opened files, most recently added last, each with the time
/// it was last opened.
pub struct RecentList {
    entries: IndexMap<String, i64, RandomState>,
}

impl View for RecentList {
    type V = Seq<(Seq<char>, i64)>;

    closed spec fn view(&self) -> Seq<(Seq<char>, i64)> {
        recent_entries(self.entries)
    }
}

impl RecentList {
    /// The log never holds two entries for one file.
    pub open spec fn wf(&self) -> bool {
        distinct_keys(self@)
    }

    /// An empty log.
    pub fn new() -> (r: RecentList)
        ensures
            r@ == Seq::<(Seq<char>, i64)>::empty(),
            r.wf(),
    {
        RecentList { entries: recent_map_new() }
    }

    /// The number of entries.
    pub fn len(&self) -> (r: usize)
        ensures
            r == self@.len(),
    {
        recent_map_len(&self.entries)
    }

    /// The entry at a position, in order.
    pub fn get(&self, i: usize) -> (r: Option<(String, i64)>)
        ensures
            i < self@.len() ==> (r matches Some(p) && p.0@ == self@[i as int].0 && p.1
                == self@[i as int].1),
            i >= self@.len() ==> r is None,
    {
        recent_map_get_index(&self.entries, i)
    }

    /// Notes that the file `uri` was opened at time `added`. A file already
    /// on the log keeps its place and gets the new time; a new file is
    /// appended. Returns the changed position and how many entries were
    /// replaced and added there, for the list's change notification.
    pub fn add(&mut self, uri: String, added: i64) -> (r: (usize, u32, u32))
        requires
            old(self).wf(),
        ensures
            final(self).wf(),
            has_key(old(self)@, uri@) ==> {
                &&& final(self)@ == old(self)@.update(key_index(old(self)@, uri@), (uri@, added))
                &&& r.0 == key_index(old(self)@, uri@)
                &&& r.1 == 1u32
                &&& r.2 == 1u32
            },
            !has_key(old(self)@, uri@) ==> {
                &&& final(self)@ == old(self)@.push((uri@, added))
                &&& r.0 == old(self)@.len()
                &&& r.1 == 0u32
                &&& r.2 == 1u32
            },
    {
        let ghost u = uri@;
        let index_before = recent_map_get_index_of(&self.entries, uri.as_str());
        let existing = recent_map_insert(&mut self.entries, uri, added);
        match index_before {
            Some(i) => {
                proof {
                    let j = key_index(old(self)@, u);
                    assert(0 <= j < old(self)@.len() && old(self)@[j].0 == u);
                    assert(j == i);
                }
                (i, 1, 1)
            },
            None => {
                let n = recent_map_len(&self.entries);
                assert(self@.len() == old(self)@.len() + 1);
                (n - 1, 0, 1)
            },
        }
    }

    /// Removes the file `uri` from the log, keeping the order of the rest.
    /// Returns the position it held, for the list's change notification.
    pub fn remove(&mut self, uri: &str) -> (r: Option<usize>)
        requires
            old(self).wf(),
        ensures
            final(self).wf(),
            match r {
                Some(i) => i < old(self)@.len() && old(self)@[i as int].0 == uri@ && final(self)@
                    == old(self)@.remove(i as int),
                None => final(self)@ == old(self)@ && !has_key(old(self)@, uri@),
            },
    {
        match recent_map_shift_remove(&mut self.entries, uri) {
            Some((i, _, _)) => Some(i),
            None => None,
        }
    }

    /// The log that loading the stored pairs one by one leaves behind: a
    /// pair whose file is already on the log only updates its time.
    pub fn from_pairs(pairs: &Vec<(String, i64)>) -> (r: RecentList)
        ensures
            r@ == entries_of_pairs(pairs@),
            r.wf(),
    {
        let mut log = RecentList::new();
        let n = pairs.len();
        let mut i: usize = 0;
        while i < n
            invariant
                n == pairs@.len(),
                i <= n,
                log.wf(),
                log@ == entries_of_pairs(pairs@.take(i as int)),
            decreases n - i,
        {
            let (uri, added) = (pairs[i].0.clone(), pairs[i].1);
            proof {
                assert(pairs@.take(i + 1).drop_last() =~= pairs@.take(i as int));
                assert(pairs@.take(i + 1).last() == pairs@[i as int]);
            }
            let _ = log.add(uri, added);
            i += 1;
        }
        proof {
            assert(pairs@.take(n as int) =~= pairs@);
        }
        log
    }

    /// The entries as plain pairs, in order, for storing.
    pub fn to_pairs(&self) -> (r: Vec<(String, i64)>)
        ensures
            r@.len() == self@.len(),
            forall|i: int| 0 <= i < self@.len() ==> r@[i].0@ == self@[i].0 && r@[i].1
                == self@[i].1,
    {
        let n = recent_map_len(&self.entries);
        let mut out: Vec<(String, i64)> = Vec::new();
        let mut i: usize = 0;
        while i < n
            invariant
                n == self@.len(),
                i <= n,
                out@.len() == i,
                forall|j: int| 0 <= j < i ==> out@[j].0@ == self@[j].0 && out@[j].1 == self@[j].1,
            decreases n - i,
        {
            if let Some(pair) = recent_map_get_index(&self.entries, i) {
                out.push(pair);
            } else {
                proof {
                    assert(false);
                }
            }
            i += 1;
        }
        out
    }
}

} // verus!
