//! The archive cache: a bounded least-recently-used store from archive URL to
//! decompressed payload.
//!
//! The store itself is `lru::LruCache`. Its contents are modelled as a sequence
//! of entries ordered from the most recently used to the least recently used;
//! the functions of this module say how a lookup and an insertion change that
//! sequence.

use std::num::NonZeroUsize;

use lru::LruCache;
use vstd::prelude::*;

verus! {

/// One cache entry: the archive URL and the decompressed payload stored under it.
pub type Entry = (Seq<char>, Seq<u8>);

/// The number of archives that the cache keeps.
pub const CACHE_CAPACITY: usize = 100;

/// `key` is the URL of the entry at index `i`.
pub open spec fn key_at(entries: Seq<Entry>, key: Seq<char>, i: int) -> bool {
    0 <= i < entries.len() && entries[i].0 == key
}

/// Some entry is stored under `key`.
pub open spec fn has_key(entries: Seq<Entry>, key: Seq<char>) -> bool {
    exists|i: int| key_at(entries, key, i)
}

/// No two entries share a URL.
pub open spec fn distinct_keys(entries: Seq<Entry>) -> bool {
    forall|i: int, j: int| 0 <= i < j < entries.len() ==> entries[i].0 != entries[j].0
}

/// The index of the entry stored under `key`, where there is one.
pub open spec fn position(entries: Seq<Entry>, key: Seq<char>) -> int {
    choose|i: int| key_at(entries, key, i)
}

/// The payload stored under `key`, if any.
pub open spec fn lookup(entries: Seq<Entry>, key: Seq<char>) -> Option<Seq<u8>> {
    if has_key(entries, key) {
        Some(entries[position(entries, key)].1)
    } else {
        None
    }
}

/// The entries after the one at index `i` became the most recently used.
pub open spec fn promoted(entries: Seq<Entry>, i: int) -> Seq<Entry> {
    seq![entries[i]] + entries.remove(i)
}

/// The entries after a lookup of `key`: a hit moves the entry to the front, a
/// miss changes nothing.
pub open spec fn touched(entries: Seq<Entry>, key: Seq<char>) -> Seq<Entry> {
    if has_key(entries, key) {
        promoted(entries, position(entries, key))
    } else {
        entries
    }
}

/// The entries after `value` was stored under `key` in a cache of the given
/// capacity: the new entry is the most recently used, it replaces an entry of
/// the same URL, and otherwise a full cache gives up its least recently used entry.
pub open spec fn stored(entries: Seq<Entry>, key: Seq<char>, value: Seq<u8>, capacity: nat) -> Seq<
    Entry,
> {
    if has_key(entries, key) {
        seq![(key, value)] + entries.remove(position(entries, key))
    } else if entries.len() < capacity {
        seq![(key, value)] + entries
    } else {
        seq![(key, value)] + entries.drop_last()
    }
}

/// Where URLs are distinct, the entry under a URL is found at one index only.
pub proof fn lemma_position_is_unique(entries: Seq<Entry>, key: Seq<char>, i: int)
    requires
        distinct_keys(entries),
        key_at(entries, key, i),
    ensures
        has_key(entries, key),
        position(entries, key) == i,
{
    let p = position(entries, key);
    assert(key_at(entries, key, p));
    if p < i {
        assert(entries[p].0 != entries[i].0);
    } else if i < p {
        assert(entries[i].0 != entries[p].0);
    }
}

/// A lookup keeps the cache within its bounds and its URLs distinct, and the
/// URL that was looked up is still answered with the same payload.
pub proof fn lemma_touched_keeps_entries(entries: Seq<Entry>, key: Seq<char>)
    requires
        distinct_keys(entries),
    ensures
        distinct_keys(touched(entries, key)),
        touched(entries, key).len() == entries.len(),
        lookup(touched(entries, key), key) == lookup(entries, key),
{
    if has_key(entries, key) {
        let p = position(entries, key);
        assert(key_at(entries, key, p));
        let after = touched(entries, key);
        assert forall|i: int, j: int| 0 <= i < j < after.len() implies after[i].0 != after[j].0 by {
            let oi = if i == 0 { p } else if i - 1 < p { i - 1 } else { i };
            let oj = if j - 1 < p { j - 1 } else { j };
            assert(after[i] == entries[oi]);
            assert(after[j] == entries[oj]);
            if oi < oj {
                assert(entries[oi].0 != entries[oj].0);
            } else {
                assert(entries[oj].0 != entries[oi].0);
            }
        }
        assert(key_at(after, key, 0));
        lemma_position_is_unique(after, key, 0);
    }
}

/// Storing keeps the cache within its capacity and its URLs distinct.
pub proof fn lemma_stored_keeps_entries(
    entries: Seq<Entry>,
    key: Seq<char>,
    value: Seq<u8>,
    capacity: nat,
)
    requires
        distinct_keys(entries),
        entries.len() <= capacity,
        capacity > 0,
    ensures
        distinct_keys(stored(entries, key, value, capacity)),
        stored(entries, key, value, capacity).len() <= capacity,
{
    let after = stored(entries, key, value, capacity);
    if has_key(entries, key) {
        let p = position(entries, key);
        assert(key_at(entries, key, p));
        assert forall|i: int, j: int| 0 <= i < j < after.len() implies after[i].0 != after[j].0 by {
            let oi = if i == 0 { p } else if i - 1 < p { i - 1 } else { i };
            let oj = if j - 1 < p { j - 1 } else { j };
            assert(after[i].0 == entries[oi].0);
            assert(after[j] == entries[oj]);
            if oi < oj {
                assert(entries[oi].0 != entries[oj].0);
            } else {
                assert(entries[oj].0 != entries[oi].0);
            }
        }
    } else {
        assert forall|i: int, j: int| 0 <= i < j < after.len() implies after[i].0 != after[j].0 by {
            assert(after[j] == entries[j - 1]);
            if i == 0 {
                assert(!key_at(entries, key, j - 1));
            } else {
                assert(after[i] == entries[i - 1]);
                assert(entries[i - 1].0 != entries[j - 1].0);
            }
        }
    }
}

/// What was stored under a URL is what the next lookup of that URL finds.
pub proof fn lemma_lookup_after_store(
    entries: Seq<Entry>,
    key: Seq<char>,
    value: Seq<u8>,
    capacity: nat,
)
    requires
        distinct_keys(entries),
        entries.len() <= capacity,
        capacity > 0,
    ensures
        lookup(stored(entries, key, value, capacity), key) == Some(value),
{
    let after = stored(entries, key, value, capacity);
    lemma_stored_keeps_entries(entries, key, value, capacity);
    assert(after[0] == (key, value));
    assert(key_at(after, key, 0));
    lemma_position_is_unique(after, key, 0);
}

/// `lru::LruCache`, held as an opaque value; `lru_entries` and `lru_capacity`
/// stand for what it holds.
/// A lookup leaves every payload where it was: whatever URL is asked for
/// next finds what it would have found before.
pub proof fn lemma_touched_keeps_lookups(entries: Seq<Entry>, key: Seq<char>, other: Seq<char>)
    requires
        distinct_keys(entries),
    ensures
        lookup(touched(entries, key), other) == lookup(entries, other),
{
    lemma_touched_keeps_entries(entries, key);
    if has_key(entries, key) {
        let p = position(entries, key);
        assert(key_at(entries, key, p));
        let after = touched(entries, key);
        if has_key(entries, other) {
            let q = position(entries, other);
            assert(key_at(entries, other, q));
            let moved = if q == p {
                0
            } else if q < p {
                q + 1
            } else {
                q
            };
            assert(after[moved] == entries[q]);
            assert(key_at(after, other, moved));
            lemma_position_is_unique(after, other, moved);
        } else {
            assert forall|i: int| !key_at(after, other, i) by {
                if 0 <= i < after.len() {
                    let from = if i == 0 {
                        p
                    } else if i - 1 < p {
                        i - 1
                    } else {
                        i
                    };
                    assert(after[i] == entries[from]);
                    assert(!key_at(entries, other, from));
                }
            }
        }
    }
}

/// Storing under one URL leaves the payloads under the other URLs alone,
/// except for the one entry that a full cache gives up.
pub proof fn lemma_stored_keeps_other_entries(
    entries: Seq<Entry>,
    key: Seq<char>,
    value: Seq<u8>,
    capacity: nat,
    other: Seq<char>,
)
    requires
        distinct_keys(entries),
        entries.len() <= capacity,
        capacity > 0,
        other != key,
        has_key(entries, key) || entries.len() < capacity || other != entries.last().0,
    ensures
        lookup(stored(entries, key, value, capacity), other) == lookup(entries, other),
{
    let after = stored(entries, key, value, capacity);
    lemma_stored_keeps_entries(entries, key, value, capacity);
    let p = position(entries, key);
    if has_key(entries, key) {
        assert(key_at(entries, key, p));
    }
    if has_key(entries, other) {
        let q = position(entries, other);
        assert(key_at(entries, other, q));
        let moved = if has_key(entries, key) && q > p {
            q
        } else {
            q + 1
        };
        assert(after[moved] == entries[q]);
        assert(key_at(after, other, moved));
        lemma_position_is_unique(after, other, moved);
    } else {
        assert forall|i: int| !key_at(after, other, i) by {
            if 1 <= i < after.len() {
                let from = if has_key(entries, key) && i - 1 >= p {
                    i
                } else {
                    i - 1
                };
                assert(after[i] == entries[from]);
                assert(!key_at(entries, other, from));
            }
        }
    }
}

/// A full cache that takes in a new URL gives up its least recently used
/// entry: that URL is no longer found.
pub proof fn lemma_full_cache_evicts_least_recent(
    entries: Seq<Entry>,
    key: Seq<char>,
    value: Seq<u8>,
    capacity: nat,
)
    requires
        distinct_keys(entries),
        entries.len() == capacity,
        capacity > 0,
        !has_key(entries, key),
    ensures
        stored(entries, key, value, capacity).len() == capacity,
        lookup(stored(entries, key, value, capacity), entries.last().0) is None,
{
    let after = stored(entries, key, value, capacity);
    let gone = entries.last().0;
    let last = entries.len() - 1;
    assert(key_at(entries, gone, last));
    assert forall|i: int| !key_at(after, gone, i) by {
        if i == 0 {
            assert(!key_at(entries, key, last));
        } else if 1 <= i < after.len() {
            assert(after[i] == entries[i - 1]);
            assert(entries[i - 1].0 != entries[last].0);
        }
    }
}

#[verifier::external_type_specification]
#[verifier::external_body]
#[verifier::reject_recursive_types(K)]
#[verifier::reject_recursive_types(V)]
#[verifier::reject_recursive_types(S)]
pub struct ExLruCache<K, V, S>(LruCache<K, V, S>);

/// `lru::DefaultHasher`, the hasher that an `lru::LruCache` takes where none
/// is given, held as an opaque value.
#[verifier::external_type_specification]
#[verifier::external_body]
pub struct ExDefaultHasher(lru::DefaultHasher);

/// What an `lru::LruCache` from URL to payload holds, most recently used first.
pub uninterp spec fn lru_entries(cache: LruCache<String, Vec<u8>>) -> Seq<Entry>;

/// The capacity that an `lru::LruCache` was made with.
pub uninterp spec fn lru_capacity(cache: LruCache<String, Vec<u8>>) -> nat;

/// `lru::LruCache::new`: the new cache is empty and has the capacity asked for.
/// A capacity of zero is left out, because the crate takes a non-zero number.
#[verifier::external_body]
fn lru_new(capacity: usize) -> (cache: LruCache<String, Vec<u8>>)
    requires
        capacity > 0,
    ensures
        lru_entries(cache) == Seq::<Entry>::empty(),
        lru_capacity(cache) == capacity,
{
    LruCache::new(NonZeroUsize::new(capacity).unwrap())
}

/// `lru::LruCache::get`, with the payload copied out. On a hit the call hands
/// back the payload stored under `key` and makes that entry the most recently
/// used; on a miss it hands back nothing and leaves the cache as it was.
#[verifier::external_body]
fn lru_get(cache: &mut LruCache<String, Vec<u8>>, key: &str) -> (found: Option<Vec<u8>>)
    ensures
        lru_capacity(*final(cache)) == lru_capacity(*old(cache)),
        ({
            let before = lru_entries(*old(cache));
            let after = lru_entries(*final(cache));
            match found {
                Some(value) => exists|i: int|
                    key_at(before, key@, i) && value@ == before[i].1 && after == promoted(
                        before,
                        i,
                    ),
                None => !has_key(before, key@) && after == before,
            }
        }),
{
    cache.get(key).cloned()
}

/// `lru::LruCache::put`. The new entry becomes the most recently used. It takes
/// the place of an entry with the same URL; where there is none, a cache filled
/// to its capacity first drops its least recently used entry. Of a cache that
/// holds more than its capacity, which the crate never makes, nothing is said.
#[verifier::external_body]
fn lru_put(cache: &mut LruCache<String, Vec<u8>>, key: String, value: Vec<u8>)
    ensures
        lru_capacity(*final(cache)) == lru_capacity(*old(cache)),
        ({
            let before = lru_entries(*old(cache));
            let after = lru_entries(*final(cache));
            let entry = (key@, value@);
            if has_key(before, key@) {
                exists|i: int| key_at(before, key@, i) && after == seq![entry] + before.remove(i)
            } else if before.len() < lru_capacity(*old(cache)) {
                after == seq![entry] + before
            } else if before.len() == lru_capacity(*old(cache)) {
                after == seq![entry] + before.drop_last()
            } else {
                true
            }
        }),
{
    cache.put(key, value);
}

/// A cache of decompressed archives, keyed by archive URL, that keeps the
/// `CACHE_CAPACITY` most recently used entries.
pub struct ArchiveCache {
    store: LruCache<String, Vec<u8>>,
}

impl View for ArchiveCache {
    type V = Seq<Entry>;

    /// The entries, most recently used first.
    closed spec fn view(&self) -> Seq<Entry> {
        lru_entries(self.store)
    }
}

impl ArchiveCache {
    /// What every cache made by [`ArchiveCache::new`] keeps: the capacity it
    /// was made with, no more entries than that, and no URL twice.
    pub closed spec fn wf(&self) -> bool {
        &&& lru_capacity(self.store) == CACHE_CAPACITY
        &&& lru_entries(self.store).len() <= CACHE_CAPACITY
        &&& distinct_keys(lru_entries(self.store))
    }

    /// A well-formed cache holds at most `CACHE_CAPACITY` entries, with
    /// distinct URLs.
    pub proof fn lemma_wf_bounds(&self)
        requires
            self.wf(),
        ensures
            self@.len() <= CACHE_CAPACITY,
            distinct_keys(self@),
    {
    }

    /// An empty cache.
    pub fn new() -> (cache: Self)
        ensures
            cache.wf(),
            cache@ == Seq::<Entry>::empty(),
    {
        ArchiveCache { store: lru_new(CACHE_CAPACITY) }
    }

    /// Looks `key` up. A hit hands back a copy of the payload and marks the
    /// entry as the most recently used.
    pub fn get(&mut self, key: &str) -> (found: Option<Vec<u8>>)
        requires
            old(self).wf(),
        ensures
            final(self).wf(),
            match lookup(old(self)@, key@) {
                Some(payload) => found matches Some(value) && value@ == payload,
                None => found is None,
            },
            final(self)@ == touched(old(self)@, key@),
    {
        let ghost before = lru_entries(self.store);
        let found = lru_get(&mut self.store, key);
        proof {
            if found is Some {
                let i = choose|i: int|
                    key_at(before, key@, i) && found->Some_0@ == before[i].1 && lru_entries(
                        self.store,
                    ) == promoted(before, i);
                lemma_position_is_unique(before, key@, i);
            }
            lemma_touched_keeps_entries(before, key@);
        }
        found
    }

    /// Stores `bytes` under `key`, in place of what was stored there before. A
    /// full cache gives up its least recently used entry for a new URL.
    pub fn put(&mut self, key: &str, bytes: Vec<u8>)
        requires
            old(self).wf(),
        ensures
            final(self).wf(),
            final(self)@ == stored(old(self)@, key@, bytes@, CACHE_CAPACITY as nat),
    {
        let ghost before = lru_entries(self.store);
        let owned = key.to_owned();
        lru_put(&mut self.store, owned, bytes);
        proof {
            if has_key(before, key@) {
                let i = choose|i: int|
                    key_at(before, key@, i) && lru_entries(self.store) == seq![(key@, bytes@)]
                        + before.remove(i);
                lemma_position_is_unique(before, key@, i);
            }
            lemma_stored_keeps_entries(before, key@, bytes@, CACHE_CAPACITY as nat);
        }
    }
}

} // verus!
