//! A bounded cache that forgets what was used least recently.
//!
//! The cache itself is `lru::LruCache`. What it holds is described here by
//! its entries in order of use, most recent first, and by the capacity it was
//! made with.

use lru::LruCache;
use vstd::prelude::*;

use crate::metadata::{Metadata, MetadataView};
use crate::views::found_view;

verus! {

/// Mathematical value of a [`Cached`].
pub enum CachedView {
    Metadata { inserted: u64, metadata: MetadataView },
    Firmware(Seq<u8>),
}

/// What a store keeps in a cache.
#[derive(Debug, Clone, PartialEq, Eq)]
pub enum Cached {
    /// The description of an image, and when it was stored.
    Metadata { inserted: u64, metadata: Metadata },
    /// The bytes of an image.
    Firmware(Vec<u8>),
}

impl View for Cached {
    type V = CachedView;

    open spec fn view(&self) -> CachedView {
        match self {
            Cached::Metadata { inserted, metadata } => CachedView::Metadata {
                inserted: *inserted,
                metadata: metadata@,
            },
            Cached::Firmware(bytes) => CachedView::Firmware(bytes@),
        }
    }
}

/// A cache from texts to [`Cached`] values.
pub type Cache = LruCache<String, Cached>;

/// Declares `lru::LruCache`. Nothing is said of what is inside a cache: that
/// is what [`entries`] and [`capacity`] stand for.
#[verifier::external_type_specification]
#[verifier::external_body]
#[verifier::reject_recursive_types(K)]
#[verifier::reject_recursive_types(V)]
#[verifier::reject_recursive_types(S)]
pub struct ExLruCache<K, V, S>(LruCache<K, V, S>);

/// Declares `lru::DefaultHasher`, the hasher of a cache that is made with
/// `LruCache::new`. Nothing is said of it.
#[verifier::external_type_specification]
#[verifier::external_body]
pub struct ExDefaultHasher(lru::DefaultHasher);

/// The entries of a cache, the most recently used first.
pub uninterp spec fn entries(cache: LruCache<String, Cached>) -> Seq<(Seq<char>, CachedView)>;

/// The number of entries that a cache was made to hold.
pub uninterp spec fn capacity(cache: LruCache<String, Cached>) -> nat;

/// The largest capacity that a cache can be made with.
pub const MAX_CAPACITY: usize = 0x100_0000;

/// The place of the first entry with key `key` among the first `n` entries,
/// or `n` where there is none.
pub open spec fn place(entries: Seq<(Seq<char>, CachedView)>, key: Seq<char>, n: int) -> int
    decreases n,
{
    if n <= 0 {
        0
    } else {
        let before = place(entries, key, n - 1);
        if before < n - 1 {
            before
        } else if entries[n - 1].0 == key {
            n - 1
        } else {
            n
        }
    }
}

/// The value stored under `key`, if there is one.
pub open spec fn lookup(entries: Seq<(Seq<char>, CachedView)>, key: Seq<char>) -> Option<
    CachedView,
> {
    let at = place(entries, key, entries.len() as int);
    if at < entries.len() {
        Some(entries[at].1)
    } else {
        None
    }
}

/// The entries after the one under `key`, if there is one, has been used: it
/// moves to the front.
pub open spec fn touched(entries: Seq<(Seq<char>, CachedView)>, key: Seq<char>) -> Seq<
    (Seq<char>, CachedView),
> {
    let at = place(entries, key, entries.len() as int);
    if at < entries.len() {
        seq![entries[at]] + entries.remove(at)
    } else {
        entries
    }
}

/// The entries after `value` has been stored under `key` in a cache of
/// capacity `capacity`: the new entry comes first; it replaces the one with the
/// same key, or else, where the cache is full, the one used least recently.
/// A cache of capacity 0 stores nothing.
pub open spec fn stored(
    entries: Seq<(Seq<char>, CachedView)>,
    capacity: nat,
    key: Seq<char>,
    value: CachedView,
) -> Seq<(Seq<char>, CachedView)> {
    let at = place(entries, key, entries.len() as int);
    if at < entries.len() {
        seq![(key, value)] + entries.remove(at)
    } else if capacity == 0 {
        entries
    } else if entries.len() == capacity {
        seq![(key, value)] + entries.drop_last()
    } else {
        seq![(key, value)] + entries
    }
}

/// Calls `LruCache::new`: an empty cache that holds at most `cap` entries.
#[verifier::external_body]
pub(crate) fn cache_new(cap: usize) -> (cache: LruCache<String, Cached>)
    requires
        cap <= MAX_CAPACITY,
    ensures
        entries(cache) == Seq::<(Seq<char>, CachedView)>::empty(),
        capacity(cache) == cap,
{
    LruCache::new(cap)
}

/// Calls `LruCache::get` and copies what it finds: the value under `key`,
/// whose entry becomes the most recently used; a cache without that key is
/// left as it is.
#[verifier::external_body]
pub(crate) fn cache_get(cache: &mut LruCache<String, Cached>, key: &String) -> (found: Option<
    Cached,
>)
    ensures
        found_view(found) == lookup(entries(*old(cache)), key@),
        entries(*final(cache)) == touched(entries(*old(cache)), key@),
        capacity(*final(cache)) == capacity(*old(cache)),
{
    cache.get(key).cloned()
}

/// Calls `LruCache::put`: stores `value` under `key` as the most recently
/// used entry, in place of the entry with that key or, in a full cache, of the
/// least recently used one.
#[verifier::external_body]
pub(crate) fn cache_put(cache: &mut LruCache<String, Cached>, key: String, value: Cached)
    ensures
        entries(*final(cache)) == stored(
            entries(*old(cache)),
            capacity(*old(cache)),
            key@,
            value@,
        ),
        capacity(*final(cache)) == capacity(*old(cache)),
{
    cache.put(key, value);
}

proof fn lemma_place(entries: Seq<(Seq<char>, CachedView)>, key: Seq<char>, n: int)
    requires
        0 <= n <= entries.len(),
    ensures
        0 <= place(entries, key, n) <= n,
        place(entries, key, n) < n ==> entries[place(entries, key, n)].0 == key,
        forall|j: int| 0 <= j < place(entries, key, n) ==> (#[trigger] entries[j]).0 != key,
    decreases n,
{
    if n > 0 {
        lemma_place(entries, key, n - 1);
    }
}

/// Whether no two of `entries` have the same key.
pub open spec fn distinct_keys(entries: Seq<(Seq<char>, CachedView)>) -> bool {
    forall|i: int, j: int|
        0 <= i < j < entries.len() ==> (#[trigger] entries[i]).0 != (#[trigger] entries[j]).0
}

/// A cache never grows past its capacity, and never holds a key twice:
/// storing keeps both, where they held before.
pub proof fn lemma_stored_keeps_cache_sound(
    entries: Seq<(Seq<char>, CachedView)>,
    capacity: nat,
    key: Seq<char>,
    value: CachedView,
)
    requires
        entries.len() <= capacity,
        distinct_keys(entries),
    ensures
        stored(entries, capacity, key, value).len() <= capacity,
        distinct_keys(stored(entries, capacity, key, value)),
{
    let n = entries.len() as int;
    let at = place(entries, key, n);
    lemma_place(entries, key, n);
    let after = stored(entries, capacity, key, value);
    assert forall|i: int, j: int| 0 <= i < j < after.len() implies (#[trigger] after[i]).0 != (
    #[trigger] after[j]).0 by {
        if at < n {
            let rest = entries.remove(at);
            let a = if j - 1 < at {
                j - 1
            } else {
                j
            };
            assert(after[j] == rest[j - 1]);
            assert(rest[j - 1] == entries[a]);
            if i == 0 {
                assert(after[0].0 == key);
                assert(entries[at].0 == key);
                assert(a != at);
                if a < at {
                    assert(entries[a].0 != key);
                } else {
                    assert(entries[at].0 != entries[a].0);
                }
            } else {
                let b = if i - 1 < at {
                    i - 1
                } else {
                    i
                };
                assert(after[i] == rest[i - 1]);
                assert(rest[i - 1] == entries[b]);
                assert(entries[b].0 != entries[a].0);
            }
        } else if capacity == 0 {
        } else {
            assert(after[j] == entries[j - 1]);
            if i == 0 {
                assert(entries[j - 1].0 != key);
            } else {
                assert(after[i] == entries[i - 1]);
            }
        }
    }
}

/// Using an entry changes neither how many entries a cache holds nor that
/// no key is held twice.
pub proof fn lemma_touched_keeps_cache_sound(
    entries: Seq<(Seq<char>, CachedView)>,
    key: Seq<char>,
)
    requires
        distinct_keys(entries),
    ensures
        touched(entries, key).len() == entries.len(),
        distinct_keys(touched(entries, key)),
{
    let n = entries.len() as int;
    let at = place(entries, key, n);
    lemma_place(entries, key, n);
    let after = touched(entries, key);
    if at < n {
        let rest = entries.remove(at);
        assert forall|i: int, j: int| 0 <= i < j < after.len() implies (#[trigger] after[i]).0
            != (#[trigger] after[j]).0 by {
            let a = if j - 1 < at {
                j - 1
            } else {
                j
            };
            assert(after[j] == rest[j - 1]);
            assert(rest[j - 1] == entries[a]);
            if i == 0 {
                assert(after[0] == entries[at]);
                if a < at {
                    assert(entries[a].0 != entries[at].0);
                } else {
                    assert(entries[at].0 != entries[a].0);
                }
            } else {
                let b = if i - 1 < at {
                    i - 1
                } else {
                    i
                };
                assert(after[i] == rest[i - 1]);
                assert(rest[i - 1] == entries[b]);
                assert(entries[b].0 != entries[a].0);
            }
        }
    }
}

/// What was stored last is what is found, in a cache that stores anything:
/// the entry stands first, and looking it up gives its value.
pub proof fn lemma_stored_is_found(
    entries: Seq<(Seq<char>, CachedView)>,
    capacity: nat,
    key: Seq<char>,
    value: CachedView,
)
    requires
        capacity > 0,
    ensures
        stored(entries, capacity, key, value)[0] == (key, value),
        lookup(stored(entries, capacity, key, value), key) == Some(value),
{
    let after = stored(entries, capacity, key, value);
    lemma_place(after, key, after.len() as int);
    assert(after[0].0 == key);
}

/// In a full cache, storing under a new key drops the entry that was used
/// least recently and no other.
pub proof fn lemma_stored_drops_least_recent(
    entries: Seq<(Seq<char>, CachedView)>,
    capacity: nat,
    key: Seq<char>,
    value: CachedView,
    other: Seq<char>,
)
    requires
        capacity > 0,
        entries.len() == capacity,
        distinct_keys(entries),
        lookup(entries, key) is None,
        other != key,
    ensures
        lookup(stored(entries, capacity, key, value), other) == if other == entries.last().0 {
            None
        } else {
            lookup(entries, other)
        },
{
    let n = entries.len() as int;
    let after = stored(entries, capacity, key, value);
    lemma_place(entries, key, n);
    lemma_place(entries, other, n);
    lemma_place(after, other, after.len() as int);
    let p = place(entries, other, n);
    let q = place(after, other, after.len() as int);
    assert(after =~= seq![(key, value)] + entries.drop_last());
    assert(forall|j: int| 1 <= j < after.len() ==> after[j] == entries[j - 1]);
    if q < after.len() {
        assert(q >= 1);
        assert(entries[q - 1].0 == other);
        if p < q - 1 {
            assert(after[p + 1].0 == other);
        } else if p > q - 1 {
            assert(entries[q - 1].0 != other);
        }
        assert(q - 1 != n - 1);
    } else {
        if p < n - 1 {
            assert(after[p + 1].0 == other);
        }
    }
}

} // verus!
