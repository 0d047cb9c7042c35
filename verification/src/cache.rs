use vstd::prelude::*;

verus! {

use vstd::hash_map::StringHashMap;

/// Memoization layer over service identifiers: a mapping from a service
/// identifier to the last successful payload returned for it. Entries never
/// expire and are never evicted; `store` inserts or overwrites, `get` is a
/// read-only lookup. The shell shares one instance across all concurrent
/// requests (behind its own short-lived lock); the operations here cannot
/// fail.
pub struct Cache {
    entries: StringHashMap<String>,
}

impl View for Cache {
    type V = Map<Seq<char>, Seq<char>>;

    closed spec fn view(&self) -> Map<Seq<char>, Seq<char>> {
        Map::new(
            |k: Seq<char>| self.entries@.contains_key(k),
            |k: Seq<char>| self.entries@[k]@,
        )
    }
}

impl Cache {
    /// An empty cache; built once at startup and shared for the process
    /// lifetime.
    pub fn new() -> (cache: Cache)
        ensures
            cache@ == Map::<Seq<char>, Seq<char>>::empty(),
    {
        let cache = Cache { entries: StringHashMap::new() };
        proof {
            assert(cache@ =~= Map::<Seq<char>, Seq<char>>::empty());
        }
        cache
    }

    /// Read-only lookup: the stored payload for `key`, if one was stored.
    pub fn get(&self, key: &str) -> (result: Option<String>)
        ensures
            match result {
                Some(payload) => self@.contains_key(key@) && payload@ == self@[key@],
                None => !self@.contains_key(key@),
            },
    {
        match self.entries.get(key) {
            Some(payload) => Some(payload.clone()),
            None => None,
        }
    }

    /// Inserts or overwrites the entry for `key`.
    pub fn store(&mut self, key: String, value: String)
        ensures
            final(self)@ == old(self)@.insert(key@, value@),
    {
        let ghost key_view = key@;
        let ghost value_view = value@;
        self.entries.insert(key, value);
        proof {
            assert(self@ =~= old(self)@.insert(key_view, value_view));
        }
    }
}

/// Storing a payload and reading the same identifier afterwards returns
/// exactly that payload, whichever caller performs the read: the cache's
/// whole state is its mapping, so every later lookup observes the store.
pub proof fn lemma_store_then_get(
    cache: Map<Seq<char>, Seq<char>>,
    id: Seq<char>,
    payload: Seq<char>,
)
    ensures
        cache.insert(id, payload).contains_key(id),
        cache.insert(id, payload)[id] == payload,
{
}

/// The cache state after a run of racing stores for one identifier, in the
/// order in which the stores completed.
pub open spec fn apply_racing_stores(
    cache: Map<Seq<char>, Seq<char>>,
    id: Seq<char>,
    payloads: Seq<Seq<char>>,
) -> Map<Seq<char>, Seq<char>>
    decreases payloads.len(),
{
    if payloads.len() == 0 {
        cache
    } else {
        apply_racing_stores(cache, id, payloads.drop_last()).insert(id, payloads.last())
    }
}

/// Racing cache misses for one identifier: however many concurrent
/// requests store their own payload for it, the cache ends up with exactly
/// one value for the identifier — the payload of the store that completed
/// last, which is one of the racing payloads.
pub proof fn lemma_racing_stores_single_winner(
    cache: Map<Seq<char>, Seq<char>>,
    id: Seq<char>,
    payloads: Seq<Seq<char>>,
)
    requires
        payloads.len() > 0,
    ensures
        apply_racing_stores(cache, id, payloads).contains_key(id),
        apply_racing_stores(cache, id, payloads)[id] == payloads.last(),
        payloads.contains(apply_racing_stores(cache, id, payloads)[id]),
{
    assert(payloads[payloads.len() - 1] == payloads.last());
}

} // verus!
