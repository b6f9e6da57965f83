use vstd::prelude::*;

verus! {

/// A cached translation and when it was stored.
pub type Slot = (String, u64);

/// The L1 store: an `lru::LruCache` from digest keys to cached
/// translations, seen by the proofs only through the names below.
#[verifier::external_body]
pub struct Store {
    lru: lru::LruCache<[u8; 32], Slot>,
}

/// Digest to (translation, insertion time).
pub type Contents = Map<Seq<u8>, (Seq<char>, u64)>;

pub open spec fn slot_view(v: Slot) -> (Seq<char>, u64) {
    (v.0@, v.1)
}

/// What the store holds.
pub uninterp spec fn store_contents(c: Store) -> Contents;

/// The capacity the store was created with.
pub uninterp spec fn store_capacity(c: Store) -> nat;

/// The keys held, from least to most recently used.
pub uninterp spec fn store_recency(c: Store) -> Seq<Seq<u8>>;

/// The recency list names each held key once, and nothing else; there are
/// at most `capacity` entries.
pub open spec fn store_consistent(contents: Contents, recency: Seq<Seq<u8>>, cap: nat) -> bool {
    &&& recency.no_duplicates()
    &&& recency.len() == contents.len()
    &&& contents.dom().finite()
    &&& forall|k: Seq<u8>| #[trigger] contents.contains_key(k) <==> recency.contains(k)
    &&& contents.len() <= cap
}

/// `k` moved to the most recently used end.
pub open spec fn touched(recency: Seq<Seq<u8>>, k: Seq<u8>) -> Seq<Seq<u8>> {
    recency.filter(|x: Seq<u8>| x != k).push(k)
}

/// The contents after putting `k -> v`: an existing key is overwritten; a
/// new key is added, and when the store is full the least recently used
/// entry, and only it, is evicted.
pub open spec fn put_contents(contents: Contents, recency: Seq<Seq<u8>>, cap: nat, k: Seq<u8>, v: (
    Seq<char>,
    u64,
)) -> Contents {
    if contents.contains_key(k) || contents.len() < cap {
        contents.insert(k, v)
    } else {
        contents.remove(recency[0]).insert(k, v)
    }
}

/// The recency order after putting `k`.
pub open spec fn put_recency(contents: Contents, recency: Seq<Seq<u8>>, cap: nat, k: Seq<u8>) -> Seq<
    Seq<u8>,
> {
    if contents.contains_key(k) {
        touched(recency, k)
    } else if contents.len() < cap {
        recency.push(k)
    } else {
        recency.drop_first().push(k)
    }
}

/// Relies on `lru::LruCache::new`: an empty cache holding at most `cap`
/// entries.
#[verifier::external_body]
fn store_new(cap: usize) -> (r: Store)
    requires
        cap > 0,
    ensures
        store_contents(r) == Contents::empty(),
        store_recency(r) == Seq::<Seq<u8>>::empty(),
        store_capacity(r) == cap,
{
    Store { lru: lru::LruCache::new(std::num::NonZeroUsize::new(cap).unwrap()) }
}

/// Relies on `lru::LruCache::put`: an existing key is updated and becomes
/// the most recent; a new key is added as the most recent, and when the
/// cache is full the least recently used entry is evicted first.
#[verifier::external_body]
fn store_put(c: &mut Store, k: [u8; 32], v: Slot)
    requires
        store_consistent(store_contents(*old(c)), store_recency(*old(c)), store_capacity(*old(c))),
        store_capacity(*old(c)) > 0,
    ensures
        store_capacity(*final(c)) == store_capacity(*old(c)),
        store_contents(*final(c)) == put_contents(
            store_contents(*old(c)),
            store_recency(*old(c)),
            store_capacity(*old(c)),
            k@,
            slot_view(v),
        ),
        store_recency(*final(c)) == put_recency(
            store_contents(*old(c)),
            store_recency(*old(c)),
            store_capacity(*old(c)),
            k@,
        ),
        store_consistent(store_contents(*final(c)), store_recency(*final(c)), store_capacity(*final(c))),
{
    c.lru.put(k, v);
}

/// Relies on `lru::LruCache::get`: the value under `k`, if any, which
/// becomes the most recently used.
#[verifier::external_body]
fn store_get(c: &mut Store, k: &[u8; 32]) -> (r: Option<Slot>)
    requires
        store_consistent(store_contents(*old(c)), store_recency(*old(c)), store_capacity(*old(c))),
    ensures
        store_contents(*final(c)) == store_contents(*old(c)),
        store_capacity(*final(c)) == store_capacity(*old(c)),
        match r {
            Some(v) => store_contents(*old(c)).contains_key(k@) && store_contents(*old(c))[k@]
                == slot_view(v) && store_recency(*final(c)) == touched(store_recency(*old(c)), k@),
            None => !store_contents(*old(c)).contains_key(k@) && store_recency(*final(c))
                == store_recency(*old(c)),
        },
        store_consistent(store_contents(*final(c)), store_recency(*final(c)), store_capacity(*final(c))),
{
    c.lru.get(k).cloned()
}

/// Relies on `lru::LruCache::pop`: removes the entry under `k`.
#[verifier::external_body]
fn store_pop(c: &mut Store, k: &[u8; 32])
    requires
        store_consistent(store_contents(*old(c)), store_recency(*old(c)), store_capacity(*old(c))),
    ensures
        store_contents(*final(c)) == store_contents(*old(c)).remove(k@),
        store_recency(*final(c)) == store_recency(*old(c)).filter(|x: Seq<u8>| x != k@),
        store_capacity(*final(c)) == store_capacity(*old(c)),
        store_consistent(store_contents(*final(c)), store_recency(*final(c)), store_capacity(*final(c))),
{
    c.lru.pop(k);
}

/// Relies on `lru::LruCache::len`: the number of entries.
#[verifier::external_body]
fn store_len(c: &Store) -> (r: usize)
    ensures
        r == store_contents(*c).len(),
{
    c.lru.len()
}

/// Entries of the L1 cache.
pub const L1_CAPACITY: usize = 512;

/// Lifetime of an L1 entry: ten minutes.
pub const L1_TTL_MS: u64 = 600_000;

/// An entry stored at `inserted` is still fresh at `now`.
pub open spec fn fresh(inserted: u64, now: u64, ttl: u64) -> bool {
    now < inserted || now - inserted < ttl
}

/// In-memory LRU translation cache with a time to live.
pub struct TranslationCache {
    inner: Store,
    ttl_ms: u64,
}

impl TranslationCache {
    pub closed spec fn entries(&self) -> Contents {
        store_contents(self.inner)
    }

    pub closed spec fn spec_capacity(&self) -> nat {
        store_capacity(self.inner)
    }

    pub closed spec fn spec_ttl(&self) -> u64 {
        self.ttl_ms
    }

    /// The capacity is never exceeded.
    /// The keys held, least recently used first.
    pub closed spec fn recency(&self) -> Seq<Seq<u8>> {
        store_recency(self.inner)
    }

    /// The capacity is never exceeded, and the recency order lists exactly
    /// the keys held.
    pub closed spec fn wf(&self) -> bool {
        &&& store_consistent(store_contents(self.inner), store_recency(self.inner), store_capacity(self.inner))
        &&& store_capacity(self.inner) > 0
    }

    /// What a lookup of `key` at `now` returns.
    pub open spec fn lookup(&self, key: Seq<u8>, now: u64) -> Option<Seq<char>> {
        if self.entries().contains_key(key) && fresh(self.entries()[key].1, now, self.spec_ttl()) {
            Some(self.entries()[key].0)
        } else {
            None
        }
    }

    pub fn new(capacity: usize, ttl_ms: u64) -> (r: Self)
        requires
            capacity > 0,
        ensures
            r.wf(),
            r.entries() == Contents::empty(),
            r.spec_capacity() == capacity,
            r.spec_ttl() == ttl_ms,
    {
        TranslationCache { inner: store_new(capacity), ttl_ms }
    }

    /// The cached translation under `key` if it is still fresh at `now_ms`;
    /// a stale entry is removed.
    pub fn get(&mut self, key: &[u8; 32], now_ms: u64) -> (r: Option<String>)
        requires
            old(self).wf(),
        ensures
            final(self).wf(),
            match r {
                Some(s) => old(self).lookup(key@, now_ms) == Some(s@),
                None => old(self).lookup(key@, now_ms) is None,
            },
            final(self).spec_capacity() == old(self).spec_capacity(),
            final(self).spec_ttl() == old(self).spec_ttl(),
            old(self).lookup(key@, now_ms) is Some ==> final(self).entries() == old(self).entries(),
            old(self).lookup(key@, now_ms) is None ==> final(self).entries() == old(self).entries().remove(
                key@,
            ),
    {
        match store_get(&mut self.inner, key) {
            Some(slot) => {
                if now_ms < slot.1 || now_ms - slot.1 < self.ttl_ms {
                    Some(slot.0)
                } else {
                    store_pop(&mut self.inner, key);
                    None
                }
            },
            None => {
                proof {
                    assert(old(self).entries().remove(key@) =~= old(self).entries());
                }
                None
            },
        }
    }

    /// Stores `translated_text` under `key` at `now_ms`.
    pub fn insert(&mut self, key: [u8; 32], translated_text: String, now_ms: u64)
        requires
            old(self).wf(),
        ensures
            final(self).wf(),
            final(self).entries().contains_key(key@),
            final(self).entries()[key@] == (translated_text@, now_ms),
            final(self).spec_capacity() == old(self).spec_capacity(),
            final(self).spec_ttl() == old(self).spec_ttl(),
            final(self).entries() == put_contents(
                old(self).entries(),
                old(self).recency(),
                old(self).spec_capacity(),
                key@,
                (translated_text@, now_ms),
            ),
            final(self).recency() == put_recency(
                old(self).entries(),
                old(self).recency(),
                old(self).spec_capacity(),
                key@,
            ),
    {
        store_put(&mut self.inner, key, (translated_text, now_ms));
    }

    /// Number of entries.
    pub fn len(&self) -> (r: usize)
        requires
            self.wf(),
        ensures
            r == self.entries().len(),
            r <= self.spec_capacity(),
    {
        store_len(&self.inner)
    }
}

/// Cache law: right after `insert(k, v)` at `t0`, a lookup of `k` at `t1`
/// returns `v` while `t1 - t0` is below the time to live and nothing once
/// it is reached; and the capacity is never exceeded.
pub proof fn lemma_insert_then_get(c: &TranslationCache, k: Seq<u8>, v: Seq<char>, t0: u64, t1: u64)
    requires
        c.wf(),
        c.entries().contains_key(k),
        c.entries()[k] == (v, t0),
    ensures
        t0 <= t1 && t1 - t0 < c.spec_ttl() ==> c.lookup(k, t1) == Some(v),
        t0 <= t1 && t1 - t0 >= c.spec_ttl() ==> c.lookup(k, t1) is None,
        c.entries().len() <= c.spec_capacity(),
{
}

} // verus!
