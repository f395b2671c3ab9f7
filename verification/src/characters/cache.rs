//! The cache layer: a key-value store whose entries expire a fixed time
//! after they were written. It accelerates reads and is never the source
//! of truth. `CacheLayer` keeps the entries in memory.

use vstd::prelude::*;

verus! {

/// Lifetime of a cache entry in seconds (one hour).
pub const CACHE_TTL_SECS: i64 = 3600;

/// What a cache lookup came back with.
pub enum CacheRead<T> {
    /// The cache could not be reached.
    Unavailable,
    /// No live entry under the key.
    Miss,
    /// The live entry under the key.
    Hit(T),
}

/// One cache entry as a mathematical value: what was stored and the
/// second from which it counts as absent.
pub struct Slot<V> {
    pub value: V,
    pub expires_at: int,
}

/// The entry under `key` that is still alive at `now`, if there is one.
pub open spec fn live<V>(m: Map<Seq<char>, Slot<V>>, key: Seq<char>, now: int) -> Option<V> {
    if m.dom().contains(key) && now < m[key].expires_at {
        Some(m[key].value)
    } else {
        None
    }
}

/// The second at which an entry written at `now` with `ttl` expires,
/// held within 64 bits.
pub open spec fn expiry(now: int, ttl: int) -> int {
    if now + ttl > i64::MAX {
        i64::MAX as int
    } else if now + ttl < i64::MIN {
        i64::MIN as int
    } else {
        now + ttl
    }
}

struct CacheEntry<V> {
    key: String,
    value: V,
    expires_at: i64,
}

spec fn slot_of<V>(e: CacheEntry<V>) -> Slot<V> {
    Slot { value: e.value, expires_at: e.expires_at as int }
}

/// The map that a list of entries stands for; a later entry would
/// replace an earlier one with the same key.
spec fn entries_map<V>(s: Seq<CacheEntry<V>>) -> Map<Seq<char>, Slot<V>>
    decreases s.len(),
{
    if s.len() == 0 {
        Map::empty()
    } else {
        entries_map(s.drop_last()).insert(s.last().key@, slot_of(s.last()))
    }
}

spec fn distinct_keys<V>(s: Seq<CacheEntry<V>>) -> bool {
    forall|i: int, j: int| 0 <= i < j < s.len() ==> (#[trigger] s[i]).key@ != (#[trigger] s[j]).key@
}

proof fn lemma_distinct_prefix<V>(s: Seq<CacheEntry<V>>)
    requires
        distinct_keys(s),
        s.len() > 0,
    ensures
        distinct_keys(s.drop_last()),
{
    let d = s.drop_last();
    assert forall|i: int, j: int| 0 <= i < j < d.len() implies (#[trigger] d[i]).key@ != (
    #[trigger] d[j]).key@ by {
        assert(d[i] == s[i] && d[j] == s[j]);
    }
}

proof fn lemma_absent<V>(s: Seq<CacheEntry<V>>, k: Seq<char>)
    requires
        forall|i: int| 0 <= i < s.len() ==> (#[trigger] s[i]).key@ != k,
    ensures
        !entries_map(s).dom().contains(k),
    decreases s.len(),
{
    if s.len() > 0 {
        let d = s.drop_last();
        assert forall|i: int| 0 <= i < d.len() implies (#[trigger] d[i]).key@ != k by {
            assert(d[i] == s[i]);
        }
        lemma_absent(d, k);
        assert(s.last() == s[s.len() - 1]);
    }
}

proof fn lemma_present<V>(s: Seq<CacheEntry<V>>, i: int)
    requires
        distinct_keys(s),
        0 <= i < s.len(),
    ensures
        entries_map(s).dom().contains(s[i].key@),
        entries_map(s)[s[i].key@] == slot_of(s[i]),
    decreases s.len(),
{
    let n = s.len() as int;
    assert(s.last() == s[n - 1]);
    if i < n - 1 {
        let d = s.drop_last();
        lemma_distinct_prefix(s);
        assert(d[i] == s[i]);
        lemma_present(d, i);
        assert(s[i].key@ != s[n - 1].key@);
    }
}

proof fn lemma_replace<V>(s: Seq<CacheEntry<V>>, i: int, e: CacheEntry<V>)
    requires
        distinct_keys(s),
        0 <= i < s.len(),
        e.key@ == s[i].key@,
    ensures
        distinct_keys(s.update(i, e)),
        entries_map(s.update(i, e)) == entries_map(s).insert(e.key@, slot_of(e)),
    decreases s.len(),
{
    let n = s.len() as int;
    let u = s.update(i, e);
    assert forall|a: int, b: int| 0 <= a < b < u.len() implies (#[trigger] u[a]).key@ != (
    #[trigger] u[b]).key@ by {
        assert(u[a].key@ == s[a].key@ && u[b].key@ == s[b].key@);
    }
    assert(s.last() == s[n - 1]);
    assert(u.last() == u[n - 1]);
    if i == n - 1 {
        assert(u.drop_last() =~= s.drop_last());
        assert(entries_map(u) =~= entries_map(s).insert(e.key@, slot_of(e)));
    } else {
        let d = s.drop_last();
        lemma_distinct_prefix(s);
        assert(d[i] == s[i]);
        lemma_replace(d, i, e);
        assert(u.drop_last() =~= d.update(i, e));
        assert(s[i].key@ != s[n - 1].key@);
        assert(entries_map(u) =~= entries_map(s).insert(e.key@, slot_of(e)));
    }
}

proof fn lemma_append<V>(s: Seq<CacheEntry<V>>, e: CacheEntry<V>)
    requires
        distinct_keys(s),
        forall|i: int| 0 <= i < s.len() ==> (#[trigger] s[i]).key@ != e.key@,
    ensures
        distinct_keys(s.push(e)),
        entries_map(s.push(e)) == entries_map(s).insert(e.key@, slot_of(e)),
{
    let u = s.push(e);
    assert(u.drop_last() =~= s);
    assert forall|a: int, b: int| 0 <= a < b < u.len() implies (#[trigger] u[a]).key@ != (
    #[trigger] u[b]).key@ by {
        assert(u[a] == s[a]);
        if b < s.len() {
            assert(u[b] == s[b]);
        }
    }
}

/// An in-memory cache with per-key expiry.
pub struct CacheLayer<V> {
    entries: Vec<CacheEntry<V>>,
    available: bool,
    writable: bool,
}

impl<V> CacheLayer<V> {
    /// The entries by key.
    pub closed spec fn contents(&self) -> Map<Seq<char>, Slot<V>> {
        entries_map(self.entries@)
    }

    /// The invariant of the cache: no key is held twice.
    pub closed spec fn wf(&self) -> bool {
        distinct_keys(self.entries@)
    }

    /// Whether the cache can be reached.
    pub closed spec fn is_available(&self) -> bool {
        self.available
    }

    /// Whether the cache, when it can be reached, takes what it is
    /// offered.
    pub closed spec fn is_writable(&self) -> bool {
        self.writable
    }

    /// An empty cache that can be reached and takes what it is offered.
    pub fn new() -> (r: CacheLayer<V>)
        ensures
            r.contents() == Map::<Seq<char>, Slot<V>>::empty(),
            r.wf(),
            r.is_available(),
            r.is_writable(),
    {
        let r = CacheLayer { entries: Vec::new(), available: true, writable: true };
        assert(r.contents() =~= Map::<Seq<char>, Slot<V>>::empty());
        r
    }

    /// Cuts the cache off or brings it back; the entries stay.
    pub fn set_available(&mut self, available: bool)
        ensures
            final(self).contents() == old(self).contents(),
            final(self).wf() == old(self).wf(),
            final(self).is_available() == available,
            final(self).is_writable() == old(self).is_writable(),
    {
        self.available = available;
    }

    /// Makes the cache refuse what it is offered, or take it again;
    /// lookups go on and the entries stay.
    pub fn set_writable(&mut self, writable: bool)
        ensures
            final(self).contents() == old(self).contents(),
            final(self).wf() == old(self).wf(),
            final(self).is_available() == old(self).is_available(),
            final(self).is_writable() == writable,
    {
        self.writable = writable;
    }

    fn position(&self, key: &String) -> (r: Option<usize>)
        ensures
            match r {
                Some(i) => i < self.entries@.len() && self.entries@[i as int].key@ == key@,
                None => forall|k: int|
                    0 <= k < self.entries@.len() ==> (#[trigger] self.entries@[k]).key@ != key@,
            },
    {
        let n = self.entries.len();
        let mut i: usize = 0;
        while i < n
            invariant
                n == self.entries.len(),
                i <= n,
                forall|k: int| 0 <= k < i ==> (#[trigger] self.entries@[k]).key@ != key@,
            decreases n - i,
        {
            if self.entries[i].key == *key {
                return Some(i);
            }
            i = i + 1;
        }
        None
    }

    /// Looks `key` up at the time `now`. An entry counts from the second
    /// it expires as absent.
    pub fn get(&self, key: &str, now: i64) -> (r: CacheRead<&V>)
        requires
            self.wf(),
        ensures
            !self.is_available() ==> r is Unavailable,
            self.is_available() ==> match live(self.contents(), key@, now as int) {
                Some(v) => r matches CacheRead::Hit(found) && *found == v,
                None => r is Miss,
            },
    {
        if !self.available {
            return CacheRead::Unavailable;
        }
        let wanted = key.to_string();
        match self.position(&wanted) {
            Some(i) => {
                proof {
                    lemma_present(self.entries@, i as int);
                }
                if now < self.entries[i].expires_at {
                    CacheRead::Hit(&self.entries[i].value)
                } else {
                    CacheRead::Miss
                }
            },
            None => {
                proof {
                    lemma_absent(self.entries@, key@);
                }
                CacheRead::Miss
            },
        }
    }

    /// Stores `value` under `key` for `ttl_secs` seconds from `now`,
    /// replacing what was there; tells whether the cache took it. A cache
    /// that cannot be reached or refuses what it is offered takes nothing
    /// and stays as it is.
    pub fn set_with_ttl(&mut self, key: &str, value: V, ttl_secs: i64, now: i64) -> (r: bool)
        requires
            old(self).wf(),
        ensures
            final(self).wf(),
            final(self).is_available() == old(self).is_available(),
            final(self).is_writable() == old(self).is_writable(),
            r == (old(self).is_available() && old(self).is_writable()),
            r ==> final(self).contents() == old(self).contents().insert(
                key@,
                Slot { value, expires_at: expiry(now as int, ttl_secs as int) },
            ),
            !r ==> final(self).contents() == old(self).contents(),
    {
        if !self.available || !self.writable {
            return false;
        }
        let expires_at = match now.checked_add(ttl_secs) {
            Some(t) => t,
            None => if ttl_secs < 0 {
                i64::MIN
            } else {
                i64::MAX
            },
        };
        let wanted = key.to_string();
        let entry = CacheEntry { key: key.to_string(), value, expires_at };
        let ghost before = self.entries@;
        match self.position(&wanted) {
            Some(i) => {
                self.entries.set(i, entry);
                proof {
                    lemma_replace(before, i as int, entry);
                }
            },
            None => {
                self.entries.push(entry);
                proof {
                    lemma_append(before, entry);
                }
            },
        }
        true
    }
}

} // verus!
