//! The local cache tier: an in-process bounded key-value store with
//! per-entry expiry.
//!
//! Entries are held oldest-first; writing a key removes any entry it already
//! has, evicts the oldest entry when the store is full, and appends the new
//! entry. Lookup walks from the newest entry and honours the expiry stamp.

use crate::models::{QueryResponse, QueryResponseV};
use vstd::prelude::*;

verus! {

/// Mathematical value of one stored entry.
pub struct CacheEntryV {
    pub key: Seq<char>,
    pub resp: QueryResponseV,
    pub expires_at_ms: u64,
}

struct StoredEntry {
    key: String,
    resp: QueryResponse,
    expires_at_ms: u64,
}

impl View for StoredEntry {
    type V = CacheEntryV;

    closed spec fn view(&self) -> CacheEntryV {
        CacheEntryV { key: self.key@, resp: self.resp@, expires_at_ms: self.expires_at_ms }
    }
}

/// The newest entry stored under `key`, if any.
pub open spec fn find_entry(s: Seq<CacheEntryV>, key: Seq<char>) -> Option<CacheEntryV>
    decreases s.len(),
{
    if s.len() == 0 {
        Option::None
    } else if s.last().key == key {
        Option::Some(s.last())
    } else {
        find_entry(s.drop_last(), key)
    }
}

/// `s` with every entry under `key` removed, order otherwise kept.
pub open spec fn remove_key_seq(s: Seq<CacheEntryV>, key: Seq<char>) -> Seq<CacheEntryV>
    decreases s.len(),
{
    if s.len() == 0 {
        s
    } else {
        let rest = remove_key_seq(s.drop_last(), key);
        if s.last().key == key {
            rest
        } else {
            rest.push(s.last())
        }
    }
}

/// The store contents after writing `key -> (resp, expires_at_ms)` into a
/// store bounded to `cap` entries: the key's old entry goes, the oldest
/// entry is evicted if the store would overflow, and the new entry lands
/// at the newest position.
pub open spec fn put_seq(
    s: Seq<CacheEntryV>,
    key: Seq<char>,
    resp: QueryResponseV,
    expires_at_ms: u64,
    cap: nat,
) -> Seq<CacheEntryV> {
    let cleared = remove_key_seq(s, key);
    let bounded = if cleared.len() >= cap {
        cleared.drop_first()
    } else {
        cleared
    };
    bounded.push(CacheEntryV { key, resp, expires_at_ms })
}

/// What a lookup at time `now_ms` returns: the newest entry under the key,
/// unless it has expired.
pub open spec fn lookup_seq(s: Seq<CacheEntryV>, key: Seq<char>, now_ms: u64) -> Option<
    QueryResponseV,
> {
    match find_entry(s, key) {
        Option::Some(e) => if now_ms < e.expires_at_ms {
            Option::Some(e.resp)
        } else {
            Option::None
        },
        Option::None => Option::None,
    }
}

pub open spec fn view_opt_resp(o: Option<QueryResponse>) -> Option<QueryResponseV> {
    match o {
        Option::Some(r) => Option::Some(r@),
        Option::None => Option::None,
    }
}

/// A write is immediately readable, whatever was stored before.
pub proof fn lemma_lookup_after_put(
    s: Seq<CacheEntryV>,
    key: Seq<char>,
    resp: QueryResponseV,
    expires_at_ms: u64,
    cap: nat,
    now_ms: u64,
)
    ensures
        lookup_seq(put_seq(s, key, resp, expires_at_ms, cap), key, now_ms) == if now_ms
            < expires_at_ms {
            Option::Some(resp)
        } else {
            Option::None::<QueryResponseV>
        },
{
    let e = CacheEntryV { key, resp, expires_at_ms };
    let t = put_seq(s, key, resp, expires_at_ms, cap);
    assert(t.last() == e);
}

pub struct LocalStore {
    entries: Vec<StoredEntry>,
    capacity: usize,
}

impl View for LocalStore {
    type V = Seq<CacheEntryV>;

    closed spec fn view(&self) -> Seq<CacheEntryV> {
        Seq::new(self.entries@.len(), |i: int| self.entries@[i]@)
    }
}

impl LocalStore {
    /// How many entries the store may hold at once.
    pub closed spec fn spec_capacity(&self) -> nat {
        self.capacity as nat
    }

    /// The store never holds more than its capacity.
    pub open spec fn wf(&self) -> bool {
        self.spec_capacity() >= 1 && self@.len() <= self.spec_capacity()
    }

    /// An empty store bounded to `capacity` entries.
    pub fn new(capacity: usize) -> (r: Self)
        requires
            capacity >= 1,
        ensures
            r@ =~= Seq::<CacheEntryV>::empty(),
            r.spec_capacity() == capacity,
            r.wf(),
    {
        LocalStore { entries: Vec::new(), capacity }
    }

    /// Looks `key` up at time `now_ms`; an expired entry counts as absent.
    pub fn get(&self, key: &String, now_ms: u64) -> (r: Option<QueryResponse>)
        ensures
            view_opt_resp(r) == lookup_seq(self@, key@, now_ms),
    {
        let mut i: usize = self.entries.len();
        proof {
            assert(self@.take(i as int) =~= self@);
        }
        while i > 0
            invariant
                i <= self.entries.len(),
                find_entry(self@, key@) == find_entry(self@.take(i as int), key@),
            decreases i,
        {
            i = i - 1;
            proof {
                assert(self@.take(i as int + 1).drop_last() =~= self@.take(i as int));
                assert(self@.take(i as int + 1).last() == self@[i as int]);
            }
            if crate::text::str_eq(self.entries[i].key.as_str(), key.as_str()) {
                if now_ms < self.entries[i].expires_at_ms {
                    return Option::Some(self.entries[i].resp.clone());
                } else {
                    return Option::None;
                }
            }
        }
        proof {
            assert(self@.take(0) =~= Seq::<CacheEntryV>::empty());
        }
        Option::None
    }

    /// Drops every entry stored under `key`.
    pub fn remove(&mut self, key: &String)
        ensures
            final(self)@ == remove_key_seq(old(self)@, key@),
            final(self).spec_capacity() == old(self).spec_capacity(),
            old(self).wf() ==> final(self).wf(),
    {
        let mut kept: Vec<StoredEntry> = Vec::new();
        let n = self.entries.len();
        let mut i: usize = 0;
        while i < n
            invariant
                i <= n,
                n == self.entries.len(),
                Seq::new(kept@.len(), |j: int| kept@[j]@) =~= remove_key_seq(
                    self@.take(i as int),
                    key@,
                ),
                kept@.len() <= i,
            decreases n - i,
        {
            proof {
                assert(self@.take(i as int + 1).drop_last() =~= self@.take(i as int));
                assert(self@.take(i as int + 1).last() == self@[i as int]);
            }
            if !crate::text::str_eq(self.entries[i].key.as_str(), key.as_str()) {
                let e = StoredEntry {
                    key: self.entries[i].key.clone(),
                    resp: self.entries[i].resp.clone(),
                    expires_at_ms: self.entries[i].expires_at_ms,
                };
                kept.push(e);
            }
            i = i + 1;
        }
        proof {
            assert(self@.take(n as int) =~= self@);
        }
        self.entries = kept;
    }

    /// Writes `key -> (resp, expires_at_ms)`, evicting as `put_seq` says.
    pub fn put(&mut self, key: &String, resp: &QueryResponse, expires_at_ms: u64)
        requires
            old(self).wf(),
        ensures
            final(self)@ == put_seq(old(self)@, key@, resp@, expires_at_ms, old(self).spec_capacity()),
            final(self).spec_capacity() == old(self).spec_capacity(),
            final(self).wf(),
    {
        self.remove(key);
        proof {
            lemma_remove_key_len(old(self)@, key@);
        }
        if self.entries.len() >= self.capacity {
            let ghost before = self@;
            self.entries.remove(0);
            proof {
                assert(self@ =~= before.drop_first());
            }
        }
        let e = StoredEntry { key: key.clone(), resp: resp.clone(), expires_at_ms };
        let ghost bounded = self@;
        self.entries.push(e);
        proof {
            assert(self@ =~= bounded.push(e@));
        }
    }
}

/// Removing a key never grows the store.
proof fn lemma_remove_key_len(s: Seq<CacheEntryV>, key: Seq<char>)
    ensures
        remove_key_seq(s, key).len() <= s.len(),
    decreases s.len(),
{
    if s.len() > 0 {
        lemma_remove_key_len(s.drop_last(), key);
    }
}

} // verus!
