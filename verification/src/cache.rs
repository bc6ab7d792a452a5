//! The two-tier cache: a fast local tier in this process, backed by a
//! shared tier reachable by every instance.
//!
//! The local tier is the verified store in `crate::store`. The shared tier
//! is a networked key-value backend; this module computes everything about
//! it that is plain data — the namespaced key, the serialized payload, the
//! promotion on a shared hit, and the degradation of every shared-tier
//! error to a miss — while the embedding application moves the bytes.

use crate::codec::{decode_response, decode_spec, emit_resp, encode_response};
use crate::models::{QueryResponse, QueryResponseV};
use crate::store::{lookup_seq, put_seq, remove_key_seq, CacheEntryV, LocalStore, view_opt_resp};
use crate::text::concat2;
use vstd::prelude::*;

verus! {

/// What the shared tier answered to a read: a payload, nothing, or an
/// infrastructure error. An error is treated exactly like a miss.
pub enum SharedGetOutcome {
    Hit(String),
    Miss,
    Error(String),
}

/// A pending write to the shared tier: `SET key payload EX ttl_secs`.
/// A failure of this write is logged and swallowed by the caller; the
/// local tier alone is acceptable degraded service.
pub struct SharedWrite {
    pub key: String,
    pub payload: String,
    pub ttl_secs: u64,
}

/// `a + b`, clamped to the integer's range.
pub open spec fn sat_add_u64(a: u64, b: u64) -> u64 {
    if a + b > u64::MAX {
        u64::MAX
    } else {
        (a + b) as u64
    }
}

/// `secs` converted to milliseconds, clamped to the integer's range.
pub open spec fn sat_ms(secs: u64) -> u64 {
    if secs * 1000 > u64::MAX {
        u64::MAX
    } else {
        (secs * 1000) as u64
    }
}

/// The response a shared-tier read outcome carries, if any: a decodable
/// payload and nothing else. Connectivity errors count as misses.
pub open spec fn shared_yield(outcome: SharedGetOutcome) -> Option<QueryResponseV> {
    match outcome {
        SharedGetOutcome::Hit(payload) => decode_spec(payload@),
        SharedGetOutcome::Miss => Option::None,
        SharedGetOutcome::Error(_) => Option::None,
    }
}

pub struct Cache {
    local: LocalStore,
    l1_ttl_ms: u64,
    l2_ttl_secs: u64,
}

impl Cache {
    /// The contents of the local tier.
    pub closed spec fn spec_local(&self) -> Seq<CacheEntryV> {
        self.local@
    }

    /// The lifetime of a local-tier entry, in milliseconds.
    pub closed spec fn spec_l1_ttl_ms(&self) -> u64 {
        self.l1_ttl_ms
    }

    /// The configured shared-tier lifetime, in seconds (advisory; each
    /// write names its own lifetime).
    pub closed spec fn spec_l2_ttl_secs(&self) -> u64 {
        self.l2_ttl_secs
    }

    /// How many entries the local tier may hold.
    pub closed spec fn spec_capacity(&self) -> nat {
        self.local.spec_capacity()
    }

    pub closed spec fn wf(&self) -> bool {
        self.local.wf()
    }

    /// When an entry written at `now_ms` leaves the local tier.
    pub open spec fn spec_expiry(&self, now_ms: u64) -> u64 {
        sat_add_u64(now_ms, self.spec_l1_ttl_ms())
    }

    /// An empty cache with a local tier bounded to `l1_capacity` entries
    /// whose entries live `l1_ttl_secs`.
    pub fn new(l1_capacity: usize, l1_ttl_secs: u64, l2_ttl_secs: u64) -> (r: Self)
        requires
            l1_capacity >= 1,
        ensures
            r.spec_local() =~= Seq::<CacheEntryV>::empty(),
            r.spec_l1_ttl_ms() == sat_ms(l1_ttl_secs),
            r.spec_l2_ttl_secs() == l2_ttl_secs,
            r.spec_capacity() == l1_capacity,
            r.wf(),
    {
        let l1_ttl_ms: u64 = if l1_ttl_secs > u64::MAX / 1000 {
            u64::MAX
        } else {
            l1_ttl_secs * 1000
        };
        Cache { local: LocalStore::new(l1_capacity), l1_ttl_ms, l2_ttl_secs }
    }

    /// The shared tier's key for `key`: the cache namespace prefix plus the
    /// verbatim text. The local tier uses the bare text.
    pub fn shared_key(key: &String) -> (r: String)
        ensures
            r@ == "query:"@ + key@,
    {
        concat2("query:", key.as_str())
    }

    /// Reads the local tier; expired entries count as absent. Never
    /// touches the shared tier.
    pub fn get_local(&self, key: &String, now_ms: u64) -> (r: Option<QueryResponse>)
        ensures
            view_opt_resp(r) == lookup_seq(self.spec_local(), key@, now_ms),
    {
        self.local.get(key, now_ms)
    }

    /// Digests the shared tier's answer after a local miss: a payload that
    /// decodes is promoted into the local tier and returned; everything
    /// else — a miss, an unreadable payload, a shared-tier error — is a
    /// miss, and the cache is left unchanged.
    pub fn absorb_shared(&mut self, key: &String, outcome: &SharedGetOutcome, now_ms: u64) -> (r:
        Option<QueryResponse>)
        requires
            old(self).wf(),
        ensures
            final(self).wf(),
            final(self).spec_l1_ttl_ms() == old(self).spec_l1_ttl_ms(),
            final(self).spec_l2_ttl_secs() == old(self).spec_l2_ttl_secs(),
            final(self).spec_capacity() == old(self).spec_capacity(),
            match shared_yield(*outcome) {
                Option::Some(v) => {
                    &&& r matches Option::Some(resp) && resp@ == v
                    &&& final(self).spec_local() == put_seq(
                        old(self).spec_local(),
                        key@,
                        v,
                        old(self).spec_expiry(now_ms),
                        old(self).spec_capacity(),
                    )
                },
                Option::None => r is None && final(self).spec_local() == old(self).spec_local(),
            },
    {
        match outcome {
            SharedGetOutcome::Hit(payload) => {
                match decode_response(payload.as_str()) {
                    Option::Some(value) => {
                        let expires = self.expiry(now_ms);
                        self.local.put(key, &value, expires);
                        Option::Some(value)
                    },
                    Option::None => Option::None,
                }
            },
            SharedGetOutcome::Miss => Option::None,
            SharedGetOutcome::Error(_) => Option::None,
        }
    }

    /// Writes through: the local tier immediately and unconditionally, and
    /// hands back the shared-tier write for the caller to send. A failure
    /// of that send is not this cache's failure.
    pub fn set(&mut self, key: &String, value: &QueryResponse, ttl_secs: u64, now_ms: u64) -> (w:
        SharedWrite)
        requires
            old(self).wf(),
        ensures
            final(self).wf(),
            final(self).spec_l1_ttl_ms() == old(self).spec_l1_ttl_ms(),
            final(self).spec_l2_ttl_secs() == old(self).spec_l2_ttl_secs(),
            final(self).spec_capacity() == old(self).spec_capacity(),
            final(self).spec_local() == put_seq(
                old(self).spec_local(),
                key@,
                value@,
                old(self).spec_expiry(now_ms),
                old(self).spec_capacity(),
            ),
            w.key@ == "query:"@ + key@,
            w.payload@ == emit_resp(value@),
            w.ttl_secs == ttl_secs,
    {
        let expires = self.expiry(now_ms);
        self.local.put(key, value, expires);
        SharedWrite {
            key: Self::shared_key(key),
            payload: encode_response(value),
            ttl_secs,
        }
    }

    /// Removes `key` from the local tier and hands back the shared-tier
    /// key for the caller to delete there.
    pub fn invalidate(&mut self, key: &String) -> (shared: String)
        requires
            old(self).wf(),
        ensures
            final(self).wf(),
            final(self).spec_l1_ttl_ms() == old(self).spec_l1_ttl_ms(),
            final(self).spec_l2_ttl_secs() == old(self).spec_l2_ttl_secs(),
            final(self).spec_capacity() == old(self).spec_capacity(),
            final(self).spec_local() == remove_key_seq(old(self).spec_local(), key@),
            shared@ == "query:"@ + key@,
    {
        self.local.remove(key);
        Self::shared_key(key)
    }

    /// Computes the local-tier expiry stamp for a write at `now_ms`.
    fn expiry(&self, now_ms: u64) -> (r: u64)
        ensures
            r == self.spec_expiry(now_ms),
    {
        if self.l1_ttl_ms > u64::MAX - now_ms {
            u64::MAX
        } else {
            now_ms + self.l1_ttl_ms
        }
    }
}

} // verus!
