//! Data model: queries, per-source results, aggregate responses, and the
//! adapter error taxonomy.
//!
//! Scores are held in integer thousandths (0 = 0.0, 1000 = 1.0) so that the
//! core stays in exact arithmetic; coordinates are held in microdegrees for
//! the same reason.

use crate::text::{concat2, concat3, dec_chars, u64_to_dec_chars, chars_to_string};
use vstd::prelude::*;

verus! {

/// Upper bound (inclusive) of a confidence or relevance score, in thousandths.
pub const SCORE_SCALE: u32 = 1000;

/// A structured query from the upstream intent classifier.
///
/// Immutable once dispatched; every concurrent fetch sees the same value.
pub struct Query {
    /// The original user query text. Also the cache key, verbatim.
    pub text: String,
    /// Recognized intent label, e.g. "weather" or "search".
    pub intent: String,
    /// Extracted entity name -> value pairs; keys are unique.
    pub entities: Vec<(String, String)>,
    /// Explicit list of requested source names; empty = unrestricted.
    pub sources: Vec<String>,
    /// Caller context, opaque to the core.
    pub context: Option<UserContext>,
    /// Caller-supplied overall timeout hint in milliseconds.
    pub timeout_ms: Option<u64>,
}

pub struct UserContext {
    pub user_id: String,
    pub location: Option<Location>,
    pub timezone: Option<String>,
    pub preferences: Vec<(String, String)>,
}

/// Coordinates in integer microdegrees (1e-6 degree units).
pub struct Location {
    pub latitude_udeg: i64,
    pub longitude_udeg: i64,
    pub city: Option<String>,
    pub country: Option<String>,
}

/// Output of one source invocation. Always produced, even on timeout or
/// adapter failure (then with `success == false` and `error` populated).
pub struct SourceResult {
    /// Data source name.
    pub source: String,
    /// Success status.
    pub success: bool,
    /// Response time in milliseconds.
    pub latency_ms: u64,
    /// Retrieved payload, an opaque serialized document owned by the adapter.
    pub data: Option<String>,
    /// Error message if failed.
    pub error: Option<String>,
    /// Confidence score in thousandths, 0 ..= SCORE_SCALE.
    pub confidence: u32,
    /// Relevance score in thousandths, 0 ..= SCORE_SCALE.
    pub relevance: u32,
}

/// Aggregate response for one orchestration call.
pub struct QueryResponse {
    /// Generated id, unique per orchestration call (not per cache entry).
    pub query_id: String,
    /// Results from each selected source, in completion order.
    pub results: Vec<SourceResult>,
    /// Total wall-clock time of the fan-out in milliseconds.
    pub latency_ms: u64,
    /// Number of sources queried; always equals `results.len()`.
    pub sources_queried: usize,
    /// Number of sources that succeeded.
    pub sources_succeeded: usize,
    /// Whether this response was served from the cache.
    pub cache_hit: bool,
}

/// Mathematical value of a `SourceResult`.
pub struct SourceResultV {
    pub source: Seq<char>,
    pub success: bool,
    pub latency_ms: u64,
    pub data: Option<Seq<char>>,
    pub error: Option<Seq<char>>,
    pub confidence: u32,
    pub relevance: u32,
}

/// Mathematical value of a `QueryResponse`.
pub struct QueryResponseV {
    pub query_id: Seq<char>,
    pub results: Seq<SourceResultV>,
    pub latency_ms: u64,
    pub sources_queried: usize,
    pub sources_succeeded: usize,
    pub cache_hit: bool,
}

pub open spec fn view_opt_string(o: Option<String>) -> Option<Seq<char>> {
    match o {
        Option::Some(s) => Option::Some(s@),
        Option::None => Option::None,
    }
}

impl View for SourceResult {
    type V = SourceResultV;

    open spec fn view(&self) -> SourceResultV {
        SourceResultV {
            source: self.source@,
            success: self.success,
            latency_ms: self.latency_ms,
            data: view_opt_string(self.data),
            error: view_opt_string(self.error),
            confidence: self.confidence,
            relevance: self.relevance,
        }
    }
}

/// The element-wise view of a sequence of results.
pub open spec fn view_result_seq(s: Seq<SourceResult>) -> Seq<SourceResultV> {
    Seq::new(s.len(), |i: int| s[i]@)
}

impl View for QueryResponse {
    type V = QueryResponseV;

    open spec fn view(&self) -> QueryResponseV {
        QueryResponseV {
            query_id: self.query_id@,
            results: view_result_seq(self.results@),
            latency_ms: self.latency_ms,
            sources_queried: self.sources_queried,
            sources_succeeded: self.sources_succeeded,
            cache_hit: self.cache_hit,
        }
    }
}

impl SourceResultV {
    /// A score is a fraction of SCORE_SCALE.
    pub open spec fn wf(self) -> bool {
        self.confidence <= SCORE_SCALE && self.relevance <= SCORE_SCALE
    }
}

/// How many of the results report success.
pub open spec fn count_successes(rs: Seq<SourceResultV>) -> nat
    decreases rs.len(),
{
    if rs.len() == 0 {
        0
    } else {
        count_successes(rs.drop_last()) + if rs.last().success {
            1nat
        } else {
            0nat
        }
    }
}

impl QueryResponseV {
    /// The structural invariant of every response the orchestrator builds:
    /// the counters agree with the result list.
    pub open spec fn wf(self) -> bool {
        &&& self.sources_queried == self.results.len()
        &&& self.sources_succeeded == count_successes(self.results)
        &&& forall|i: int| 0 <= i < self.results.len() ==> (#[trigger] self.results[i]).wf()
    }
}

impl Clone for SourceResult {
    fn clone(&self) -> (r: Self)
        ensures
            r@ == self@,
    {
        SourceResult {
            source: self.source.clone(),
            success: self.success,
            latency_ms: self.latency_ms,
            data: match &self.data {
                Option::Some(d) => Option::Some(d.clone()),
                Option::None => Option::None,
            },
            error: match &self.error {
                Option::Some(e) => Option::Some(e.clone()),
                Option::None => Option::None,
            },
            confidence: self.confidence,
            relevance: self.relevance,
        }
    }
}

impl Clone for QueryResponse {
    fn clone(&self) -> (r: Self)
        ensures
            r@ == self@,
    {
        let mut results: Vec<SourceResult> = Vec::new();
        let mut i: usize = 0;
        while i < self.results.len()
            invariant
                i <= self.results.len(),
                results@.len() == i as int,
                forall|j: int| 0 <= j < i ==> results@[j]@ == self.results@[j]@,
            decreases self.results.len() - i,
        {
            results.push(self.results[i].clone());
            i = i + 1;
        }
        let r = QueryResponse {
            query_id: self.query_id.clone(),
            results,
            latency_ms: self.latency_ms,
            sources_queried: self.sources_queried,
            sources_succeeded: self.sources_succeeded,
            cache_hit: self.cache_hit,
        };
        proof {
            assert(r@.results =~= self@.results);
        }
        r
    }
}

/// The contract every data source satisfies: a stable name, a pure
/// applicability test, and advisory rate-limit / timeout hints (documented
/// defaults: 100 requests per second, 500 ms). The fetch operation itself
/// performs I/O and therefore lives with the adapter's runtime, outside this
/// library; the orchestrator consumes fetch outcomes as plain values.
pub trait DataSourceAdapter: Sized {
    /// The stable unique identifier of this source.
    spec fn spec_name(&self) -> Seq<char>;

    /// Whether this source can answer `q`; a pure predicate.
    spec fn applicable(&self, q: &Query) -> bool;

    /// The advisory rate limit, in requests per second.
    spec fn spec_rate_limit(&self) -> u32;

    /// The advisory per-call deadline, in milliseconds.
    spec fn spec_timeout_ms(&self) -> u64;

    /// Unique identifier, used for selection, labeling, and cache bypass.
    fn name(&self) -> (r: String)
        ensures
            r@ == self.spec_name(),
    ;

    /// Checks whether this adapter can handle the query; performs no I/O.
    fn can_handle(&self, query: &Query) -> (r: bool)
        ensures
            r == self.applicable(query),
    ;

    /// Rate limit hint (requests per second).
    fn rate_limit(&self) -> (r: u32)
        ensures
            r == self.spec_rate_limit(),
    ;

    /// Per-call timeout hint in milliseconds.
    fn timeout_ms(&self) -> (r: u64)
        ensures
            r == self.spec_timeout_ms(),
    ;
}

/// Adapter-level failure taxonomy. Terminal for that source within the
/// current query; never retried, never propagated to the caller.
#[derive(Debug)]
pub enum AdapterError {
    /// Network failure while reaching the provider.
    Network(String),
    /// Non-success API status from the provider.
    Api(String),
    /// The per-call deadline elapsed, in milliseconds.
    Timeout(u64),
    /// The provider rejected the call for rate reasons.
    RateLimit,
    /// Authentication failed.
    Auth,
    /// The payload could not be parsed.
    Parse(String),
    /// Anything else.
    Unknown(String),
}

/// The human-readable rendering of an adapter error.
pub open spec fn message_spec(e: AdapterError) -> Seq<char> {
    match e {
        AdapterError::Network(s) => "Network error: "@ + s@,
        AdapterError::Api(s) => "API error: "@ + s@,
        AdapterError::Timeout(t) => "Timeout after "@ + dec_chars(t as nat) + "ms"@,
        AdapterError::RateLimit => "Rate limit exceeded"@,
        AdapterError::Auth => "Authentication failed"@,
        AdapterError::Parse(s) => "Parse error: "@ + s@,
        AdapterError::Unknown(s) => "Unknown error: "@ + s@,
    }
}

impl AdapterError {
    /// Renders the error as the human-readable string that ends up in
    /// `SourceResult::error`.
    pub fn message(&self) -> (r: String)
        ensures
            r@ == message_spec(*self),
    {
        match self {
            AdapterError::Network(s) => concat2("Network error: ", s.as_str()),
            AdapterError::Api(s) => concat2("API error: ", s.as_str()),
            AdapterError::Timeout(t) => {
                let digits = u64_to_dec_chars(*t);
                let digits_s = chars_to_string(&digits);
                let r = concat3("Timeout after ", digits_s.as_str(), "ms");
                proof {
                    assert(r@ =~= message_spec(*self));
                }
                r
            },
            AdapterError::RateLimit => "Rate limit exceeded".to_owned(),
            AdapterError::Auth => "Authentication failed".to_owned(),
            AdapterError::Parse(s) => concat2("Parse error: ", s.as_str()),
            AdapterError::Unknown(s) => concat2("Unknown error: ", s.as_str()),
        }
    }
}

/// The value of the result synthesized from an adapter error alone:
/// no payload, zero scores, and the rendered error message.
pub open spec fn error_result_spec(e: AdapterError) -> SourceResultV {
    SourceResultV {
        source: "unknown"@,
        success: false,
        latency_ms: 0,
        data: Option::None,
        error: Option::Some(message_spec(e)),
        confidence: 0,
        relevance: 0,
    }
}

impl SourceResult {
    /// Converts an adapter error into a failed result with an unattributed
    /// source name, as the reduction does when no adapter name is at hand.
    pub fn from_error(e: &AdapterError) -> (r: SourceResult)
        ensures
            r@ == error_result_spec(*e),
    {
        SourceResult {
            source: "unknown".to_owned(),
            success: false,
            latency_ms: 0,
            data: Option::None,
            error: Option::Some(e.message()),
            confidence: 0,
            relevance: 0,
        }
    }
}

} // verus!
