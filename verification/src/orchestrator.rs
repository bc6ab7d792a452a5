//! The fan-out orchestrator: selects the applicable sources for a query,
//! settles the outcome of each concurrent fetch into a result, reduces the
//! results into one response, and drives cache population.
//!
//! Each selected source's fetch runs as an independent unit of work with
//! its own deadline, driven by the embedding runtime; this module receives
//! each unit's terminal outcome as a plain value and is verified for every
//! value the runtime can hand it. The orchestrator itself never fails a
//! query because sources failed: every selected source contributes exactly
//! one result, successful or not.

use crate::adapters::AnySource;
use crate::cache::{sat_ms, shared_yield, SharedGetOutcome, SharedWrite, Cache};
use crate::config::Config;
use crate::models::{
    count_successes, message_spec, AdapterError, DataSourceAdapter, Query, QueryResponse,
    QueryResponseV, SourceResult, SourceResultV, view_result_seq,
};
use crate::store::{lookup_seq, put_seq, CacheEntryV};
use crate::text::{clone_opt_string, str_eq};
use vstd::prelude::*;

verus! {

/// How long a freshly computed response lives in the cache, in seconds.
pub const RESPONSE_CACHE_TTL_SECS: u64 = 300;

/// The terminal state of one dispatched fetch: the adapter's own answer,
/// the adapter's reported failure, or the deadline elapsing first.
pub enum FetchOutcome {
    Completed(SourceResult),
    Failed(AdapterError),
    TimedOut,
}

/// Whether the query's explicit source list admits a source of this name;
/// an empty list admits every source.
pub open spec fn str_seq_contains(names: Seq<String>, name: Seq<char>) -> bool {
    exists|i: int| 0 <= i < names.len() && names[i]@ == name
}

/// Whether `a` is selected for `q`: admitted by the query's source list
/// and able to handle the query.
pub open spec fn wanted(a: AnySource, q: &Query) -> bool {
    (q.sources@.len() == 0 || str_seq_contains(q.sources@, a.spec_name())) && a.applicable(q)
}

/// The selected sources, in registration order.
pub open spec fn selected_spec(adapters: Seq<AnySource>, q: &Query) -> Seq<AnySource>
    decreases adapters.len(),
{
    if adapters.len() == 0 {
        Seq::empty()
    } else {
        let rest = selected_spec(adapters.drop_last(), q);
        if wanted(adapters.last(), q) {
            rest.push(adapters.last())
        } else {
            rest
        }
    }
}

/// The result one settled fetch contributes: a completed fetch's own
/// answer; otherwise a synthesized failure whose elapsed time is the
/// source's deadline and whose error is the rendered failure.
pub open spec fn settle_spec(name: Seq<char>, timeout_ms: u64, outcome: FetchOutcome) -> SourceResultV {
    match outcome {
        FetchOutcome::Completed(res) => res@,
        FetchOutcome::Failed(e) => SourceResultV {
            source: name,
            success: false,
            latency_ms: timeout_ms,
            data: Option::None,
            error: Option::Some(message_spec(e)),
            confidence: 0,
            relevance: 0,
        },
        FetchOutcome::TimedOut => SourceResultV {
            source: name,
            success: false,
            latency_ms: timeout_ms,
            data: Option::None,
            error: Option::Some(message_spec(AdapterError::Timeout(timeout_ms))),
            confidence: 0,
            relevance: 0,
        },
    }
}

/// The result list of a whole fan-out, one entry per selected source.
pub open spec fn fanout_results_spec(
    adapters: Seq<AnySource>,
    q: &Query,
    events: Seq<FetchOutcome>,
) -> Seq<SourceResultV> {
    let sel = selected_spec(adapters, q);
    Seq::new(sel.len(), |i: int| settle_spec(sel[i].spec_name(), sel[i].spec_timeout_ms(), events[i]))
}

/// A cached response as it is served: same content, hit flag raised.
pub open spec fn served_spec(v: QueryResponseV) -> QueryResponseV {
    QueryResponseV { cache_hit: true, ..v }
}

/// Raises the cache-hit flag on a cache-served response.
pub fn mark_cache_hit(r: QueryResponse) -> (out: QueryResponse)
    ensures
        out@ == served_spec(r@),
{
    QueryResponse { cache_hit: true, ..r }
}

/// Relies on `uuid::Uuid::new_v4` and its hyphenated `Display` form: a
/// fresh random identifier rendered as 36 ASCII characters. Nothing is
/// assumed about the value beyond its length.
#[verifier::external_body]
fn fresh_query_id() -> (r: String)
    ensures
        r@.len() == 36,
{
    uuid::Uuid::new_v4().to_string()
}

/// Whether `name` occurs in `list`.
fn list_contains(list: &Vec<String>, name: &String) -> (r: bool)
    ensures
        r == str_seq_contains(list@, name@),
{
    let mut i: usize = 0;
    while i < list.len()
        invariant
            i <= list.len(),
            forall|j: int| 0 <= j < i ==> list@[j]@ != name@,
        decreases list.len() - i,
    {
        if str_eq(list[i].as_str(), name.as_str()) {
            return true;
        }
        i = i + 1;
    }
    false
}

/// Settles one dispatched fetch into the result it contributes.
pub fn settle_fetch(name: &String, timeout_ms: u64, outcome: &FetchOutcome) -> (r: SourceResult)
    ensures
        r@ == settle_spec(name@, timeout_ms, *outcome),
{
    match outcome {
        FetchOutcome::Completed(res) => res.clone(),
        FetchOutcome::Failed(e) => SourceResult {
            source: name.clone(),
            success: false,
            latency_ms: timeout_ms,
            data: Option::None,
            error: Option::Some(e.message()),
            confidence: 0,
            relevance: 0,
        },
        FetchOutcome::TimedOut => {
            let e = AdapterError::Timeout(timeout_ms);
            SourceResult {
                source: name.clone(),
                success: false,
                latency_ms: timeout_ms,
                data: Option::None,
                error: Option::Some(e.message()),
                confidence: 0,
                relevance: 0,
            }
        },
    }
}

/// Reduces the settled results into one response: results in arrival
/// order, `sources_queried` the number of results, `sources_succeeded`
/// the number of successes, freshly computed (no cache hit).
pub fn reduce(query_id: String, results: Vec<SourceResult>, elapsed_ms: u64) -> (r: QueryResponse)
    ensures
        r@.query_id == query_id@,
        r@.results == view_result_seq(results@),
        r@.latency_ms == elapsed_ms,
        r@.sources_queried == results@.len(),
        r@.sources_succeeded == count_successes(view_result_seq(results@)),
        r@.cache_hit == false,
{
    let ghost rv = view_result_seq(results@);
    let mut succeeded: usize = 0;
    let mut i: usize = 0;
    proof {
        assert(rv.take(0) =~= Seq::<SourceResultV>::empty());
    }
    while i < results.len()
        invariant
            i <= results.len(),
            succeeded <= i,
            rv == view_result_seq(results@),
            rv.len() == results@.len(),
            succeeded as nat == count_successes(rv.take(i as int)),
        decreases results.len() - i,
    {
        proof {
            assert(rv.take(i as int + 1).drop_last() =~= rv.take(i as int));
            assert(rv.take(i as int + 1).last() == rv[i as int]);
        }
        if results[i].success {
            succeeded = succeeded + 1;
        }
        i = i + 1;
    }
    proof {
        assert(rv.take(results@.len() as int) =~= rv);
    }
    let sources_queried = results.len();
    QueryResponse {
        query_id,
        results,
        latency_ms: elapsed_ms,
        sources_queried,
        sources_succeeded: succeeded,
        cache_hit: false,
    }
}

pub struct Orchestrator {
    adapters: Vec<AnySource>,
    cache: Cache,
    config: Config,
}

impl Orchestrator {
    /// The registered sources, in registration order.
    pub closed spec fn spec_adapters(&self) -> Seq<AnySource> {
        self.adapters@
    }

    /// The contents of the local cache tier.
    pub closed spec fn spec_local(&self) -> Seq<CacheEntryV> {
        self.cache.spec_local()
    }

    /// The local tier's entry lifetime in milliseconds.
    pub closed spec fn spec_l1_ttl_ms(&self) -> u64 {
        self.cache.spec_l1_ttl_ms()
    }

    /// The local tier's capacity.
    pub closed spec fn spec_capacity(&self) -> nat {
        self.cache.spec_capacity()
    }

    /// When an entry written at `now_ms` leaves the local tier.
    pub open spec fn spec_expiry(&self, now_ms: u64) -> u64 {
        crate::cache::sat_add_u64(now_ms, self.spec_l1_ttl_ms())
    }

    pub closed spec fn wf(&self) -> bool {
        self.cache.wf()
    }

    /// The local-tier capacity derived from a size given in megabytes,
    /// at least one entry.
    pub open spec fn l1_capacity_spec(l1_size_mb: usize) -> usize {
        let bytes = if l1_size_mb * 1024 * 1024 > usize::MAX {
            usize::MAX
        } else {
            (l1_size_mb * 1024 * 1024) as usize
        };
        if bytes == 0 {
            1usize
        } else {
            bytes
        }
    }

    /// Builds the orchestrator: an empty cache sized from the
    /// configuration, and the fixed registry of data source adapters.
    /// New sources are registered here and only here.
    pub fn new(config: Config) -> (r: Self)
        ensures
            r.wf(),
            r.spec_local() =~= Seq::<CacheEntryV>::empty(),
            r.spec_l1_ttl_ms() == sat_ms(config.cache.l1_ttl_secs),
            r.spec_capacity() == Self::l1_capacity_spec(config.cache.l1_size_mb),
            r.spec_adapters().len() == 5,
            r.spec_adapters()[0] matches AnySource::GoogleSearch(a) && a.api_key
                == config.api_keys.google_api_key,
            r.spec_adapters()[1] matches AnySource::Wikipedia(w) && w.base_url@
                == "https://en.wikipedia.org/api/rest_v1"@,
            r.spec_adapters()[2] is WeatherApi,
            r.spec_adapters()[3] is OpenWeather,
            r.spec_adapters()[4] is NewsApi,
    {
        let google_key = clone_opt_string(&config.api_keys.google_api_key);
        let bytes: usize = if config.cache.l1_size_mb > usize::MAX / (1024 * 1024) {
            usize::MAX
        } else {
            config.cache.l1_size_mb * 1024 * 1024
        };
        let capacity: usize = if bytes == 0 {
            1
        } else {
            bytes
        };
        let cache = Cache::new(capacity, config.cache.l1_ttl_secs, config.cache.l2_ttl_secs);
        let mut adapters: Vec<AnySource> = Vec::new();
        adapters.push(AnySource::GoogleSearch(crate::adapters::GoogleSearchAdapter::new(google_key)));
        adapters.push(AnySource::Wikipedia(crate::adapters::WikipediaAdapter::new()));
        adapters.push(AnySource::WeatherApi(crate::adapters::WeatherApiAdapter::new()));
        adapters.push(AnySource::OpenWeather(crate::adapters::OpenWeatherAdapter::new()));
        adapters.push(AnySource::NewsApi(crate::adapters::NewsApiAdapter::new()));
        Orchestrator { adapters, cache, config }
    }

    /// Selects every registered source that the query's source list admits
    /// and whose `can_handle` accepts the query.
    pub fn select_sources(&self, query: &Query) -> (sel: Vec<AnySource>)
        ensures
            sel@ == selected_spec(self.spec_adapters(), query),
    {
        let mut sel: Vec<AnySource> = Vec::new();
        let mut i: usize = 0;
        proof {
            assert(self.spec_adapters().take(0) =~= Seq::<AnySource>::empty());
        }
        while i < self.adapters.len()
            invariant
                i <= self.adapters.len(),
                sel@ == selected_spec(self.spec_adapters().take(i as int), query),
            decreases self.adapters.len() - i,
        {
            proof {
                assert(self.spec_adapters().take(i as int + 1).drop_last() =~= self.spec_adapters()
                    .take(i as int));
                assert(self.spec_adapters().take(i as int + 1).last() == self.spec_adapters()[i as int]);
            }
            let name = self.adapters[i].name();
            let admitted = query.sources.len() == 0 || list_contains(&query.sources, &name);
            if admitted && self.adapters[i].can_handle(query) {
                sel.push(self.adapters[i].clone());
            }
            i = i + 1;
        }
        proof {
            assert(self.spec_adapters().take(self.adapters.len() as int) =~= self.spec_adapters());
        }
        sel
    }

    /// The names of all registered sources, in registration order.
    pub fn list_sources(&self) -> (names: Vec<String>)
        ensures
            names@.len() == self.spec_adapters().len(),
            forall|i: int|
                0 <= i < names@.len() ==> names@[i]@ == self.spec_adapters()[i].spec_name(),
    {
        let mut names: Vec<String> = Vec::new();
        let mut i: usize = 0;
        while i < self.adapters.len()
            invariant
                i <= self.adapters.len(),
                names@.len() == i as int,
                forall|j: int| 0 <= j < i ==> names@[j]@ == self.spec_adapters()[j].spec_name(),
            decreases self.adapters.len() - i,
        {
            names.push(self.adapters[i].name());
            i = i + 1;
        }
        names
    }

    /// Reads the local cache tier for this query.
    pub fn lookup_local(&self, query: &Query, now_ms: u64) -> (r: Option<QueryResponse>)
        ensures
            crate::store::view_opt_resp(r) == lookup_seq(self.spec_local(), query.text@, now_ms),
    {
        self.cache.get_local(&query.text, now_ms)
    }

    /// Digests the shared tier's answer for this query after a local miss;
    /// a decodable payload is promoted into the local tier.
    pub fn absorb_shared(
        &mut self,
        query: &Query,
        outcome: &SharedGetOutcome,
        now_ms: u64,
    ) -> (r: Option<QueryResponse>)
        requires
            old(self).wf(),
        ensures
            final(self).wf(),
            final(self).spec_adapters() == old(self).spec_adapters(),
            final(self).spec_l1_ttl_ms() == old(self).spec_l1_ttl_ms(),
            final(self).spec_capacity() == old(self).spec_capacity(),
            match shared_yield(*outcome) {
                Option::Some(v) => {
                    &&& r matches Option::Some(resp) && resp@ == v
                    &&& final(self).spec_local() == put_seq(
                        old(self).spec_local(),
                        query.text@,
                        v,
                        old(self).spec_expiry(now_ms),
                        old(self).spec_capacity(),
                    )
                },
                Option::None => r is None && final(self).spec_local() == old(self).spec_local(),
            },
    {
        self.cache.absorb_shared(&query.text, outcome, now_ms)
    }

    /// Records a freshly computed response: cached if and only if at least
    /// one source succeeded. On caching, the local tier is written and the
    /// shared-tier write is handed back; an all-failed response leaves
    /// every tier untouched, so the next identical query fans out afresh.
    pub fn record_response(
        &mut self,
        query: &Query,
        response: &QueryResponse,
        now_ms: u64,
    ) -> (w: Option<SharedWrite>)
        requires
            old(self).wf(),
        ensures
            final(self).wf(),
            final(self).spec_adapters() == old(self).spec_adapters(),
            final(self).spec_l1_ttl_ms() == old(self).spec_l1_ttl_ms(),
            final(self).spec_capacity() == old(self).spec_capacity(),
            response@.sources_succeeded >= 1 ==> {
                &&& w matches Option::Some(sw)
                &&& sw.key@ == "query:"@ + query.text@
                &&& sw.payload@ == crate::codec::emit_resp(response@)
                &&& sw.ttl_secs == RESPONSE_CACHE_TTL_SECS
                &&& final(self).spec_local() == put_seq(
                    old(self).spec_local(),
                    query.text@,
                    response@,
                    old(self).spec_expiry(now_ms),
                    old(self).spec_capacity(),
                )
            },
            response@.sources_succeeded == 0 ==> w is None && final(self).spec_local() == old(
                self,
            ).spec_local(),
    {
        if response.sources_succeeded >= 1 {
            Option::Some(self.cache.set(&query.text, response, RESPONSE_CACHE_TTL_SECS, now_ms))
        } else {
            Option::None
        }
    }

    /// One whole orchestration pass over outcomes the runtime already
    /// holds: cache lookup (local, then the given shared answer), and on a
    /// miss the fan-out — selection, settlement of the given per-source
    /// outcomes (in selection order), reduction, and the conditional cache
    /// write. `elapsed_ms` is the measured wall-clock span of the
    /// dispatch-and-collect phase.
    pub fn fetch_from_sources(
        &mut self,
        query: &Query,
        shared: &SharedGetOutcome,
        events: &Vec<FetchOutcome>,
        now_ms: u64,
        elapsed_ms: u64,
    ) -> (out: (QueryResponse, Option<SharedWrite>))
        requires
            old(self).wf(),
            lookup_seq(old(self).spec_local(), query.text@, now_ms) is None && shared_yield(
                *shared,
            ) is None ==> events@.len() == selected_spec(old(self).spec_adapters(), query).len(),
        ensures
            final(self).wf(),
            final(self).spec_adapters() == old(self).spec_adapters(),
            final(self).spec_l1_ttl_ms() == old(self).spec_l1_ttl_ms(),
            final(self).spec_capacity() == old(self).spec_capacity(),
            ({
                let m = lookup_seq(old(self).spec_local(), query.text@, now_ms);
                let sh = shared_yield(*shared);
                &&& (m matches Option::Some(v) ==> out.0@ == served_spec(v) && out.1 is None
                    && final(self).spec_local() == old(self).spec_local())
                &&& (m is None ==> (sh matches Option::Some(v) ==> out.0@ == served_spec(v)
                    && out.1 is None && final(self).spec_local() == put_seq(
                    old(self).spec_local(),
                    query.text@,
                    v,
                    old(self).spec_expiry(now_ms),
                    old(self).spec_capacity(),
                )))
                &&& (m is None && sh is None ==> {
                    let rs = fanout_results_spec(old(self).spec_adapters(), query, events@);
                    &&& out.0@.results == rs
                    &&& out.0@.sources_queried == rs.len()
                    &&& out.0@.sources_succeeded == count_successes(rs)
                    &&& out.0@.latency_ms == elapsed_ms
                    &&& out.0@.cache_hit == false
                    &&& out.0@.query_id.len() == 36
                    &&& (count_successes(rs) >= 1 ==> {
                        &&& out.1 matches Option::Some(sw)
                        &&& sw.key@ == "query:"@ + query.text@
                        &&& sw.payload@ == crate::codec::emit_resp(out.0@)
                        &&& sw.ttl_secs == RESPONSE_CACHE_TTL_SECS
                        &&& final(self).spec_local() == put_seq(
                            old(self).spec_local(),
                            query.text@,
                            out.0@,
                            old(self).spec_expiry(now_ms),
                            old(self).spec_capacity(),
                        )
                    })
                    &&& (count_successes(rs) == 0 ==> out.1 is None && final(self).spec_local()
                        == old(self).spec_local())
                })
            }),
    {
        if let Option::Some(cached) = self.lookup_local(query, now_ms) {
            return (mark_cache_hit(cached), Option::None);
        }
        if let Option::Some(cached) = self.absorb_shared(query, shared, now_ms) {
            return (mark_cache_hit(cached), Option::None);
        }
        let selected = self.select_sources(query);
        let ghost sel = selected_spec(old(self).spec_adapters(), query);
        let ghost rs = fanout_results_spec(old(self).spec_adapters(), query, events@);
        proof {
            assert(selected@ == sel);
            assert forall|t: int| 0 <= t < rs.len() implies #[trigger] rs[t] == settle_spec(
                sel[t].spec_name(),
                sel[t].spec_timeout_ms(),
                events@[t],
            ) by {}
        }
        let mut results: Vec<SourceResult> = Vec::new();
        let mut i: usize = 0;
        while i < selected.len()
            invariant
                i <= selected.len(),
                selected@ == sel,
                events@.len() == sel.len(),
                rs.len() == sel.len(),
                forall|t: int|
                    0 <= t < rs.len() ==> #[trigger] rs[t] == settle_spec(
                        sel[t].spec_name(),
                        sel[t].spec_timeout_ms(),
                        events@[t],
                    ),
                results@.len() == i as int,
                forall|j: int| 0 <= j < i ==> results@[j]@ == rs[j],
            decreases selected.len() - i,
        {
            let name = selected[i].name();
            let timeout_ms = selected[i].timeout_ms();
            let settled = settle_fetch(&name, timeout_ms, &events[i]);
            results.push(settled);
            proof {
                assert(results@[i as int]@ == rs[i as int]);
            }
            i = i + 1;
        }
        proof {
            assert(view_result_seq(results@) =~= rs);
        }
        let response = reduce(fresh_query_id(), results, elapsed_ms);
        let w = self.record_response(query, &response, now_ms);
        (response, w)
    }
}

/// Law: every selected source was admitted by the query's explicit source
/// list and accepted the query in `can_handle`; a source whose
/// `can_handle` returns false is never selected, so it contributes no
/// result to the fan-out.
pub proof fn lemma_selected_sources_wanted(adapters: Seq<AnySource>, q: &Query, i: int)
    requires
        0 <= i < selected_spec(adapters, q).len(),
    ensures
        wanted(selected_spec(adapters, q)[i], q),
        selected_spec(adapters, q)[i].applicable(q),
        adapters.contains(selected_spec(adapters, q)[i]),
    decreases adapters.len(),
{
    let sel = selected_spec(adapters, q);
    if adapters.len() > 0 {
        let rest = selected_spec(adapters.drop_last(), q);
        if wanted(adapters.last(), q) && i == rest.len() {
            assert(sel[i] == adapters.last());
            assert(adapters[adapters.len() - 1] == adapters.last());
        } else {
            lemma_selected_sources_wanted(adapters.drop_last(), q, i);
            let x = selected_spec(adapters.drop_last(), q)[i];
            let j = choose|j: int|
                0 <= j < adapters.drop_last().len() && adapters.drop_last()[j] == x;
            assert(adapters[j] == x);
        }
    }
}

/// Law: each slot of a fan-out's result list comes from the selected
/// source of the same slot; when that source's fetch did not complete on
/// its own, the synthesized result carries the selected source's name.
pub proof fn lemma_results_from_selected(
    adapters: Seq<AnySource>,
    q: &Query,
    events: Seq<FetchOutcome>,
    i: int,
)
    requires
        0 <= i < fanout_results_spec(adapters, q, events).len(),
    ensures
        selected_spec(adapters, q)[i].applicable(q),
        !(events[i] is Completed) ==> fanout_results_spec(adapters, q, events)[i].source
            == selected_spec(adapters, q)[i].spec_name(),
{
    lemma_selected_sources_wanted(adapters, q, i);
}

/// Law: a source that never answers within its deadline yields a failed
/// result whose elapsed time is the deadline itself and whose error
/// message names the deadline's millisecond value in decimal.
pub proof fn lemma_timeout_result(name: Seq<char>, timeout_ms: u64)
    ensures
        ({
            let r = settle_spec(name, timeout_ms, FetchOutcome::TimedOut);
            let digits = crate::text::dec_chars(timeout_ms as nat);
            &&& r.success == false
            &&& r.source == name
            &&& r.latency_ms == timeout_ms
            &&& r.error matches Option::Some(msg) && msg.subrange(14, 14 + digits.len() as int)
                == digits
        }),
{
    reveal_strlit("Timeout after ");
    reveal_strlit("ms");
    let digits = crate::text::dec_chars(timeout_ms as nat);
    let msg = message_spec(AdapterError::Timeout(timeout_ms));
    assert("Timeout after "@.len() == 14);
    assert(msg.subrange(14, 14 + digits.len() as int) =~= digits);
}

/// Law (idempotence): once a response with at least one success has been
/// recorded under a query's text, an identical query that reaches the
/// cache before the entry expires is served from the local tier: the
/// lookup yields exactly the recorded response, and serving it keeps its
/// results and counters while raising the cache-hit flag.
pub proof fn lemma_repeat_query_hits_cache(
    local: Seq<CacheEntryV>,
    key: Seq<char>,
    resp: QueryResponseV,
    expires_at_ms: u64,
    cap: nat,
    now2_ms: u64,
)
    requires
        now2_ms < expires_at_ms,
    ensures
        ({
            let after = put_seq(local, key, resp, expires_at_ms, cap);
            &&& lookup_seq(after, key, now2_ms) == Option::Some(resp)
            &&& served_spec(resp).results == resp.results
            &&& served_spec(resp).sources_queried == resp.sources_queried
            &&& served_spec(resp).sources_succeeded == resp.sources_succeeded
            &&& served_spec(resp).cache_hit == true
        }),
{
    crate::store::lemma_lookup_after_put(local, key, resp, expires_at_ms, cap, now2_ms);
}

} // verus!
