//! Google web search adapter (requires an API key).
//!
//! The search API itself is not wired up yet: `fetch` answers with a fixed
//! failure result until a key-bearing implementation exists.

use crate::models::{AdapterError, DataSourceAdapter, Query, SourceResult, SourceResultV};
use crate::text::str_eq;
use vstd::prelude::*;

verus! {

pub struct GoogleSearchAdapter {
    /// API key, handed in at registration; the process environment is read
    /// by the embedding application, not here.
    pub api_key: Option<String>,
}

impl GoogleSearchAdapter {
    pub fn new(api_key: Option<String>) -> (r: Self)
        ensures
            r.api_key == api_key,
    {
        GoogleSearchAdapter { api_key }
    }

    /// The fixed placeholder answer of the not-yet-wired search call.
    pub open spec fn placeholder_spec(&self) -> SourceResultV {
        SourceResultV {
            source: self.spec_name(),
            success: false,
            latency_ms: 0,
            data: Option::None,
            error: Option::Some("Not implemented yet - requires Google API key"@),
            confidence: 0,
            relevance: 0,
        }
    }

    /// Produces this source's answer for `query`. No search API is wired up
    /// yet, so the answer is a fixed failure result.
    pub fn fetch(&self, query: &Query) -> (r: Result<SourceResult, AdapterError>)
        ensures
            r matches Ok(res) && res@ == self.placeholder_spec(),
    {
        Ok(
            SourceResult {
                source: self.name(),
                success: false,
                latency_ms: 0,
                data: Option::None,
                error: Option::Some("Not implemented yet - requires Google API key".to_owned()),
                confidence: 0,
                relevance: 0,
            },
        )
    }
}

impl Clone for GoogleSearchAdapter {
    fn clone(&self) -> (r: Self)
        ensures
            r == *self,
    {
        GoogleSearchAdapter {
            api_key: match &self.api_key {
                Option::Some(k) => Option::Some(k.clone()),
                Option::None => Option::None,
            },
        }
    }
}

impl DataSourceAdapter for GoogleSearchAdapter {
    open spec fn spec_name(&self) -> Seq<char> {
        "google_search"@
    }

    open spec fn applicable(&self, q: &Query) -> bool {
        q.intent@ == "search"@ || q.intent@ == "web_search"@
    }

    open spec fn spec_rate_limit(&self) -> u32 {
        100
    }

    open spec fn spec_timeout_ms(&self) -> u64 {
        500
    }

    fn name(&self) -> (r: String) {
        "google_search".to_owned()
    }

    fn can_handle(&self, query: &Query) -> (r: bool) {
        str_eq(query.intent.as_str(), "search") || str_eq(query.intent.as_str(), "web_search")
    }

    fn rate_limit(&self) -> (r: u32) {
        100
    }

    fn timeout_ms(&self) -> (r: u64) {
        500
    }
}

} // verus!
