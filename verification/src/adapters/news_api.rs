//! News headlines adapter.
//!
//! The news API is not wired up yet: `fetch` answers with a fixed failure
//! result.

use crate::models::{AdapterError, DataSourceAdapter, Query, SourceResult, SourceResultV};
use crate::text::str_eq;
use vstd::prelude::*;

verus! {

pub struct NewsApiAdapter;

impl NewsApiAdapter {
    pub fn new() -> (r: Self) {
        NewsApiAdapter
    }

    /// The fixed placeholder answer of the not-yet-wired news call.
    pub open spec fn placeholder_spec(&self) -> SourceResultV {
        SourceResultV {
            source: self.spec_name(),
            success: false,
            latency_ms: 0,
            data: Option::None,
            error: Option::Some("Not implemented yet"@),
            confidence: 0,
            relevance: 0,
        }
    }

    /// Produces this source's answer for `query`. No news API is wired up
    /// yet, so the answer is a fixed failure result.
    pub fn fetch(&self, query: &Query) -> (r: Result<SourceResult, AdapterError>)
        ensures
            r matches Ok(res) && res@ == self.placeholder_spec(),
    {
        Ok(
            SourceResult {
                source: self.name(),
                success: false,
                latency_ms: 0,
                data: Option::None,
                error: Option::Some("Not implemented yet".to_owned()),
                confidence: 0,
                relevance: 0,
            },
        )
    }
}

impl Clone for NewsApiAdapter {
    fn clone(&self) -> (r: Self)
        ensures
            r == *self,
    {
        NewsApiAdapter
    }
}

impl DataSourceAdapter for NewsApiAdapter {
    open spec fn spec_name(&self) -> Seq<char> {
        "news_api"@
    }

    open spec fn applicable(&self, q: &Query) -> bool {
        q.intent@ == "news"@ || q.intent@ == "current_events"@
    }

    open spec fn spec_rate_limit(&self) -> u32 {
        100
    }

    open spec fn spec_timeout_ms(&self) -> u64 {
        500
    }

    fn name(&self) -> (r: String) {
        "news_api".to_owned()
    }

    fn can_handle(&self, query: &Query) -> (r: bool) {
        str_eq(query.intent.as_str(), "news") || str_eq(query.intent.as_str(), "current_events")
    }

    fn rate_limit(&self) -> (r: u32) {
        100
    }

    fn timeout_ms(&self) -> (r: u64) {
        500
    }
}

} // verus!
