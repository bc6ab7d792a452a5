//! Weather adapters: WeatherAPI.com and OpenWeatherMap.
//!
//! Neither provider is wired up yet: both `fetch` operations answer with a
//! fixed failure result.

use crate::models::{AdapterError, DataSourceAdapter, Query, SourceResult, SourceResultV};
use crate::text::str_eq;
use vstd::prelude::*;

verus! {

pub struct WeatherApiAdapter;

impl WeatherApiAdapter {
    pub fn new() -> (r: Self) {
        WeatherApiAdapter
    }

    /// The fixed placeholder answer of the not-yet-wired weather call.
    pub open spec fn placeholder_spec(&self) -> SourceResultV {
        SourceResultV {
            source: self.spec_name(),
            success: false,
            latency_ms: 0,
            data: Option::None,
            error: Option::Some("Not implemented yet"@),
            confidence: 0,
            relevance: 0,
        }
    }

    /// Produces this source's answer for `query`. No weather API is wired
    /// up yet, so the answer is a fixed failure result.
    pub fn fetch(&self, query: &Query) -> (r: Result<SourceResult, AdapterError>)
        ensures
            r matches Ok(res) && res@ == self.placeholder_spec(),
    {
        Ok(
            SourceResult {
                source: self.name(),
                success: false,
                latency_ms: 0,
                data: Option::None,
                error: Option::Some("Not implemented yet".to_owned()),
                confidence: 0,
                relevance: 0,
            },
        )
    }
}

impl Clone for WeatherApiAdapter {
    fn clone(&self) -> (r: Self)
        ensures
            r == *self,
    {
        WeatherApiAdapter
    }
}

impl DataSourceAdapter for WeatherApiAdapter {
    open spec fn spec_name(&self) -> Seq<char> {
        "weather_api"@
    }

    open spec fn applicable(&self, q: &Query) -> bool {
        q.intent@ == "weather"@
    }

    open spec fn spec_rate_limit(&self) -> u32 {
        100
    }

    open spec fn spec_timeout_ms(&self) -> u64 {
        500
    }

    fn name(&self) -> (r: String) {
        "weather_api".to_owned()
    }

    fn can_handle(&self, query: &Query) -> (r: bool) {
        str_eq(query.intent.as_str(), "weather")
    }

    fn rate_limit(&self) -> (r: u32) {
        100
    }

    fn timeout_ms(&self) -> (r: u64) {
        500
    }
}

pub struct OpenWeatherAdapter;

impl OpenWeatherAdapter {
    pub fn new() -> (r: Self) {
        OpenWeatherAdapter
    }

    /// The fixed placeholder answer of the not-yet-wired weather call.
    pub open spec fn placeholder_spec(&self) -> SourceResultV {
        SourceResultV {
            source: self.spec_name(),
            success: false,
            latency_ms: 0,
            data: Option::None,
            error: Option::Some("Not implemented yet"@),
            confidence: 0,
            relevance: 0,
        }
    }

    /// Produces this source's answer for `query`. No weather API is wired
    /// up yet, so the answer is a fixed failure result.
    pub fn fetch(&self, query: &Query) -> (r: Result<SourceResult, AdapterError>)
        ensures
            r matches Ok(res) && res@ == self.placeholder_spec(),
    {
        Ok(
            SourceResult {
                source: self.name(),
                success: false,
                latency_ms: 0,
                data: Option::None,
                error: Option::Some("Not implemented yet".to_owned()),
                confidence: 0,
                relevance: 0,
            },
        )
    }
}

impl Clone for OpenWeatherAdapter {
    fn clone(&self) -> (r: Self)
        ensures
            r == *self,
    {
        OpenWeatherAdapter
    }
}

impl DataSourceAdapter for OpenWeatherAdapter {
    open spec fn spec_name(&self) -> Seq<char> {
        "openweather"@
    }

    open spec fn applicable(&self, q: &Query) -> bool {
        q.intent@ == "weather"@
    }

    open spec fn spec_rate_limit(&self) -> u32 {
        100
    }

    open spec fn spec_timeout_ms(&self) -> u64 {
        500
    }

    fn name(&self) -> (r: String) {
        "openweather".to_owned()
    }

    fn can_handle(&self, query: &Query) -> (r: bool) {
        str_eq(query.intent.as_str(), "weather")
    }

    fn rate_limit(&self) -> (r: u32) {
        100
    }

    fn timeout_ms(&self) -> (r: u64) {
        500
    }
}

} // verus!
