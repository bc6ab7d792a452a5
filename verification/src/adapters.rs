//! Data source adapters: one module per concrete source, plus the closed
//! registry type `AnySource` over which the orchestrator fans out.

pub mod google_search;
pub mod news_api;
pub mod weather_api;
pub mod wikipedia;

pub use google_search::GoogleSearchAdapter;
pub use news_api::NewsApiAdapter;
pub use weather_api::{OpenWeatherAdapter, WeatherApiAdapter};
pub use wikipedia::WikipediaAdapter;

use crate::models::{DataSourceAdapter, Query};
use vstd::prelude::*;

verus! {

/// One registered data source. New sources are added by giving them a
/// variant here and registering them at startup; the orchestrator itself
/// never changes.
pub enum AnySource {
    GoogleSearch(GoogleSearchAdapter),
    Wikipedia(WikipediaAdapter),
    WeatherApi(WeatherApiAdapter),
    OpenWeather(OpenWeatherAdapter),
    NewsApi(NewsApiAdapter),
}

impl Clone for AnySource {
    fn clone(&self) -> (r: Self)
        ensures
            r == *self,
    {
        match self {
            AnySource::GoogleSearch(a) => AnySource::GoogleSearch(a.clone()),
            AnySource::Wikipedia(a) => AnySource::Wikipedia(a.clone()),
            AnySource::WeatherApi(a) => AnySource::WeatherApi(a.clone()),
            AnySource::OpenWeather(a) => AnySource::OpenWeather(a.clone()),
            AnySource::NewsApi(a) => AnySource::NewsApi(a.clone()),
        }
    }
}

impl DataSourceAdapter for AnySource {
    open spec fn spec_name(&self) -> Seq<char> {
        match self {
            AnySource::GoogleSearch(a) => a.spec_name(),
            AnySource::Wikipedia(a) => a.spec_name(),
            AnySource::WeatherApi(a) => a.spec_name(),
            AnySource::OpenWeather(a) => a.spec_name(),
            AnySource::NewsApi(a) => a.spec_name(),
        }
    }

    open spec fn applicable(&self, q: &Query) -> bool {
        match self {
            AnySource::GoogleSearch(a) => a.applicable(q),
            AnySource::Wikipedia(a) => a.applicable(q),
            AnySource::WeatherApi(a) => a.applicable(q),
            AnySource::OpenWeather(a) => a.applicable(q),
            AnySource::NewsApi(a) => a.applicable(q),
        }
    }

    open spec fn spec_rate_limit(&self) -> u32 {
        match self {
            AnySource::GoogleSearch(a) => a.spec_rate_limit(),
            AnySource::Wikipedia(a) => a.spec_rate_limit(),
            AnySource::WeatherApi(a) => a.spec_rate_limit(),
            AnySource::OpenWeather(a) => a.spec_rate_limit(),
            AnySource::NewsApi(a) => a.spec_rate_limit(),
        }
    }

    open spec fn spec_timeout_ms(&self) -> u64 {
        match self {
            AnySource::GoogleSearch(a) => a.spec_timeout_ms(),
            AnySource::Wikipedia(a) => a.spec_timeout_ms(),
            AnySource::WeatherApi(a) => a.spec_timeout_ms(),
            AnySource::OpenWeather(a) => a.spec_timeout_ms(),
            AnySource::NewsApi(a) => a.spec_timeout_ms(),
        }
    }

    fn name(&self) -> (r: String) {
        match self {
            AnySource::GoogleSearch(a) => a.name(),
            AnySource::Wikipedia(a) => a.name(),
            AnySource::WeatherApi(a) => a.name(),
            AnySource::OpenWeather(a) => a.name(),
            AnySource::NewsApi(a) => a.name(),
        }
    }

    fn can_handle(&self, query: &Query) -> (r: bool) {
        match self {
            AnySource::GoogleSearch(a) => a.can_handle(query),
            AnySource::Wikipedia(a) => a.can_handle(query),
            AnySource::WeatherApi(a) => a.can_handle(query),
            AnySource::OpenWeather(a) => a.can_handle(query),
            AnySource::NewsApi(a) => a.can_handle(query),
        }
    }

    fn rate_limit(&self) -> (r: u32) {
        match self {
            AnySource::GoogleSearch(a) => a.rate_limit(),
            AnySource::Wikipedia(a) => a.rate_limit(),
            AnySource::WeatherApi(a) => a.rate_limit(),
            AnySource::OpenWeather(a) => a.rate_limit(),
            AnySource::NewsApi(a) => a.rate_limit(),
        }
    }

    fn timeout_ms(&self) -> (r: u64) {
        match self {
            AnySource::GoogleSearch(a) => a.timeout_ms(),
            AnySource::Wikipedia(a) => a.timeout_ms(),
            AnySource::WeatherApi(a) => a.timeout_ms(),
            AnySource::OpenWeather(a) => a.timeout_ms(),
            AnySource::NewsApi(a) => a.timeout_ms(),
        }
    }
}

} // verus!
