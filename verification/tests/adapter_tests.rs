use universal_connector::adapters::{
    GoogleSearchAdapter, NewsApiAdapter, OpenWeatherAdapter, WeatherApiAdapter, WikipediaAdapter,
};
use universal_connector::adapters::wikipedia::{search_term, entity_get};
use universal_connector::models::{DataSourceAdapter, Query};
use universal_connector::text::u64_to_dec;

fn query_with_entities(text: &str, intent: &str, entities: Vec<(&str, &str)>) -> Query {
    Query {
        text: text.to_string(),
        intent: intent.to_string(),
        entities: entities
            .into_iter()
            .map(|(k, v)| (k.to_string(), v.to_string()))
            .collect(),
        sources: Vec::new(),
        context: None,
        timeout_ms: None,
    }
}

#[test]
fn adapter_names_and_hints() {
    assert_eq!(GoogleSearchAdapter::new(None).name(), "google_search");
    assert_eq!(WikipediaAdapter::new().name(), "wikipedia");
    assert_eq!(WeatherApiAdapter::new().name(), "weather_api");
    assert_eq!(OpenWeatherAdapter::new().name(), "openweather");
    assert_eq!(NewsApiAdapter::new().name(), "news_api");
    assert_eq!(WikipediaAdapter::new().rate_limit(), 200);
    assert_eq!(WikipediaAdapter::new().timeout_ms(), 500);
    assert_eq!(NewsApiAdapter::new().rate_limit(), 100);
    assert_eq!(NewsApiAdapter::new().timeout_ms(), 500);
}

#[test]
fn can_handle_follows_intent() {
    let wiki = WikipediaAdapter::new();
    for intent in ["knowledge", "definition", "fact", "search", "who", "what", "when", "where"] {
        assert!(wiki.can_handle(&query_with_entities("q", intent, vec![])));
    }
    assert!(!wiki.can_handle(&query_with_entities("q", "weather", vec![])));

    let google = GoogleSearchAdapter::new(None);
    assert!(google.can_handle(&query_with_entities("q", "search", vec![])));
    assert!(google.can_handle(&query_with_entities("q", "web_search", vec![])));
    assert!(!google.can_handle(&query_with_entities("q", "weather", vec![])));

    assert!(WeatherApiAdapter::new().can_handle(&query_with_entities("q", "weather", vec![])));
    assert!(OpenWeatherAdapter::new().can_handle(&query_with_entities("q", "weather", vec![])));
    assert!(!OpenWeatherAdapter::new().can_handle(&query_with_entities("q", "news", vec![])));

    let news = NewsApiAdapter::new();
    assert!(news.can_handle(&query_with_entities("q", "news", vec![])));
    assert!(news.can_handle(&query_with_entities("q", "current_events", vec![])));
    assert!(!news.can_handle(&query_with_entities("q", "search", vec![])));
}

#[test]
fn placeholder_fetches_fail_politely() {
    let q = query_with_entities("q", "search", vec![]);
    let r = GoogleSearchAdapter::new(None).fetch(&q).unwrap();
    assert!(!r.success);
    assert_eq!(r.source, "google_search");
    assert_eq!(
        r.error,
        Some("Not implemented yet - requires Google API key".to_string())
    );
    let r = NewsApiAdapter::new().fetch(&q).unwrap();
    assert!(!r.success);
    assert_eq!(r.error, Some("Not implemented yet".to_string()));
    let r = WeatherApiAdapter::new().fetch(&q).unwrap();
    assert_eq!(r.source, "weather_api");
    let r = OpenWeatherAdapter::new().fetch(&q).unwrap();
    assert_eq!(r.source, "openweather");
}

#[test]
fn wikipedia_search_term_prefers_entities() {
    let q = query_with_entities(
        "tell me about paris",
        "knowledge",
        vec![("topic", "Paris"), ("subject", "France")],
    );
    assert_eq!(search_term(&q), "Paris");
    let q = query_with_entities("tell me", "knowledge", vec![("subject", "France")]);
    assert_eq!(search_term(&q), "France");
    let q = query_with_entities("tell me about rome", "knowledge", vec![]);
    assert_eq!(search_term(&q), "tell me about rome");
}

#[test]
fn entity_get_finds_first_match() {
    let q = query_with_entities("t", "knowledge", vec![("a", "1"), ("b", "2"), ("a", "3")]);
    assert_eq!(entity_get(&q.entities, "a"), Some("1".to_string()));
    assert_eq!(entity_get(&q.entities, "b"), Some("2".to_string()));
    assert_eq!(entity_get(&q.entities, "c"), None);
}

#[test]
fn wikipedia_urls_are_percent_encoded() {
    let wiki = WikipediaAdapter::new();
    let url = wiki.search_url("capital of France");
    assert_eq!(
        url,
        "https://en.wikipedia.org/w/api.php?action=query&format=json&list=search&srsearch=capital%20of%20France"
    );
    let summary = wiki.summary_url("Paris (Texas)");
    assert_eq!(
        summary,
        "https://en.wikipedia.org/api/rest_v1/page/summary/Paris%20%28Texas%29"
    );
}

#[test]
fn decimal_rendering() {
    assert_eq!(u64_to_dec(0), "0");
    assert_eq!(u64_to_dec(7), "7");
    assert_eq!(u64_to_dec(500), "500");
    assert_eq!(u64_to_dec(18_446_744_073_709_551_615), "18446744073709551615");
}
