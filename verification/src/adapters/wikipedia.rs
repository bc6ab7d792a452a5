//! Wikipedia adapter: free knowledge source, no API key required.
//!
//! The network fetch itself is performed by the embedding application; this
//! module holds everything about the call that is plain computation: which
//! term is searched for, and the exact request URLs.

use crate::models::{view_opt_string, DataSourceAdapter, Query};
use crate::text::str_eq;
use vstd::prelude::*;

verus! {

/// What `urlencoding::encode` returns for a given string; a function of the
/// characters alone.
pub uninterp spec fn url_encoded(s: Seq<char>) -> Seq<char>;

/// Relies on `urlencoding::encode`: percent-encodes every byte outside the
/// unreserved URL set; the result depends on the input characters alone.
#[verifier::external_body]
fn encode_component(s: &str) -> (r: String)
    ensures
        r@ == url_encoded(s@),
{
    urlencoding::encode(s).into_owned()
}

/// The value under the first entity pair whose name equals `key`.
pub open spec fn entity_lookup(entities: Seq<(String, String)>, key: Seq<char>) -> Option<
    Seq<char>,
>
    decreases entities.len(),
{
    if entities.len() == 0 {
        Option::None
    } else if entities[0].0@ == key {
        Option::Some(entities[0].1@)
    } else {
        entity_lookup(entities.drop_first(), key)
    }
}

/// Looks `key` up among the query's extracted entities.
pub fn entity_get(entities: &Vec<(String, String)>, key: &str) -> (r: Option<String>)
    ensures
        view_opt_string(r) == entity_lookup(entities@, key@),
{
    let mut i: usize = 0;
    proof {
        assert(entities@.skip(0) =~= entities@);
    }
    while i < entities.len()
        invariant
            i <= entities.len(),
            entity_lookup(entities@, key@) == entity_lookup(entities@.skip(i as int), key@),
        decreases entities.len() - i,
    {
        proof {
            assert(entities@.skip(i as int).drop_first() =~= entities@.skip(i as int + 1));
        }
        if str_eq(entities[i].0.as_str(), key) {
            return Option::Some(entities[i].1.clone());
        }
        i = i + 1;
    }
    Option::None
}

/// The term the adapter searches for: the extracted "topic" entity if
/// present, else the "subject" entity, else the raw query text.
pub open spec fn search_term_spec(q: &Query) -> Seq<char> {
    match entity_lookup(q.entities@, "topic"@) {
        Option::Some(v) => v,
        Option::None => match entity_lookup(q.entities@, "subject"@) {
            Option::Some(v) => v,
            Option::None => q.text@,
        },
    }
}

/// Extracts the search term from a query.
pub fn search_term(q: &Query) -> (r: String)
    ensures
        r@ == search_term_spec(q),
{
    match entity_get(&q.entities, "topic") {
        Option::Some(v) => v,
        Option::None => match entity_get(&q.entities, "subject") {
            Option::Some(v) => v,
            Option::None => q.text.clone(),
        },
    }
}

pub struct WikipediaAdapter {
    /// Base of the REST endpoint used for article summaries.
    pub base_url: String,
}

impl WikipediaAdapter {
    pub fn new() -> (r: Self)
        ensures
            r.base_url@ == "https://en.wikipedia.org/api/rest_v1"@,
    {
        WikipediaAdapter { base_url: "https://en.wikipedia.org/api/rest_v1".to_owned() }
    }

    /// The full-text search URL for `term`.
    pub fn search_url(&self, term: &str) -> (r: String)
        ensures
            r@ == "https://en.wikipedia.org/w/api.php?action=query&format=json&list=search&srsearch="@
                + url_encoded(term@),
    {
        let enc = encode_component(term);
        let r = crate::text::concat2(
            "https://en.wikipedia.org/w/api.php?action=query&format=json&list=search&srsearch=",
            enc.as_str(),
        );
        r
    }

    /// The article summary URL for `title`.
    pub fn summary_url(&self, title: &str) -> (r: String)
        ensures
            r@ == self.base_url@ + "/page/summary/"@ + url_encoded(title@),
    {
        let enc = encode_component(title);
        let r = crate::text::concat3(self.base_url.as_str(), "/page/summary/", enc.as_str());
        r
    }
}

impl Clone for WikipediaAdapter {
    fn clone(&self) -> (r: Self)
        ensures
            r == *self,
    {
        WikipediaAdapter { base_url: self.base_url.clone() }
    }
}

impl DataSourceAdapter for WikipediaAdapter {
    open spec fn spec_name(&self) -> Seq<char> {
        "wikipedia"@
    }

    /// Wikipedia is good for knowledge, definitions and facts.
    open spec fn applicable(&self, q: &Query) -> bool {
        ||| q.intent@ == "knowledge"@
        ||| q.intent@ == "definition"@
        ||| q.intent@ == "fact"@
        ||| q.intent@ == "search"@
        ||| q.intent@ == "who"@
        ||| q.intent@ == "what"@
        ||| q.intent@ == "when"@
        ||| q.intent@ == "where"@
    }

    open spec fn spec_rate_limit(&self) -> u32 {
        200
    }

    open spec fn spec_timeout_ms(&self) -> u64 {
        500
    }

    fn name(&self) -> (r: String) {
        "wikipedia".to_owned()
    }

    fn can_handle(&self, query: &Query) -> (r: bool) {
        let intent = query.intent.as_str();
        str_eq(intent, "knowledge") || str_eq(intent, "definition") || str_eq(intent, "fact")
            || str_eq(intent, "search") || str_eq(intent, "who") || str_eq(intent, "what")
            || str_eq(intent, "when") || str_eq(intent, "where")
    }

    fn rate_limit(&self) -> (r: u32) {
        200
    }

    fn timeout_ms(&self) -> (r: u64) {
        500
    }
}

} // verus!
