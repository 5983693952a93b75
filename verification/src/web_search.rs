//! Web-search results and the request that produces them.
use vstd::prelude::*;

verus! {

/// The search endpoint; the escaped query is appended to it.
pub const SEARCH_ENDPOINT: &'static str = "http://localhost:8080/search?format=json&q=";

/// The results of a web search for a query.
#[derive(Debug)]
pub struct SearchResults {
    pub query: String,
    pub results: Vec<SearchResult>,
}

/// One result of a web search.
#[derive(Debug)]
pub struct SearchResult {
    pub title: String,
    pub content: String,
    pub url: String,
}

/// Builds the address of a search for a query that has already been escaped for
/// use in a URL component.
pub fn search_url(escaped_query: &str) -> (url: String)
    ensures
        url@ == SEARCH_ENDPOINT@ + escaped_query@,
{
    let mut url = String::from_str(SEARCH_ENDPOINT);
    url.append(escaped_query);
    url
}

} // verus!
