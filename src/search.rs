use vstd::prelude::*;

use crate::error::WikiError;

verus! {

/// One article that the search endpoint listed.
#[derive(Clone, Debug, PartialEq, Eq)]
pub struct SearchResult {
    pub title: String,
}

/// The list of results, best match first.
#[derive(Clone, Debug, PartialEq, Eq)]
pub struct Query {
    pub search: Vec<SearchResult>,
}

/// What the search endpoint answers: `{"query": {"search": [{"title": ...}, ...]}}`.
#[derive(Clone, Debug, PartialEq, Eq)]
pub struct SearchResponse {
    pub query: Query,
}

impl View for SearchResponse {
    /// The titles of the results, in the order listed.
    type V = Seq<Seq<char>>;

    open spec fn view(&self) -> Seq<Seq<char>> {
        self.query.search@.map_values(|r: SearchResult| r.title@)
    }
}

/// The article a search resolves to: the first title listed, if there is one.
pub open spec fn resolved_title(titles: Seq<Seq<char>>) -> Result<Seq<char>, WikiError> {
    if titles.len() == 0 {
        Err(WikiError::NoResults)
    } else {
        Ok(titles[0])
    }
}

/// The title of the best-matching article, or `NoResults` where the list is empty.
pub fn first_title(response: &SearchResponse) -> (r: Result<String, WikiError>)
    ensures
        match r {
            Ok(t) => resolved_title(response@) == Ok::<Seq<char>, WikiError>(t@),
            Err(e) => resolved_title(response@) == Err::<Seq<char>, WikiError>(e),
        },
{
    if response.query.search.len() == 0 {
        Err(WikiError::NoResults)
    } else {
        Ok(response.query.search[0].title.clone())
    }
}

} // verus!
