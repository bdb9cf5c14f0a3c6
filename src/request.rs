use vstd::prelude::*;

verus! {

/// Whether a response status is a success, that is within 200..=299.
pub open spec fn success_status(code: u16) -> bool {
    200 <= code < 300
}

/// Whether an endpoint that answered with `code` is to be read on.
pub fn is_success(code: u16) -> (r: bool)
    ensures
        r == success_status(code),
{
    200 <= code && code < 300
}

/// The address that asks the search endpoint for articles matching `query`,
/// with the phrase put in as it is.
pub open spec fn search_url_of(query: Seq<char>) -> Seq<char> {
    "https://en.wikipedia.org/w/api.php?action=query&list=search&srsearch="@ + query
        + "&format=json"@
}

/// The address of the summary of the article `title`, with the title put in as
/// it is.
pub open spec fn summary_url_of(title: Seq<char>) -> Seq<char> {
    "https://en.wikipedia.org/api/rest_v1/page/summary/"@ + title
}

/// What the progress line says while the summary of `title` is fetched.
pub open spec fn status_line_of(title: Seq<char>) -> Seq<char> {
    "Searching \""@ + title + "\""@
}

pub fn search_url(query: &str) -> (r: String)
    ensures
        r@ == search_url_of(query@),
{
    let mut r = String::from_str(
        "https://en.wikipedia.org/w/api.php?action=query&list=search&srsearch=",
    );
    r.append(query);
    r.append("&format=json");
    r
}

pub fn summary_url(title: &str) -> (r: String)
    ensures
        r@ == summary_url_of(title@),
{
    let mut r = String::from_str("https://en.wikipedia.org/api/rest_v1/page/summary/");
    r.append(title);
    r
}

pub fn status_line(title: &str) -> (r: String)
    ensures
        r@ == status_line_of(title@),
{
    let mut r = String::from_str("Searching \"");
    r.append(title);
    r.append("\"");
    r
}

} // verus!
