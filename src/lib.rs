//! Looks a phrase up in an online encyclopedia and reports the summary of the
//! best-matching article.
//!
//! The library holds the decisions of the lookup: how the search phrase and the
//! request addresses are built, which search result is taken, how a summary is
//! turned into the text shown, and the order in which the steps run, as a state
//! machine that a driver feeds with what the network answered.
mod error;
mod pipeline;
mod query;
mod request;
mod search;
mod summary;

pub use error::WikiError;
pub use pipeline::{
    accepts, begin, law_failed_status_halts, law_fetch_only_after_search,
    law_no_arguments_no_network, step, Action, ActionModel, Event, EventModel, Phase, Pipeline,
};
pub use query::{build_query, join_args, joined, usage};
pub use request::{
    is_success, search_url, search_url_of, status_line, status_line_of, success_status,
    summary_url, summary_url_of,
};
pub use search::{first_title, resolved_title, Query, SearchResponse, SearchResult};
pub use summary::{
    extract_or_placeholder, is_disambiguation, parse_response, render, Rendered, RenderedModel,
    Summary, SummaryModel, Tone,
};
