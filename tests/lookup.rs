use wiki_cli::{
    build_query, first_title, is_success, join_args, parse_response, search_url, status_line,
    summary_url, usage, Action, Event, Phase, Pipeline, Query, Rendered, SearchResponse,
    SearchResult, Summary, Tone, WikiError,
};

fn strings(words: &[&str]) -> Vec<String> {
    words.iter().map(|w| w.to_string()).collect()
}

fn response(titles: &[&str]) -> SearchResponse {
    SearchResponse {
        query: Query {
            search: titles.iter().map(|t| SearchResult { title: t.to_string() }).collect(),
        },
    }
}

fn summary(kind: &str, extract: Option<&str>) -> Summary {
    Summary { response_type: kind.to_string(), extract: extract.map(|e| e.to_string()) }
}

const AMBIGUOUS: &str = "Ambiguous, please add further information. E.g. \"<term> engineering\".";

#[test]
fn arguments_are_joined_by_single_spaces() {
    assert_eq!(join_args(&strings(&["rust", "programming", "language"])), "rust programming language");
    assert_eq!(join_args(&strings(&["cat"])), "cat");
    assert_eq!(join_args(&strings(&["", "a"])), " a");
}

#[test]
fn query_is_absent_without_arguments() {
    assert_eq!(build_query(&Vec::new()), None);
    assert_eq!(build_query(&strings(&["a", "b"])), Some("a b".to_string()));
}

#[test]
fn no_arguments_shows_usage_and_sends_nothing() {
    let (pipeline, action) = Pipeline::start(&Vec::new());
    assert_eq!(action, Action::ShowUsage);
    assert_eq!(pipeline.phase(), Phase::Done);
    assert!(!pipeline.accepts(&Event::Status { code: 200 }));
    assert!(!pipeline.accepts(&Event::Unreachable));
    assert_eq!(usage(), "Usage: wiki <args>");
}

#[test]
fn start_searches_for_the_joined_phrase() {
    let (pipeline, action) = Pipeline::start(&strings(&["black", "cat"]));
    assert_eq!(
        action,
        Action::Search {
            query: "black cat".to_string(),
            url: "https://en.wikipedia.org/w/api.php?action=query&list=search&srsearch=black cat&format=json"
                .to_string(),
        }
    );
    assert_eq!(pipeline.phase(), Phase::SearchSent);
}

#[test]
fn search_resolver_takes_the_first_title() {
    assert_eq!(first_title(&response(&["Cat", "Dog"])), Ok("Cat".to_string()));
}

#[test]
fn search_resolver_fails_without_results() {
    assert_eq!(first_title(&response(&[])), Err(WikiError::NoResults));
}

#[test]
fn standard_summary_gives_its_extract() {
    let r = parse_response(summary("standard", Some("A cat is a small carnivorous mammal.")));
    assert_eq!(
        r,
        Rendered { text: "A cat is a small carnivorous mammal.".to_string(), tone: Tone::Plain }
    );
}

#[test]
fn disambiguation_summary_gives_the_fixed_notice() {
    let r = parse_response(summary("disambiguation", Some("Cat may refer to...")));
    assert_eq!(r, Rendered { text: AMBIGUOUS.to_string(), tone: Tone::Warning });
    let r = parse_response(summary("disambiguation", None));
    assert_eq!(r.text, AMBIGUOUS);
}

#[test]
fn summary_without_extract_gives_the_placeholder() {
    let r = parse_response(summary("standard", None));
    assert_eq!(r, Rendered { text: "No extract available.".to_string(), tone: Tone::Plain });
}

#[test]
fn addresses_hold_the_text_as_given() {
    assert_eq!(
        search_url("cat"),
        "https://en.wikipedia.org/w/api.php?action=query&list=search&srsearch=cat&format=json"
    );
    assert_eq!(summary_url("Cat"), "https://en.wikipedia.org/api/rest_v1/page/summary/Cat");
    assert_eq!(status_line("Cat"), "Searching \"Cat\"");
}

#[test]
fn success_statuses_are_two_hundreds() {
    assert!(!is_success(199));
    assert!(is_success(200));
    assert!(is_success(299));
    assert!(!is_success(300));
    assert!(!is_success(404));
}

#[test]
fn failed_search_status_ends_the_run() {
    let (mut pipeline, _) = Pipeline::start(&strings(&["cat"]));
    let action = pipeline.handle(Event::Status { code: 404 });
    assert_eq!(action, Action::Abort { error: WikiError::Request { status: 404 } });
    assert_eq!(pipeline.phase(), Phase::Done);
    assert!(!pipeline.accepts(&Event::Found { response: response(&["Cat"]) }));
}

#[test]
fn failed_summary_status_ends_the_run() {
    let (mut pipeline, _) = Pipeline::start(&strings(&["cat"]));
    assert_eq!(pipeline.handle(Event::Status { code: 200 }), Action::ReadBody);
    pipeline.handle(Event::Found { response: response(&["Cat"]) });
    let action = pipeline.handle(Event::Status { code: 503 });
    assert_eq!(action, Action::Abort { error: WikiError::Request { status: 503 } });
    assert!(!pipeline.accepts(&Event::Summarized { summary: summary("standard", None) }));
}

#[test]
fn full_run_ends_with_the_extract() {
    let (mut pipeline, _) = Pipeline::start(&strings(&["cat"]));
    assert_eq!(pipeline.handle(Event::Status { code: 200 }), Action::ReadBody);
    assert_eq!(pipeline.phase(), Phase::SearchAnswered);
    let action = pipeline.handle(Event::Found { response: response(&["Cat", "Dog"]) });
    assert_eq!(
        action,
        Action::Fetch {
            title: "Cat".to_string(),
            url: "https://en.wikipedia.org/api/rest_v1/page/summary/Cat".to_string(),
            status_line: "Searching \"Cat\"".to_string(),
        }
    );
    assert_eq!(pipeline.phase(), Phase::SummarySent);
    assert_eq!(pipeline.handle(Event::Status { code: 200 }), Action::ReadBody);
    assert_eq!(pipeline.phase(), Phase::SummaryAnswered);
    let action = pipeline.handle(Event::Summarized { summary: summary("standard", Some("A cat.")) });
    assert_eq!(
        action,
        Action::Finish { output: Rendered { text: "A cat.".to_string(), tone: Tone::Plain } }
    );
    assert_eq!(pipeline.phase(), Phase::Done);
}

#[test]
fn empty_search_ends_with_no_results() {
    let (mut pipeline, _) = Pipeline::start(&strings(&["zzzz"]));
    pipeline.handle(Event::Status { code: 200 });
    let action = pipeline.handle(Event::Found { response: response(&[]) });
    assert_eq!(action, Action::Abort { error: WikiError::NoResults });
    assert_eq!(pipeline.phase(), Phase::Done);
}

#[test]
fn transport_and_decode_failures_end_the_run() {
    let (mut pipeline, _) = Pipeline::start(&strings(&["cat"]));
    assert_eq!(pipeline.handle(Event::Unreachable), Action::Abort { error: WikiError::Transport });
    assert_eq!(pipeline.phase(), Phase::Done);

    let (mut pipeline, _) = Pipeline::start(&strings(&["cat"]));
    pipeline.handle(Event::Status { code: 200 });
    assert_eq!(pipeline.handle(Event::Undecodable), Action::Abort { error: WikiError::Decode });
}

#[test]
fn events_out_of_turn_are_not_accepted() {
    let (pipeline, _) = Pipeline::start(&strings(&["cat"]));
    assert!(pipeline.accepts(&Event::Status { code: 500 }));
    assert!(!pipeline.accepts(&Event::Undecodable));
    assert!(!pipeline.accepts(&Event::Found { response: response(&["Cat"]) }));
    assert!(!pipeline.accepts(&Event::Summarized { summary: summary("standard", None) }));
}
