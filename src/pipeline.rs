use vstd::prelude::*;

use crate::error::WikiError;
use crate::query::{build_query, joined};
use crate::request::{
    is_success, search_url, search_url_of, status_line, status_line_of, success_status,
    summary_url, summary_url_of,
};
use crate::search::{first_title, resolved_title, SearchResponse};
use crate::summary::{parse_response, render, Rendered, RenderedModel, Summary, SummaryModel};

verus! {

/// Where a lookup stands.
#[derive(Clone, Copy, Debug, PartialEq, Eq, Structural)]
pub enum Phase {
    /// The search request is out; its status is awaited.
    SearchSent,
    /// The search succeeded; its decoded body is awaited.
    SearchAnswered,
    /// The summary request is out; its status is awaited.
    SummarySent,
    /// The summary request succeeded; its decoded body is awaited.
    SummaryAnswered,
    /// The run is over: nothing more is sent or taken.
    Done,
}

/// What the driver reports back after doing an action.
#[derive(Clone, Debug, PartialEq, Eq)]
pub enum Event {
    /// The endpoint answered with this status.
    Status { code: u16 },
    /// The request could not be sent or its body could not be read.
    Unreachable,
    /// The body was not JSON of the expected shape.
    Undecodable,
    /// The decoded body of the search.
    Found { response: SearchResponse },
    /// The decoded body of the summary.
    Summarized { summary: Summary },
}

pub enum EventModel {
    Status { code: u16 },
    Unreachable,
    Undecodable,
    Found { titles: Seq<Seq<char>> },
    Summarized { summary: SummaryModel },
}

impl View for Event {
    type V = EventModel;

    open spec fn view(&self) -> EventModel {
        match self {
            Event::Status { code } => EventModel::Status { code: *code },
            Event::Unreachable => EventModel::Unreachable,
            Event::Undecodable => EventModel::Undecodable,
            Event::Found { response } => EventModel::Found { titles: response@ },
            Event::Summarized { summary } => EventModel::Summarized { summary: summary@ },
        }
    }
}

/// What the driver is to do next.
#[derive(Clone, Debug, PartialEq, Eq)]
pub enum Action {
    /// Print the usage line and end with success.
    ShowUsage,
    /// Show the progress line and send the search request to `url`.
    Search { query: String, url: String },
    /// Read and decode the body of the response just received.
    ReadBody,
    /// Put `status_line` on the progress line and send the summary request to `url`.
    Fetch { title: String, url: String, status_line: String },
    /// Replace the progress line by the output and end with success.
    Finish { output: Rendered },
    /// End with this error.
    Abort { error: WikiError },
}

pub enum ActionModel {
    ShowUsage,
    Search { query: Seq<char>, url: Seq<char> },
    ReadBody,
    Fetch { title: Seq<char>, url: Seq<char>, status_line: Seq<char> },
    Finish { output: RenderedModel },
    Abort { error: WikiError },
}

impl View for Action {
    type V = ActionModel;

    open spec fn view(&self) -> ActionModel {
        match self {
            Action::ShowUsage => ActionModel::ShowUsage,
            Action::Search { query, url } => ActionModel::Search { query: query@, url: url@ },
            Action::ReadBody => ActionModel::ReadBody,
            Action::Fetch { title, url, status_line } => ActionModel::Fetch {
                title: title@,
                url: url@,
                status_line: status_line@,
            },
            Action::Finish { output } => ActionModel::Finish { output: output@ },
            Action::Abort { error } => ActionModel::Abort { error: *error },
        }
    }
}

/// Which events a phase awaits.
pub open spec fn accepts(phase: Phase, event: EventModel) -> bool {
    match phase {
        Phase::SearchSent | Phase::SummarySent => event is Status || event is Unreachable,
        Phase::SearchAnswered => event is Found || event is Unreachable || event is Undecodable,
        Phase::SummaryAnswered => event is Summarized || event is Unreachable
            || event is Undecodable,
        Phase::Done => false,
    }
}

/// How a run begins on the given arguments: with none, the usage line and the
/// end; else the search for the joined phrase.
pub open spec fn begin(args: Seq<Seq<char>>) -> (Phase, ActionModel) {
    if args.len() == 0 {
        (Phase::Done, ActionModel::ShowUsage)
    } else {
        (
            Phase::SearchSent,
            ActionModel::Search { query: joined(args), url: search_url_of(joined(args)) },
        )
    }
}

/// The next phase and action, for an event that the phase awaits.
pub open spec fn step(phase: Phase, event: EventModel) -> (Phase, ActionModel)
    recommends
        accepts(phase, event),
{
    match event {
        EventModel::Unreachable => (Phase::Done, ActionModel::Abort { error: WikiError::Transport }),
        EventModel::Undecodable => (Phase::Done, ActionModel::Abort { error: WikiError::Decode }),
        EventModel::Status { code } => if !success_status(code) {
            (Phase::Done, ActionModel::Abort { error: WikiError::Request { status: code } })
        } else if phase == Phase::SearchSent {
            (Phase::SearchAnswered, ActionModel::ReadBody)
        } else {
            (Phase::SummaryAnswered, ActionModel::ReadBody)
        },
        EventModel::Found { titles } => match resolved_title(titles) {
            Ok(t) => (
                Phase::SummarySent,
                ActionModel::Fetch { title: t, url: summary_url_of(t), status_line: status_line_of(t) },
            ),
            Err(e) => (Phase::Done, ActionModel::Abort { error: e }),
        },
        EventModel::Summarized { summary } => (
            Phase::Done,
            ActionModel::Finish { output: render(summary) },
        ),
    }
}

/// A lookup in progress: it tells the driver what to do and takes back what came of it.
#[derive(Debug)]
pub struct Pipeline {
    phase: Phase,
}

impl View for Pipeline {
    type V = Phase;

    closed spec fn view(&self) -> Phase {
        self.phase
    }
}

impl Pipeline {
    /// Starts a run on the command-line arguments (the program's name left out).
    pub fn start(args: &Vec<String>) -> (r: (Pipeline, Action))
        ensures
            (r.0@, r.1@) == begin(args@.map_values(|a: String| a@)),
    {
        match build_query(args) {
            None => (Pipeline { phase: Phase::Done }, Action::ShowUsage),
            Some(query) => {
                let url = search_url(query.as_str());
                (Pipeline { phase: Phase::SearchSent }, Action::Search { query, url })
            },
        }
    }

    /// Where the run stands.
    pub fn phase(&self) -> (r: Phase)
        ensures
            r == self@,
    {
        self.phase
    }

    /// Whether the run awaits this event now.
    pub fn accepts(&self, event: &Event) -> (r: bool)
        ensures
            r == accepts(self@, event@),
    {
        match self.phase {
            Phase::SearchSent | Phase::SummarySent => match event {
                Event::Status { .. } | Event::Unreachable => true,
                _ => false,
            },
            Phase::SearchAnswered => match event {
                Event::Found { .. } | Event::Unreachable | Event::Undecodable => true,
                _ => false,
            },
            Phase::SummaryAnswered => match event {
                Event::Summarized { .. } | Event::Unreachable | Event::Undecodable => true,
                _ => false,
            },
            Phase::Done => false,
        }
    }

    /// Takes what came of the last action and says what to do next.
    pub fn handle(&mut self, event: Event) -> (r: Action)
        requires
            accepts(old(self)@, event@),
        ensures
            (final(self)@, r@) == step(old(self)@, event@),
    {
        match event {
            Event::Unreachable => {
                self.phase = Phase::Done;
                Action::Abort { error: WikiError::Transport }
            },
            Event::Undecodable => {
                self.phase = Phase::Done;
                Action::Abort { error: WikiError::Decode }
            },
            Event::Status { code } => {
                if !is_success(code) {
                    self.phase = Phase::Done;
                    Action::Abort { error: WikiError::Request { status: code } }
                } else {
                    if self.phase == Phase::SearchSent {
                        self.phase = Phase::SearchAnswered;
                    } else {
                        self.phase = Phase::SummaryAnswered;
                    }
                    Action::ReadBody
                }
            },
            Event::Found { response } => match first_title(&response) {
                Ok(title) => {
                    let url = summary_url(title.as_str());
                    let line = status_line(title.as_str());
                    self.phase = Phase::SummarySent;
                    Action::Fetch { title, url, status_line: line }
                },
                Err(error) => {
                    self.phase = Phase::Done;
                    Action::Abort { error }
                },
            },
            Event::Summarized { summary } => {
                self.phase = Phase::Done;
                Action::Finish { output: parse_response(summary) }
            },
        }
    }
}

/// With no argument the run shows the usage line and is over at once: the
/// finished phase awaits no event, so no request is ever sent.
pub proof fn law_no_arguments_no_network()
    ensures
        begin(Seq::empty()) == (Phase::Done, ActionModel::ShowUsage),
        forall|e: EventModel| !accepts(Phase::Done, e),
{
}

/// A status outside 200..=299 from either endpoint ends the run at once with
/// that status, and nothing is sent or taken after it.
pub proof fn law_failed_status_halts(phase: Phase, code: u16)
    requires
        accepts(phase, EventModel::Status { code }),
        !success_status(code),
    ensures
        step(phase, EventModel::Status { code }) == (
            Phase::Done,
            ActionModel::Abort { error: WikiError::Request { status: code } },
        ),
        forall|e: EventModel| !accepts(Phase::Done, e),
{
}

/// The summary is asked for only once the search answered with success and its
/// body named an article; that body is awaited only after a successful search
/// status.
pub proof fn law_fetch_only_after_search(phase: Phase, event: EventModel)
    requires
        accepts(phase, event),
    ensures
        step(phase, event).1 is Fetch ==> {
            &&& phase == Phase::SearchAnswered
            &&& event matches EventModel::Found { titles } && titles.len() > 0
        },
        step(phase, event).0 == Phase::SearchAnswered ==> {
            &&& phase == Phase::SearchSent
            &&& event matches EventModel::Status { code } && success_status(code)
        },
{
}

} // verus!
