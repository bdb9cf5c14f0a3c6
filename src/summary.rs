use vstd::prelude::*;

verus! {

/// The fields of a summary that the lookup reads: `{"type": ..., "extract": ...}`.
#[derive(Clone, Debug, PartialEq, Eq)]
pub struct Summary {
    pub response_type: String,
    pub extract: Option<String>,
}

pub struct SummaryModel {
    pub response_type: Seq<char>,
    pub extract: Option<Seq<char>>,
}

impl View for Summary {
    type V = SummaryModel;

    open spec fn view(&self) -> SummaryModel {
        SummaryModel {
            response_type: self.response_type@,
            extract: match self.extract {
                Some(e) => Some(e@),
                None => None,
            },
        }
    }
}

/// How the text shown is to be set off.
#[derive(Clone, Copy, Debug, PartialEq, Eq, Structural)]
pub enum Tone {
    /// The article's own text.
    Plain,
    /// A notice that the phrase named no single article.
    Warning,
}

/// The text to show for a summary, with its tone.
#[derive(Clone, Debug, PartialEq, Eq)]
pub struct Rendered {
    pub text: String,
    pub tone: Tone,
}

pub struct RenderedModel {
    pub text: Seq<char>,
    pub tone: Tone,
}

impl View for Rendered {
    type V = RenderedModel;

    open spec fn view(&self) -> RenderedModel {
        RenderedModel { text: self.text@, tone: self.tone }
    }
}

/// Whether the summary belongs to a page that lists several articles.
pub open spec fn is_disambiguation(s: SummaryModel) -> bool {
    s.response_type == "disambiguation"@
}

/// The extract, or a fixed placeholder where the summary has none.
pub open spec fn extract_or_placeholder(s: SummaryModel) -> Seq<char> {
    match s.extract {
        Some(e) => e,
        None => "No extract available."@,
    }
}

/// What is shown for a summary: a fixed notice for a disambiguation page,
/// else the extract (or its placeholder) unchanged.
pub open spec fn render(s: SummaryModel) -> RenderedModel {
    if is_disambiguation(s) {
        RenderedModel {
            text: "Ambiguous, please add further information. E.g. \"<term> engineering\"."@,
            tone: Tone::Warning,
        }
    } else {
        RenderedModel { text: extract_or_placeholder(s), tone: Tone::Plain }
    }
}

/// Turns a decoded summary into the text shown.
pub fn parse_response(summary: Summary) -> (r: Rendered)
    ensures
        r@ == render(summary@),
{
    let Summary { response_type, extract } = summary;
    let text = match extract {
        Some(e) => e,
        None => String::from_str("No extract available."),
    };
    if response_type == String::from_str("disambiguation") {
        Rendered {
            text: String::from_str(
                "Ambiguous, please add further information. E.g. \"<term> engineering\".",
            ),
            tone: Tone::Warning,
        }
    } else {
        Rendered { text, tone: Tone::Plain }
    }
}

} // verus!
