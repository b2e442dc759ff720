//! Selecting and assembling the help text for one render request.
//!
//! A request is either an overview (no topic given) or a detail lookup for one
//! topic name. The renderer is a pure function from `(request, locale)` to the
//! exact bytes the program writes: overview and known-topic output go to
//! standard output, the one diagnostic for an unknown topic goes to standard
//! error. Every written block ends in the line separator `"\n"`.

use vstd::prelude::*;
use vstd::string::StringExecFns;
use crate::locale::Locale;
use crate::locale::str_eq;
use crate::text::Tier;
use crate::text::Topic;
use crate::text::overview_block;
use crate::text::overview_block_text;
use crate::text::detail_block;
use crate::text::detail_block_text;

verus! {

/// One render request: the whole overview, or the details of one named topic.
#[derive(Debug, PartialEq, Eq)]
pub enum HelpRequest {
    Overview,
    Detail(String),
}

/// The mathematical form of a request: the topic name as a character sequence.
pub enum HelpRequestText {
    Overview,
    Detail(Seq<char>),
}

impl View for HelpRequest {
    type V = HelpRequestText;

    open spec fn view(&self) -> HelpRequestText {
        match self {
            HelpRequest::Overview => HelpRequestText::Overview,
            HelpRequest::Detail(name) => HelpRequestText::Detail(name@),
        }
    }
}

/// What one invocation writes: a text and the stream it goes to.
#[derive(Debug, PartialEq, Eq)]
pub enum RenderOutput {
    Stdout(String),
    Stderr(String),
}

/// The mathematical form of an output: the written characters and the stream.
pub enum RenderOutputText {
    Stdout(Seq<char>),
    Stderr(Seq<char>),
}

impl View for RenderOutput {
    type V = RenderOutputText;

    open spec fn view(&self) -> RenderOutputText {
        match self {
            RenderOutput::Stdout(s) => RenderOutputText::Stdout(s@),
            RenderOutput::Stderr(s) => RenderOutputText::Stderr(s@),
        }
    }
}

/// The name under which a topic's details are requested.
pub open spec fn topic_name(t: Topic) -> Seq<char> {
    match t {
        Topic::Merge => "merge"@,
        Topic::Rebase => "rebase"@,
        Topic::CherryPick => "cherry-pick"@,
    }
}

/// The topic a name denotes, if any: `merge`, `rebase` and `cherry-pick` are
/// the only names with detail blocks.
pub open spec fn topic_of(name: Seq<char>) -> Option<Topic> {
    if name == "merge"@ {
        Option::Some(Topic::Merge)
    } else if name == "rebase"@ {
        Option::Some(Topic::Rebase)
    } else if name == "cherry-pick"@ {
        Option::Some(Topic::CherryPick)
    } else {
        Option::None
    }
}

/// The full overview text for one locale: the basic, middle and advanced
/// blocks in that order, each terminated by the line separator.
pub open spec fn overview_text(l: Locale) -> Seq<char> {
    overview_block_text(Tier::Basic, l) + "\n"@ + overview_block_text(Tier::Middle, l) + "\n"@
        + overview_block_text(Tier::Advanced, l) + "\n"@
}

/// The diagnostic written for an unknown topic name.
pub open spec fn unknown_topic_text(name: Seq<char>) -> Seq<char> {
    "No details available for the command: "@ + name + "\n"@
}

/// What one request renders to in one locale.
pub open spec fn rendered(req: HelpRequestText, l: Locale) -> RenderOutputText {
    match req {
        HelpRequestText::Overview => RenderOutputText::Stdout(overview_text(l)),
        HelpRequestText::Detail(name) => match topic_of(name) {
            Option::Some(t) => RenderOutputText::Stdout(detail_block_text(t, l) + "\n"@),
            Option::None => RenderOutputText::Stderr(unknown_topic_text(name)),
        },
    }
}

/// Rendering is deterministic: two outputs of the same `(request, locale)`
/// pair are identical, text and stream both.
pub proof fn lemma_render_deterministic(
    req: HelpRequestText,
    l: Locale,
    o1: RenderOutputText,
    o2: RenderOutputText,
)
    requires
        o1 == rendered(req, l),
        o2 == rendered(req, l),
    ensures
        o1 == o2,
{
}

/// Every topic in the detailed-topics set has a rendering in both locales:
/// its name parses back to the topic, and a detail request under its name
/// writes the topic's detail block to standard output — never the
/// unknown-topic diagnostic, and never empty output.
pub proof fn lemma_every_topic_renders(t: Topic, l: Locale)
    ensures
        topic_of(topic_name(t)) == Option::Some(t),
        rendered(HelpRequestText::Detail(topic_name(t)), l) == RenderOutputText::Stdout(
            detail_block_text(t, l) + "\n"@,
        ),
        (detail_block_text(t, l) + "\n"@).len() > 0,
{
    reveal_strlit("merge");
    reveal_strlit("rebase");
    reveal_strlit("cherry-pick");
    reveal_strlit("\n");
    assert("merge"@.len() == 5);
    assert("rebase"@.len() == 6);
    assert("cherry-pick"@.len() == 11);
    assert("rebase"@ != "merge"@);
    assert("cherry-pick"@ != "merge"@);
    assert("cherry-pick"@ != "rebase"@);
}

/// Parse a topic name into the closed topic enumeration; `None` for every
/// name without a detail block.
pub fn parse_topic(name: &str) -> (t: Option<Topic>)
    ensures
        t == topic_of(name@),
{
    if str_eq(name, "merge") {
        Option::Some(Topic::Merge)
    } else if str_eq(name, "rebase") {
        Option::Some(Topic::Rebase)
    } else if str_eq(name, "cherry-pick") {
        Option::Some(Topic::CherryPick)
    } else {
        Option::None
    }
}

/// Assemble the overview for one locale: the three tier blocks in order,
/// each followed by the line separator.
pub fn render_overview(l: Locale) -> (r: String)
    ensures
        r@ == overview_text(l),
{
    let mut out = String::new();
    out.append(overview_block(Tier::Basic, l));
    out.append("\n");
    out.append(overview_block(Tier::Middle, l));
    out.append("\n");
    out.append(overview_block(Tier::Advanced, l));
    out.append("\n");
    assert(out@ =~= overview_text(l));
    out
}

/// Assemble the output of a detail request: the topic's block (followed by
/// the line separator) on standard output when the name is known, the
/// unknown-topic diagnostic on standard error otherwise.
pub fn render_topic_detail(name: &str, l: Locale) -> (out: RenderOutput)
    ensures
        out@ == rendered(HelpRequestText::Detail(name@), l),
{
    match parse_topic(name) {
        Option::Some(t) => {
            let mut text = String::new();
            text.append(detail_block(t, l));
            text.append("\n");
            assert(text@ =~= detail_block_text(t, l) + "\n"@);
            RenderOutput::Stdout(text)
        },
        Option::None => {
            let mut text = String::new();
            text.append("No details available for the command: ");
            text.append(name);
            text.append("\n");
            assert(text@ =~= unknown_topic_text(name@));
            RenderOutput::Stderr(text)
        },
    }
}

/// Render one request in one locale: the single entry point, dispatching on
/// the presence of a topic name.
pub fn render(req: &HelpRequest, l: Locale) -> (out: RenderOutput)
    ensures
        out@ == rendered(req@, l),
{
    match req {
        HelpRequest::Overview => RenderOutput::Stdout(render_overview(l)),
        HelpRequest::Detail(name) => render_topic_detail(name.as_str(), l),
    }
}

} // verus!
