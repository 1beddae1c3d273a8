//! Locating the tool: an ordered list of strategies, each of which either
//! names the executable or passes the search on to the next one.

use vstd::prelude::*;

use crate::command::tool_name;

verus! {

/// The text that `String::from_utf8_lossy` decodes from `bytes`.
pub uninterp spec fn decoded_lossy(bytes: Seq<u8>) -> Seq<char>;

/// The text that `str::trim` leaves of `text`.
pub uninterp spec fn trimmed(text: Seq<char>) -> Seq<char>;

/// Relies on `String::from_utf8_lossy`, which decodes the bytes as UTF-8 and
/// puts U+FFFD for each invalid sequence: the text depends on the bytes alone.
#[verifier::external_body]
fn decode_lossy(bytes: &[u8]) -> (r: String)
    ensures
        r@ == decoded_lossy(bytes@),
{
    String::from_utf8_lossy(bytes).into_owned()
}

/// Relies on `str::trim`, which drops leading and trailing white space: the
/// result depends on the text alone.
#[verifier::external_body]
fn trim(text: &str) -> (r: &str)
    ensures
        r@ == trimmed(text@),
{
    text.trim()
}

/// One way of locating the tool.
#[derive(PartialEq, Eq, Structural, Clone, Copy, Debug)]
pub enum Strategy {
    /// Ask the platform's path lookup utility (`which zarf`).
    Lookup,
    /// Run `zarf --version` by its bare name and see whether it succeeds.
    Probe,
}

/// The strategy tried after `s` has found nothing, if any.
pub open spec fn next_strategy(s: Strategy) -> Option<Strategy> {
    match s {
        Strategy::Lookup => Some(Strategy::Probe),
        Strategy::Probe => None,
    }
}

/// Where a search for the tool stands.
#[derive(Clone, Debug, PartialEq, Eq)]
pub enum Resolution {
    /// The strategy to run next.
    Try(Strategy),
    /// The tool was located: a path, or the bare name.
    Found(String),
    /// Every strategy came back empty.
    NotFound,
}

pub enum ResolutionView {
    Try(Strategy),
    Found(Seq<char>),
    NotFound,
}

impl View for Resolution {
    type V = ResolutionView;

    open spec fn view(&self) -> ResolutionView {
        match self {
            Resolution::Try(s) => ResolutionView::Try(*s),
            Resolution::Found(p) => ResolutionView::Found(p@),
            Resolution::NotFound => ResolutionView::NotFound,
        }
    }
}

/// The search state after the pending strategy of `r` reported `found`.
/// A finished search stays as it is.
pub open spec fn advance(r: ResolutionView, found: Option<Seq<char>>) -> ResolutionView {
    match r {
        ResolutionView::Try(s) => match found {
            Some(p) => ResolutionView::Found(p),
            None => match next_strategy(s) {
                Some(n) => ResolutionView::Try(n),
                None => ResolutionView::NotFound,
            },
        },
        _ => r,
    }
}

impl Resolution {
    /// A search that has tried nothing yet.
    pub fn start() -> (r: Resolution)
        ensures
            r@ == ResolutionView::Try(Strategy::Lookup),
    {
        Resolution::Try(Strategy::Lookup)
    }

    /// Records what the pending strategy reported.
    pub fn after(self, found: Option<String>) -> (r: Resolution)
        ensures
            r@ == advance(self@, found.deep_view()),
    {
        match self {
            Resolution::Try(s) => match found {
                Some(p) => Resolution::Found(p),
                None => match s {
                    Strategy::Lookup => Resolution::Try(Strategy::Probe),
                    Strategy::Probe => Resolution::NotFound,
                },
            },
            _ => self,
        }
    }
}

/// What the lookup strategy reports for output `text` (already trimmed):
/// the text as a path, when the utility succeeded and printed something.
pub open spec fn lookup_found(success: bool, text: Seq<char>) -> Option<Seq<char>> {
    if success && text.len() > 0 {
        Some(text)
    } else {
        None
    }
}

/// What the lookup strategy reports, from its exit status and its trimmed
/// standard output.
pub fn path_from_trimmed(success: bool, text: &str) -> (r: Option<String>)
    ensures
        r.deep_view() == lookup_found(success, text@),
{
    if success && text.unicode_len() > 0 {
        Some(String::from_str(text))
    } else {
        None
    }
}

/// What the lookup strategy reports, from its exit status and the raw bytes
/// of its standard output.
pub fn lookup_path(success: bool, stdout: &[u8]) -> (r: Option<String>)
    ensures
        r.deep_view() == lookup_found(success, trimmed(decoded_lossy(stdout@))),
{
    let text = decode_lossy(stdout);
    path_from_trimmed(success, trim(text.as_str()))
}

/// What the probe strategy reports: the bare name when `zarf --version`
/// succeeded, so that the system's own search finds it when it is run.
pub open spec fn probe_found(success: bool) -> Option<Seq<char>> {
    if success {
        Some(tool_name())
    } else {
        None
    }
}

/// What the probe strategy reports, from the exit status of `zarf --version`.
pub fn probe_path(success: bool) -> (r: Option<String>)
    ensures
        r.deep_view() == probe_found(success),
{
    if success {
        Some(String::from_str("zarf"))
    } else {
        None
    }
}

} // verus!
