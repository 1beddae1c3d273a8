//! Turning the way a delegation ended into this program's exit code and
//! diagnostics.

use vstd::prelude::*;

verus! {

/// How a run of the tool ended.
#[derive(Clone, Debug, PartialEq, Eq)]
pub enum ChildOutcome {
    /// The tool exited normally with this code.
    Exited(i32),
    /// The tool was ended by a signal and left no code.
    Signaled,
    /// The tool could not be started; the system's error text.
    SpawnFailed(String),
}

pub enum ChildOutcomeView {
    Exited(i32),
    Signaled,
    SpawnFailed(Seq<char>),
}

impl View for ChildOutcome {
    type V = ChildOutcomeView;

    open spec fn view(&self) -> ChildOutcomeView {
        match self {
            ChildOutcome::Exited(code) => ChildOutcomeView::Exited(*code),
            ChildOutcome::Signaled => ChildOutcomeView::Signaled,
            ChildOutcome::SpawnFailed(text) => ChildOutcomeView::SpawnFailed(text@),
        }
    }
}

/// How this program ends: lines for standard error, then the exit code.
#[derive(Clone, Debug, PartialEq, Eq)]
pub struct Finish {
    pub stderr: Vec<String>,
    pub code: i32,
}

pub struct FinishView {
    pub stderr: Seq<Seq<char>>,
    pub code: i32,
}

impl View for Finish {
    type V = FinishView;

    open spec fn view(&self) -> FinishView {
        FinishView { stderr: self.stderr.deep_view(), code: self.code }
    }
}

/// The diagnostic for a tool that could not be started.
pub open spec fn spawn_failed_line(error: Seq<char>) -> Seq<char> {
    "Failed to execute zarf: "@ + error
}

/// How this program ends after a run of the tool that ended as `o`: with
/// the tool's own code when it exited normally, else with 1.
pub open spec fn finish_for(o: ChildOutcomeView) -> FinishView {
    match o {
        ChildOutcomeView::Exited(code) => FinishView { stderr: Seq::empty(), code },
        ChildOutcomeView::Signaled => FinishView { stderr: Seq::empty(), code: 1 },
        ChildOutcomeView::SpawnFailed(error) => FinishView {
            stderr: seq![spawn_failed_line(error)],
            code: 1,
        },
    }
}

/// Decides how this program ends after a run of the tool.
pub fn finish(o: ChildOutcome) -> (r: Finish)
    ensures
        r@ == finish_for(o@),
        o matches ChildOutcome::Exited(c) ==> r.code == c,
{
    match o {
        ChildOutcome::Exited(code) => {
            let r = Finish { stderr: Vec::new(), code };
            assert(r.stderr.deep_view() =~= Seq::empty());
            r
        },
        ChildOutcome::Signaled => {
            let r = Finish { stderr: Vec::new(), code: 1 };
            assert(r.stderr.deep_view() =~= Seq::empty());
            r
        },
        ChildOutcome::SpawnFailed(error) => {
            let mut line = String::from_str("Failed to execute zarf: ");
            line.append(error.as_str());
            let r = Finish { stderr: vec![line], code: 1 };
            assert(r.stderr.deep_view() =~= seq![spawn_failed_line(error@)]);
            r
        },
    }
}

/// The first line of the diagnostic for a tool that cannot be located.
pub open spec fn not_found_line() -> Seq<char> {
    "Error: 'zarf' command not found in PATH"@
}

/// The second line of that diagnostic.
pub open spec fn install_hint_line() -> Seq<char> {
    "Please ensure Zarf is installed and available in your PATH"@
}

/// How this program ends when the tool cannot be located.
pub open spec fn not_found_finish() -> FinishView {
    FinishView { stderr: seq![not_found_line(), install_hint_line()], code: 1 }
}

/// Decides how this program ends when the tool cannot be located: nothing
/// is run, two lines go to standard error and the code is 1.
pub fn not_found() -> (r: Finish)
    ensures
        r@ == not_found_finish(),
{
    let r = Finish {
        stderr: vec![
            String::from_str("Error: 'zarf' command not found in PATH"),
            String::from_str("Please ensure Zarf is installed and available in your PATH"),
        ],
        code: 1,
    };
    assert(r.stderr.deep_view() =~= seq![not_found_line(), install_hint_line()]);
    r
}

} // verus!
