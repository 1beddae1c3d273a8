//! Choosing a subcommand from the invocation's tokens.

use vstd::prelude::*;

verus! {

/// The name of the tool this program stands in front of.
pub open spec fn tool_name() -> Seq<char> {
    "zarf"@
}

/// The subcommand that prints this program's version.
pub open spec fn version_word() -> Seq<char> {
    "version"@
}

/// What an invocation asks for.
#[derive(Clone, Debug, PartialEq, Eq)]
pub enum Subcommand {
    /// Forward the trailing tokens to the tool.
    Zarf(Vec<String>),
    /// Print this program's version, then the tool's.
    Version,
    /// A first token that names no known subcommand.
    Unknown(String),
    /// No token at all.
    Absent,
}

/// The mathematical model of a [`Subcommand`].
pub enum SubcommandView {
    Zarf(Seq<Seq<char>>),
    Version,
    Unknown(Seq<char>),
    Absent,
}

impl View for Subcommand {
    type V = SubcommandView;

    open spec fn view(&self) -> SubcommandView {
        match self {
            Subcommand::Zarf(args) => SubcommandView::Zarf(args.deep_view()),
            Subcommand::Version => SubcommandView::Version,
            Subcommand::Unknown(name) => SubcommandView::Unknown(name@),
            Subcommand::Absent => SubcommandView::Absent,
        }
    }
}

/// The subcommand that a token sequence (program name excluded) selects:
/// the first token names it, and after `zarf` every later token belongs to
/// the tool, whatever it looks like.
pub open spec fn selection(tokens: Seq<Seq<char>>) -> SubcommandView {
    if tokens.len() == 0 {
        SubcommandView::Absent
    } else if tokens[0] == tool_name() {
        SubcommandView::Zarf(tokens.drop_first())
    } else if tokens[0] == version_word() {
        SubcommandView::Version
    } else {
        SubcommandView::Unknown(tokens[0])
    }
}

/// Selects the subcommand that `tokens` asks for.
pub fn select(tokens: &Vec<String>) -> (r: Subcommand)
    ensures
        r@ == selection(tokens.deep_view()),
{
    if tokens.len() == 0 {
        return Subcommand::Absent;
    }
    let first = &tokens[0];
    if *first == String::from_str("zarf") {
        let mut rest: Vec<String> = Vec::new();
        let mut i: usize = 1;
        while i < tokens.len()
            invariant
                1 <= i <= tokens.len(),
                rest@ == tokens@.subrange(1, i as int),
            decreases tokens.len() - i,
        {
            rest.push(tokens[i].clone());
            assert(rest@ =~= tokens@.subrange(1, i + 1));
            i = i + 1;
        }
        assert(rest.deep_view() =~= tokens.deep_view().drop_first());
        Subcommand::Zarf(rest)
    } else if *first == String::from_str("version") {
        Subcommand::Version
    } else {
        Subcommand::Unknown(first.clone())
    }
}

/// The single token forwarded when `zarf` is given nothing to pass on.
pub open spec fn help_flag() -> Seq<char> {
    "--help"@
}

/// The tokens handed to the tool for `zarf` followed by `args`: the
/// arguments unchanged, or the help flag alone when there are none.
pub open spec fn forwarded(args: Seq<Seq<char>>) -> Seq<Seq<char>> {
    if args.len() == 0 {
        seq![help_flag()]
    } else {
        args
    }
}

/// The tokens to hand to the tool for `zarf` followed by `args`.
pub fn forwarded_args(args: Vec<String>) -> (r: Vec<String>)
    ensures
        r.deep_view() == forwarded(args.deep_view()),
{
    if args.len() == 0 {
        let r = vec![String::from_str("--help")];
        assert(r.deep_view() =~= seq![help_flag()]);
        r
    } else {
        args
    }
}

/// What is done after a plan's lines have been printed.
#[derive(Clone, Debug, PartialEq, Eq)]
pub enum Step {
    /// Locate the tool and run it with these arguments.
    Delegate(Vec<String>),
    /// End the program with this exit code.
    Exit(i32),
}

pub enum StepView {
    Delegate(Seq<Seq<char>>),
    Exit(i32),
}

impl View for Step {
    type V = StepView;

    open spec fn view(&self) -> StepView {
        match self {
            Step::Delegate(args) => StepView::Delegate(args.deep_view()),
            Step::Exit(code) => StepView::Exit(*code),
        }
    }
}

/// What one invocation does, in order: print `stdout` and `stderr` line by
/// line, print the help text when `show_help` holds, then take `step`.
#[derive(Clone, Debug, PartialEq, Eq)]
pub struct Plan {
    pub stdout: Vec<String>,
    pub stderr: Vec<String>,
    pub show_help: bool,
    pub step: Step,
}

pub struct PlanView {
    pub stdout: Seq<Seq<char>>,
    pub stderr: Seq<Seq<char>>,
    pub show_help: bool,
    pub step: StepView,
}

impl View for Plan {
    type V = PlanView;

    open spec fn view(&self) -> PlanView {
        PlanView {
            stdout: self.stdout.deep_view(),
            stderr: self.stderr.deep_view(),
            show_help: self.show_help,
            step: self.step@,
        }
    }
}

/// The line that announces this program's own version.
pub open spec fn version_line(version: Seq<char>) -> Seq<char> {
    "mycli version "@ + version
}

/// The label printed between this program's version and the tool's.
pub open spec fn version_label() -> Seq<char> {
    "Zarf version:"@
}

/// The diagnostic for a first token that names no subcommand.
pub open spec fn unknown_line(name: Seq<char>) -> Seq<char> {
    "Unknown subcommand: "@ + name
}

/// What the subcommand `s` does, for a program whose version is `version`.
pub open spec fn plan_for(s: SubcommandView, version: Seq<char>) -> PlanView {
    match s {
        SubcommandView::Zarf(args) => PlanView {
            stdout: Seq::empty(),
            stderr: Seq::empty(),
            show_help: false,
            step: StepView::Delegate(forwarded(args)),
        },
        SubcommandView::Version => PlanView {
            stdout: seq![version_line(version), version_label()],
            stderr: Seq::empty(),
            show_help: false,
            step: StepView::Delegate(seq![version_word()]),
        },
        SubcommandView::Unknown(name) => PlanView {
            stdout: Seq::empty(),
            stderr: seq![unknown_line(name)],
            show_help: false,
            step: StepView::Exit(1),
        },
        SubcommandView::Absent => PlanView {
            stdout: Seq::empty(),
            stderr: Seq::empty(),
            show_help: true,
            step: StepView::Exit(1),
        },
    }
}

/// Decides what the subcommand `sub` does; `version` is this program's
/// own version string.
pub fn plan(sub: Subcommand, version: &str) -> (r: Plan)
    ensures
        r@ == plan_for(sub@, version@),
{
    match sub {
        Subcommand::Zarf(args) => {
            let r = Plan {
                stdout: Vec::new(),
                stderr: Vec::new(),
                show_help: false,
                step: Step::Delegate(forwarded_args(args)),
            };
            assert(r.stdout.deep_view() =~= Seq::empty());
            assert(r.stderr.deep_view() =~= Seq::empty());
            r
        },
        Subcommand::Version => {
            let mut first = String::from_str("mycli version ");
            first.append(version);
            let args = vec![String::from_str("version")];
            assert(args.deep_view() =~= seq![version_word()]);
            let r = Plan {
                stdout: vec![first, String::from_str("Zarf version:")],
                stderr: Vec::new(),
                show_help: false,
                step: Step::Delegate(args),
            };
            assert(r.stdout.deep_view() =~= seq![version_line(version@), version_label()]);
            assert(r.stderr.deep_view() =~= Seq::empty());
            r
        },
        Subcommand::Unknown(name) => {
            let mut line = String::from_str("Unknown subcommand: ");
            line.append(name.as_str());
            let r = Plan {
                stdout: Vec::new(),
                stderr: vec![line],
                show_help: false,
                step: Step::Exit(1),
            };
            assert(r.stdout.deep_view() =~= Seq::empty());
            assert(r.stderr.deep_view() =~= seq![unknown_line(name@)]);
            r
        },
        Subcommand::Absent => {
            let r = Plan {
                stdout: Vec::new(),
                stderr: Vec::new(),
                show_help: true,
                step: Step::Exit(1),
            };
            assert(r.stdout.deep_view() =~= Seq::empty());
            assert(r.stderr.deep_view() =~= Seq::empty());
            r
        },
    }
}

} // verus!
