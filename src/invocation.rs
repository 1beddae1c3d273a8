//! Properties of a whole invocation, stated over the models that the
//! functions of the other modules are specified by.

use vstd::prelude::*;

use crate::command::{
    help_flag, plan_for, selection, tool_name, unknown_line, version_label, version_line,
    version_word, StepView,
};
use crate::locate::{advance, ResolutionView, Strategy};
use crate::status::not_found_finish;

verus! {

/// `word` occurs somewhere in `line`.
pub open spec fn mentions(line: Seq<char>, word: Seq<char>) -> bool {
    exists|i: int|
        0 <= i && i + word.len() <= line.len() && #[trigger] line.subrange(i, i + word.len())
            == word
}

/// Everything after `zarf` reaches the tool unchanged and in order, tokens
/// that look like flags included; with nothing after `zarf`, the tool gets
/// the help flag alone. Nothing is printed first.
pub proof fn zarf_tokens_pass_through(args: Seq<Seq<char>>, version: Seq<char>)
    ensures
        ({
            let p = plan_for(selection(seq![tool_name()] + args), version);
            &&& p.stdout.len() == 0
            &&& p.stderr.len() == 0
            &&& !p.show_help
            &&& args.len() > 0 ==> p.step == StepView::Delegate(args)
            &&& args.len() == 0 ==> p.step == StepView::Delegate(seq![help_flag()])
        }),
{
    let tokens = seq![tool_name()] + args;
    assert(tokens[0] == tool_name());
    assert(tokens.drop_first() =~= args);
}

/// `version` prints this program's version, then the label, and only then
/// hands `version` to the tool; so the version is printed whether or not
/// the tool is ever located.
pub proof fn version_printed_before_delegation(tokens: Seq<Seq<char>>, version: Seq<char>)
    requires
        tokens.len() > 0,
        tokens[0] == version_word(),
    ensures
        ({
            let p = plan_for(selection(tokens), version);
            &&& p.stdout == seq![version_line(version), version_label()]
            &&& p.step == StepView::Delegate(seq![version_word()])
        }),
{
    reveal_strlit("zarf");
    reveal_strlit("version");
    assert(version_word().len() != tool_name().len());
}

/// When no strategy locates the tool, every invocation that delegates ends
/// with code 1 and two lines on standard error that name the tool and PATH.
pub proof fn absent_tool_reported(tokens: Seq<Seq<char>>, version: Seq<char>)
    requires
        plan_for(selection(tokens), version).step is Delegate,
    ensures
        advance(advance(ResolutionView::Try(Strategy::Lookup), None), None)
            == ResolutionView::NotFound,
        not_found_finish().code == 1,
        not_found_finish().stderr.len() == 2,
        mentions(not_found_finish().stderr[0], tool_name()),
        mentions(not_found_finish().stderr[0], "PATH"@),
        mentions(not_found_finish().stderr[1], "PATH"@),
{
    reveal_strlit("zarf");
    reveal_strlit("PATH");
    reveal_strlit("Error: 'zarf' command not found in PATH");
    reveal_strlit("Please ensure Zarf is installed and available in your PATH");
    let first = not_found_finish().stderr[0];
    let second = not_found_finish().stderr[1];
    assert(first.subrange(8, 8 as int + tool_name().len()) =~= tool_name());
    assert(first.subrange(35, 35 as int + "PATH"@.len()) =~= "PATH"@);
    assert(second.subrange(54, 54 as int + "PATH"@.len()) =~= "PATH"@);
}

/// A first token that names no subcommand gives one line on standard error
/// naming it, and exit code 1; nothing is delegated.
pub proof fn unknown_subcommand_rejected(tokens: Seq<Seq<char>>, version: Seq<char>)
    requires
        tokens.len() > 0,
        tokens[0] != tool_name(),
        tokens[0] != version_word(),
    ensures
        ({
            let p = plan_for(selection(tokens), version);
            &&& p.stdout.len() == 0
            &&& p.stderr == seq![unknown_line(tokens[0])]
            &&& mentions(p.stderr[0], tokens[0])
            &&& !p.show_help
            &&& p.step == StepView::Exit(1)
        }),
{
    let line = unknown_line(tokens[0]);
    let k = line.len() - tokens[0].len();
    assert(line.subrange(k, k + tokens[0].len()) =~= tokens[0]);
}

/// The strategies are tried in order, the first one that reports a path
/// decides, and after the last one the search is over either way.
pub proof fn strategies_tried_in_order(lookup: Option<Seq<char>>, probe: Option<Seq<char>>)
    ensures
        ({
            let after_lookup = advance(ResolutionView::Try(Strategy::Lookup), lookup);
            let end = advance(after_lookup, probe);
            &&& lookup is None ==> after_lookup == ResolutionView::Try(Strategy::Probe)
            &&& end == match lookup {
                Some(p) => ResolutionView::Found(p),
                None => match probe {
                    Some(q) => ResolutionView::Found(q),
                    None => ResolutionView::NotFound,
                },
            }
            &&& end !is Try
        }),
{
}

} // verus!
