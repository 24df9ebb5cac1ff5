//! From an argument vector to what the arguments match.
//!
//! The matching itself is done by `clap`, and matching is all that it is
//! asked for: the parser that is handed to it has every flag of the grammar,
//! and none as required. Which flags must be there is asked afterwards, by
//! the validator, in its own order and with its own texts.
//!
//! What is verified here is that the parser describes the grammar, flag by
//! flag and sub-command by sub-command, and that it is built without
//! tripping any of `clap`'s own assertions.

use crate::bindings::{
    app_about, app_flag, app_get_matches_from_safe, app_new, app_no_binary_name,
    app_no_version_flag, app_subcommand, app_version, app_view, matches_view, parsed,
    refusal_fails, subcommand_with_name, Refusal,
};
use crate::error::{Error, ErrorView};
use crate::grammar::{
    all_optional, cli_view, flags_view, flags_wf, subcommands_view, CommandView, Flag, Grammar,
    Subcommand,
};
use crate::text::{first_line, first_line_of};
use vstd::prelude::*;

verus! {

/// Adds the flags to a command that has none yet, in order and as optional.
fn with_flags(app: clap::App<'static, 'static>, flags: &Vec<Flag>) -> (out: clap::App<
    'static,
    'static,
>)
    requires
        app_view(app).flags.len() == 0,
        flags_wf(flags_view(flags@)),
    ensures
        app_view(out) == (CommandView {
            flags: all_optional(flags_view(flags@)),
            ..app_view(app)
        }),
{
    let ghost start = app_view(app);
    let ghost all = flags_view(flags@);
    let ghost handed = all_optional(all);
    let mut out = app;
    let mut i: usize = 0;
    assert(start.flags =~= handed.take(0));
    while i < flags.len()
        invariant
            i <= flags.len(),
            all == flags_view(flags@),
            handed == all_optional(all),
            flags_wf(all),
            app_view(out) == (CommandView { flags: handed.take(i as int), ..start }),
        decreases flags.len() - i,
    {
        assert(all[i as int] == flags[i as int]@);
        let flag = flags[i].optional();
        assert(flag@ == handed[i as int]);
        assert forall|k: int| 0 <= k < i implies (#[trigger] handed.take(i as int)[k]).apart_from(
            flag@,
        ) by {
            assert(all[k].apart_from(all[i as int]));
        }
        out = app_flag(out, &flag);
        assert(handed.take(i as int).push(handed[i as int]) =~= handed.take(i + 1));
        i += 1;
    }
    assert(handed.take(flags.len() as int) =~= handed);
    out
}

/// The parser of one sub-command.
fn build_subcommand(subcommand: &Subcommand) -> (app: clap::App<'static, 'static>)
    requires
        flags_wf(subcommand@.flags),
    ensures
        app_view(app) == subcommand@.with_optional_flags(),
{
    let app = subcommand_with_name(subcommand.name);
    let app = app_about(app, subcommand.about);
    with_flags(app, &subcommand.flags)
}

/// The parser of a grammar: it has what the grammar has, with no flag
/// required.
pub fn build(grammar: &Grammar) -> (app: clap::App<'static, 'static>)
    requires
        grammar@.wf(),
    ensures
        app_view(app) == grammar@.relaxed(),
{
    let app = app_new(grammar.name);
    let app = app_version(app, grammar.version);
    let app = app_about(app, grammar.about);
    let app = if grammar.no_binary_name {
        app_no_binary_name(app)
    } else {
        app
    };
    let app = if grammar.no_version_flag {
        app_no_version_flag(app)
    } else {
        app
    };
    let mut app = with_flags(app, &grammar.flags);
    let ghost all = subcommands_view(grammar.subcommands@);
    let ghost handed = grammar@.relaxed().subcommands;
    let mut i: usize = 0;
    assert(app_view(app).subcommands =~= handed.take(0));
    while i < grammar.subcommands.len()
        invariant
            i <= grammar.subcommands.len(),
            all == subcommands_view(grammar.subcommands@),
            handed == grammar@.relaxed().subcommands,
            grammar@.wf(),
            app_view(app) == (CommandView {
                subcommands: handed.take(i as int),
                ..grammar@.relaxed()
            }),
        decreases grammar.subcommands.len() - i,
    {
        assert(all[i as int] == grammar.subcommands[i as int]@);
        assert(handed[i as int] == all[i as int].with_optional_flags());
        let subcommand = build_subcommand(&grammar.subcommands[i]);
        app = app_subcommand(app, subcommand);
        assert(handed.take(i as int).push(handed[i as int]) =~= handed.take(i + 1));
        i += 1;
    }
    assert(handed.take(grammar.subcommands.len() as int) =~= handed);
    app
}

/// The error for what `clap` said where it matched nothing.
///
/// A refusal becomes a usage error with the first line of what `clap` said,
/// which is the line that says what is wrong; the lines after it repeat the
/// usage. The help text is kept whole, as text to display.
pub open spec fn refusal_view(failure: bool, text: Seq<char>) -> ErrorView {
    if failure {
        ErrorView::WithMessage(first_line_of(text))
    } else {
        ErrorView::Displayed(text)
    }
}

/// The error for what `clap` said where it matched nothing.
pub fn refused(refusal: Refusal) -> (error: Error)
    ensures
        error@ == refusal_view(refusal.failure, refusal.text@),
{
    if refusal.failure {
        Error::WithMessage(first_line(refusal.text.as_str()))
    } else {
        Error::Displayed(refusal.text)
    }
}

/// Matches the arguments, given without the program's name, against the
/// grammar of this program.
///
/// Where `clap` matches them, the result holds what it matched. Where it
/// refuses them, the error is a usage error of one line. Where they ask for
/// the help, the error is the help text, to display.
pub fn parse_args(args: &Vec<String>) -> (outcome: Result<clap::ArgMatches<'static>, Error>)
    ensures
        match outcome {
            Ok(matches) => parsed(cli_view().relaxed(), args.deep_view()) == Some(
                matches_view(matches),
            ),
            Err(error) => {
                &&& parsed(cli_view().relaxed(), args.deep_view()) is None
                &&& exists|text: Seq<char>|
                    error@ == refusal_view(
                        refusal_fails(cli_view().relaxed(), args.deep_view()),
                        text,
                    )
            },
        },
{
    let grammar = Grammar::cli();
    let app = build(&grammar);
    match app_get_matches_from_safe(app, args) {
        Ok(matches) => Ok(matches),
        Err(refusal) => {
            let ghost text = refusal.text@;
            let error = refused(refusal);
            assert(error@ == refusal_view(
                refusal_fails(cli_view().relaxed(), args.deep_view()),
                text,
            ));
            Err(error)
        },
    }
}

} // verus!
