//! What holds of every command line.
//!
//! The statements are over argument vectors and what `create` may return
//! for them. Which words of a vector `clap` takes for which flag is its own
//! business and is not restated here: a flag is missing from a vector where
//! `clap` matched the vector and no value for the flag. The parser requires
//! no flag, so such vectors are matched and it is the validator that answers
//! them.

use crate::bindings::{parsed, refusal_fails};
use crate::error::ErrorView;
use crate::format::{unsupported_format, ResourceFormat, WorldFormat};
use crate::grammar::{cli_view, resources_command, world_command, FlagView};
use crate::matched::{matched, MatchesView, SubMatchesView};
use crate::options::{
    missing_argument, no_subcommand, GlobalOptionsView, OptionsView, ResourceReportOptsView,
    WorldStatsOptsView,
};
use crate::run::{concluded, wrapped, ActionView, ExitView, Report};
use crate::text::{first_line_of, lemma_first_line_is_one_line, lemma_one_line_joined, one_line};
use vstd::prelude::*;

verus! {

/// Whether `text` ends with the characters of `end`.
pub open spec fn ends_with(text: Seq<char>, end: Seq<char>) -> bool {
    &&& end.len() <= text.len()
    &&& text.subrange(text.len() - end.len(), text.len() as int) == end
}

/// The first of the three global flags that is missing, where one is.
pub open spec fn first_missing(matches: MatchesView) -> Seq<char> {
    if matches.ris4 is None {
        "ris4"@
    } else if matches.ris6 is None {
        "ris6"@
    } else {
        "vrps"@
    }
}

/// Whether all three global flags were given.
pub open spec fn has_globals(matches: MatchesView) -> bool {
    &&& matches.ris4 is Some
    &&& matches.ris6 is Some
    &&& matches.vrps is Some
}

/// The global options of a command line that gave all three global flags.
pub open spec fn globals(matches: MatchesView) -> GlobalOptionsView {
    GlobalOptionsView {
        ris4: matches.ris4->Some_0,
        ris6: matches.ris6->Some_0,
        vrps: matches.vrps->Some_0,
    }
}

/// What the arguments matched, where `clap` matched them.
pub open spec fn matched_by(args: Seq<Seq<char>>) -> Option<MatchesView> {
    match parsed(cli_view().relaxed(), args) {
        Some(matches) => Some(matched(matches)),
        None => None,
    }
}

/// For an argument vector that `clap` matches, parsing gives what validation
/// gives for what was matched. For one that it does not match, parsing
/// fails.
pub proof fn lemma_parsing_validates_what_was_matched(
    args: Seq<Seq<char>>,
    result: Result<OptionsView, ErrorView>,
)
    requires
        OptionsView::created(args, result),
    ensures
        matched_by(args) matches Some(matches) ==> result == OptionsView::selected(matches),
        matched_by(args) is None ==> result is Err,
{
}

/// For an argument vector that `clap` refuses, parsing fails with a usage
/// error of one line, and the process ends with status 1. For one that asks
/// for the help, the help text is displayed and the process ends with
/// status 0.
pub proof fn lemma_refusal_is_one_line(
    args: Seq<Seq<char>>,
    result: Result<OptionsView, ErrorView>,
)
    requires
        OptionsView::created(args, result),
        matched_by(args) is None,
    ensures
        refusal_fails(cli_view().relaxed(), args) ==> {
            &&& result matches Err(ErrorView::WithMessage(text))
            &&& !text.contains('\n')
            &&& ExitView::of_error(result->Err_0).status() == 1
        },
        !refusal_fails(cli_view().relaxed(), args) ==> {
            &&& result matches Err(ErrorView::Displayed(_))
            &&& ExitView::of_error(result->Err_0).status() == 0
        },
{
    let text = choose|text: Seq<char>|
        result == Err::<OptionsView, ErrorView>(
            crate::parser::refusal_view(refusal_fails(cli_view().relaxed(), args), text),
        );
    lemma_first_line_is_one_line(text);
}

/// A usage error ends the process with status 1, its text on standard error.
pub proof fn lemma_usage_error_exits_with_one(text: Seq<char>)
    ensures
        ActionView::planned(Err(ErrorView::WithMessage(text))) == ActionView::Leave(
            ExitView::Failure(text),
        ),
        ExitView::Failure(text).status() == 1,
{
}

/// The text for a missing flag ends with the flag as it is written on the
/// command line, and is one line where the flag's name is.
pub proof fn lemma_names_the_flag(long: Seq<char>)
    ensures
        ends_with(missing_argument(long), "--"@ + long),
        !long.contains('\n') ==> !missing_argument(long).contains('\n'),
{
    reveal_strlit("The following required argument was not provided: --");
    reveal_strlit("--");
    let head = "The following required argument was not provided: --"@;
    let text = missing_argument(long);
    let end = "--"@ + long;
    assert(text.subrange(text.len() - end.len(), text.len() as int) =~= end);
    if !long.contains('\n') && text.contains('\n') {
        let i = choose|i: int| 0 <= i < text.len() && text[i] == '\n';
        if i < head.len() {
            assert(text[i] == head[i]);
        } else {
            assert(text[i] == long[i - head.len()]);
        }
    }
}

/// Where `--ris4`, `--ris6` or `--vrps` is missing from an argument vector,
/// parsing fails with a usage error of one line whose text names the first
/// of them that is missing, whatever else the vector holds or lacks, and the
/// process ends with status 1.
pub proof fn lemma_missing_global_flag(
    args: Seq<Seq<char>>,
    result: Result<OptionsView, ErrorView>,
    matches: MatchesView,
)
    requires
        OptionsView::created(args, result),
        matched_by(args) == Some(matches),
        !has_globals(matches),
    ensures
        result == Err::<OptionsView, ErrorView>(
            ErrorView::WithMessage(missing_argument(first_missing(matches))),
        ),
        ends_with(missing_argument(first_missing(matches)), "--"@ + first_missing(matches)),
        !missing_argument(first_missing(matches)).contains('\n'),
        ExitView::of_error(result->Err_0).status() == 1,
{
    let long = first_missing(matches);
    lemma_names_the_flag(long);
    reveal_strlit("ris4");
    reveal_strlit("ris6");
    reveal_strlit("vrps");
    if long.contains('\n') {
        let i = choose|i: int| 0 <= i < long.len() && long[i] == '\n';
        assert(0 <= i < 4);
    }
}

/// Where all three global flags are given but no sub-command, parsing fails
/// with the usage error "No sub-command given. See --help for options.", and
/// the process ends with status 1.
pub proof fn lemma_no_subcommand(
    args: Seq<Seq<char>>,
    result: Result<OptionsView, ErrorView>,
    matches: MatchesView,
)
    requires
        OptionsView::created(args, result),
        matched_by(args) == Some(matches),
        has_globals(matches),
        matches.subcommand is None,
    ensures
        result == Err::<OptionsView, ErrorView>(
            ErrorView::WithMessage("No sub-command given. See --help for options."@),
        ),
        ExitView::of_error(result->Err_0).status() == 1,
{
}

/// Where all three global flags are given and `world` is given with
/// `--stats` and without `--format`, parsing succeeds: the format is `json`
/// and every path is the text that was given.
pub proof fn lemma_world_defaults_to_json(
    args: Seq<Seq<char>>,
    result: Result<OptionsView, ErrorView>,
    matches: MatchesView,
    stats: Seq<char>,
)
    requires
        OptionsView::created(args, result),
        matched_by(args) == Some(matches),
        has_globals(matches),
        matches.subcommand == Some(SubMatchesView::World { stats: Some(stats), format: None }),
    ensures
        result == Ok::<OptionsView, ErrorView>(
            OptionsView::WorldStats(
                WorldStatsOptsView { global: globals(matches), stats, format: WorldFormat::Json },
            ),
        ),
        WorldFormat::Json.name() == "json"@,
{
}

/// Where all three global flags are given and `world` is given without
/// `--stats`, parsing fails with a usage error of one line whose text names
/// `stats`, whatever the format.
pub proof fn lemma_world_requires_stats(
    args: Seq<Seq<char>>,
    result: Result<OptionsView, ErrorView>,
    matches: MatchesView,
    format: Option<Seq<char>>,
)
    requires
        OptionsView::created(args, result),
        matched_by(args) == Some(matches),
        has_globals(matches),
        matches.subcommand == Some(SubMatchesView::World { stats: None, format }),
    ensures
        result == Err::<OptionsView, ErrorView>(
            ErrorView::WithMessage(missing_argument("stats"@)),
        ),
        ends_with(missing_argument("stats"@), "--stats"@),
        !missing_argument("stats"@).contains('\n'),
        ExitView::of_error(result->Err_0).status() == 1,
{
    lemma_names_the_flag("stats"@);
    reveal_strlit("--");
    reveal_strlit("stats");
    reveal_strlit("--stats");
    assert("--"@ + "stats"@ =~= "--stats"@);
    if "stats"@.contains('\n') {
        let i = choose|i: int| 0 <= i < "stats"@.len() && "stats"@[i] == '\n';
        assert(0 <= i < 5);
    }
}

/// Where all three global flags are given and `resources` is given with no
/// flag of its own, parsing succeeds: there is no IP scope and no ASN scope,
/// and the format is `json`.
pub proof fn lemma_resources_defaults(
    args: Seq<Seq<char>>,
    result: Result<OptionsView, ErrorView>,
    matches: MatchesView,
)
    requires
        OptionsView::created(args, result),
        matched_by(args) == Some(matches),
        has_globals(matches),
        matches.subcommand == Some(
            SubMatchesView::Resources { ips: None, asns: None, format: None },
        ),
    ensures
        result == Ok::<OptionsView, ErrorView>(
            OptionsView::ResourceStats(
                ResourceReportOptsView {
                    global: globals(matches),
                    ips: None,
                    asns: None,
                    format: ResourceFormat::Json,
                },
            ),
        ),
        ResourceFormat::Json.name() == "json"@,
{
}

/// The text for a format that is not allowed ends with the words that are.
pub proof fn lemma_names_the_allowed_formats(given: Seq<char>, allowed: Seq<char>)
    ensures
        ends_with(unsupported_format(given, allowed), allowed),
{
    let text = unsupported_format(given, allowed);
    assert(text.subrange(text.len() - allowed.len(), text.len() as int) =~= allowed);
}

/// A selection is made only of an argument vector on which all three global
/// flags were matched, and it holds their values as they were given.
pub proof fn lemma_selection_holds_globals(args: Seq<Seq<char>>, options: OptionsView)
    requires
        OptionsView::created(args, Ok(options)),
    ensures
        matched_by(args) is Some,
        has_globals(matched_by(args)->Some_0),
        options.global() == globals(matched_by(args)->Some_0),
{
}

/// The options that are executed are the options that were selected, and
/// the report is the one that they are for.
pub proof fn lemma_executes_what_was_selected(options: OptionsView)
    ensures
        ActionView::planned(Ok(options)) == ActionView::Execute(options),
        options is WorldStats <==> options.report() == Report::World,
        options is ResourceStats <==> options.report() == Report::Resources,
{
}

/// A report that fails ends the process with status 1 and with the text of
/// its own error, to which nothing is added and of which nothing is dropped.
pub proof fn lemma_failed_report_exits_with_its_text(report: Report, text: Seq<char>)
    ensures
        wrapped(report, Err(text)) is Err,
        wrapped(report, Err(text))->Err_0.message() == text,
        concluded(wrapped(report, Err(text))) == ExitView::Failure(text),
        concluded(wrapped(report, Err(text))).status() == 1,
{
}

/// A report that succeeds ends the process with status 0.
pub proof fn lemma_finished_report_exits_with_zero(report: Report)
    ensures
        concluded(wrapped(report, Ok(()))) == ExitView::Success,
        concluded(wrapped(report, Ok(()))).status() == 0,
{
}

/// The fixed parts of the texts are one line each.
proof fn lemma_fixed_texts_are_one_line()
    ensures
        one_line("The following required argument was not provided: --"@),
        one_line("ris4"@),
        one_line("ris6"@),
        one_line("vrps"@),
        one_line("stats"@),
        one_line(no_subcommand()),
        one_line("Unsupported format: "@),
        one_line(". Supported formats: "@),
        one_line(WorldFormat::allowed()),
        one_line(ResourceFormat::allowed()),
{
    reveal_strlit("The following required argument was not provided: --");
    reveal_strlit("ris4");
    reveal_strlit("ris6");
    reveal_strlit("vrps");
    reveal_strlit("stats");
    reveal_strlit("No sub-command given. See --help for options.");
    reveal_strlit("Unsupported format: ");
    reveal_strlit(". Supported formats: ");
    reveal_strlit("json | html | text");
    reveal_strlit("json | text");
}

/// Every usage error that parsing gives is one line, whatever the
/// arguments.
pub proof fn lemma_usage_errors_are_one_line(
    args: Seq<Seq<char>>,
    result: Result<OptionsView, ErrorView>,
)
    requires
        OptionsView::created(args, result),
        result matches Err(ErrorView::WithMessage(_)),
    ensures
        one_line(result->Err_0.message()),
{
    lemma_fixed_texts_are_one_line();
    let head = "The following required argument was not provided: --"@;
    lemma_one_line_joined(head, "ris4"@);
    lemma_one_line_joined(head, "ris6"@);
    lemma_one_line_joined(head, "vrps"@);
    lemma_one_line_joined(head, "stats"@);
    match parsed(cli_view().relaxed(), args) {
        Some(matches) => {
            let read = matched(matches);
            assert(result == OptionsView::selected(read));
            match read.subcommand {
                Some(SubMatchesView::World { stats, format }) => {
                    if format is Some {
                        lemma_unsupported_format_is_one_line(
                            format->Some_0,
                            WorldFormat::allowed(),
                        );
                    }
                },
                Some(SubMatchesView::Resources { ips, asns, format }) => {
                    if format is Some {
                        lemma_unsupported_format_is_one_line(
                            format->Some_0,
                            ResourceFormat::allowed(),
                        );
                    }
                },
                None => {},
            }
        },
        None => {
            let text = choose|text: Seq<char>|
                result == Err::<OptionsView, ErrorView>(
                    crate::parser::refusal_view(refusal_fails(cli_view().relaxed(), args), text),
                );
            lemma_first_line_is_one_line(text);
        },
    }
}

/// The text for a format that is not allowed is one line where the allowed
/// words are.
pub proof fn lemma_unsupported_format_is_one_line(given: Seq<char>, allowed: Seq<char>)
    requires
        one_line(allowed),
    ensures
        one_line(unsupported_format(given, allowed)),
{
    lemma_fixed_texts_are_one_line();
    lemma_first_line_is_one_line(given);
    lemma_one_line_joined("Unsupported format: "@, first_line_of(given));
    lemma_one_line_joined(
        "Unsupported format: "@ + first_line_of(given),
        ". Supported formats: "@,
    );
    lemma_one_line_joined(
        "Unsupported format: "@ + first_line_of(given) + ". Supported formats: "@,
        allowed,
    );
}

/// Whether one of `flags` has that name, and is required or not as given.
pub open spec fn declares(flags: Seq<FlagView>, name: Seq<char>, required: bool) -> bool {
    exists|i: int|
        0 <= i < flags.len() && (#[trigger] flags[i]).name == name && flags[i].required
            == required
}

/// The grammar has every flag whose value is read from the matches, in the
/// place where it is read: `ris4`, `ris6` and `vrps` at the top and `stats`
/// under `world` as required, the others as optional. These four are the
/// flags for whose absence validation fails. For each `format`, the grammar
/// shows the words that an error for an unsupported format names.
pub proof fn lemma_grammar_has_what_is_read()
    ensures
        declares(cli_view().flags, "ris4"@, true),
        declares(cli_view().flags, "ris6"@, true),
        declares(cli_view().flags, "vrps"@, true),
        cli_view().subcommands == seq![world_command(), resources_command()],
        world_command().name == "world"@,
        declares(world_command().flags, "stats"@, true),
        declares(world_command().flags, "format"@, false),
        world_command().flags[1].value_name == WorldFormat::allowed(),
        resources_command().name == "resources"@,
        declares(resources_command().flags, "ips"@, false),
        declares(resources_command().flags, "asns"@, false),
        declares(resources_command().flags, "format"@, false),
        resources_command().flags[2].value_name == ResourceFormat::allowed(),
        forall|matches: MatchesView|
            #![trigger OptionsView::selected(matches)]
            !has_globals(matches) ==> OptionsView::selected(matches) is Err,
        forall|matches: MatchesView|
            #![trigger OptionsView::selected(matches)]
            (matches.subcommand matches Some(SubMatchesView::World { stats, .. }) && stats is None)
                ==> OptionsView::selected(matches) is Err,
{
    let global = cli_view().flags;
    assert(global[0].name == "ris4"@ && global[1].name == "ris6"@ && global[2].name == "vrps"@);
    let world = world_command().flags;
    assert(world[0].name == "stats"@ && world[1].name == "format"@);
    let resources = resources_command().flags;
    assert(resources[0].name == "ips"@ && resources[1].name == "asns"@ && resources[2].name
        == "format"@);
}

/// Parsing the same argument vector twice gives the same selection: where
/// one of two results for the same arguments is a selection, the other is
/// that selection too.
pub proof fn lemma_reparse_gives_same_selection(
    args: Seq<Seq<char>>,
    first: Result<OptionsView, ErrorView>,
    second: Result<OptionsView, ErrorView>,
)
    requires
        OptionsView::created(args, first),
        OptionsView::created(args, second),
        first is Ok || second is Ok,
    ensures
        first == second,
{
}

/// Where `clap` matches the arguments, parsing them twice gives the same
/// result, be it a selection or an error of the validator. Where it does not
/// match them, both results are errors of the same kind.
pub proof fn lemma_reparse_gives_same_result(
    args: Seq<Seq<char>>,
    first: Result<OptionsView, ErrorView>,
    second: Result<OptionsView, ErrorView>,
)
    requires
        OptionsView::created(args, first),
        OptionsView::created(args, second),
    ensures
        matched_by(args) is Some ==> first == second,
        matched_by(args) is None ==> first is Err && second is Err && (first->Err_0 is WithMessage
            <==> second->Err_0 is WithMessage),
{
}

} // verus!
