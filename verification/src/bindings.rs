//! What this crate takes from `clap`, and what it trusts of it.
//!
//! The values of `clap` are opaque to the verifier. Each kind of value gets a
//! name for what it holds, and each function that is called gets a contract
//! over those names. Nothing in this file is proved: the contracts restate
//! what the source of `clap` 2.34 does.

use crate::grammar::{cli_view, CommandView, Flag};
use vstd::prelude::*;

verus! {

/// `clap::App`: the description of a program or of a sub-command.
#[verifier::external_type_specification]
#[verifier::external_body]
pub struct ExApp<'a, 'b>(clap::App<'a, 'b>) where 'a: 'b;

/// `clap::ArgMatches`: what a command line matched.
#[verifier::external_type_specification]
#[verifier::external_body]
pub struct ExArgMatches<'a>(clap::ArgMatches<'a>);

/// Why `clap` matched nothing: the text to show, and whether it reports a
/// failure or is the help text that the user asked for.
#[derive(Debug, Clone, PartialEq, Eq)]
pub struct Refusal {
    pub failure: bool,
    pub text: String,
}

/// What a `clap::ArgMatches` holds: for each argument that was given with a
/// value, the first of its values, and the sub-command that was given, if
/// any, with what it matched in turn.
pub struct MatchedView {
    pub values: Map<Seq<char>, Seq<char>>,
    pub subcommand: Option<(Seq<char>, Box<MatchedView>)>,
}

impl MatchedView {
    /// The first value of the argument `name`, if it was given.
    pub open spec fn value(self, name: Seq<char>) -> Option<Seq<char>> {
        if self.values.contains_key(name) {
            Some(self.values[name])
        } else {
            None
        }
    }

    /// What the sub-command `name` matched, if it is the one that was given.
    pub open spec fn under(self, name: Seq<char>) -> Option<MatchedView> {
        match self.subcommand {
            Some((given, matched)) if given == name => Some(*matched),
            _ => None,
        }
    }
}

/// The command that a `clap::App` describes: its name, what was said of it,
/// and the arguments and sub-commands in the order in which they were added.
pub uninterp spec fn app_view(app: clap::App<'static, 'static>) -> CommandView;

/// What a `clap::ArgMatches` holds.
pub uninterp spec fn matches_view(matches: clap::ArgMatches<'static>) -> MatchedView;

/// What `clap` matches when it parses `args` for `command`, or `None` where
/// it refuses them or shows the help text instead.
pub uninterp spec fn parsed(command: CommandView, args: Seq<Seq<char>>) -> Option<MatchedView>;

/// What `Error::use_stderr` returns of the error with which `clap` answers
/// `args` for `command`, where it matches nothing: whether it refuses them,
/// rather than showing the help text.
pub uninterp spec fn refusal_fails(command: CommandView, args: Seq<Seq<char>>) -> bool;

/// `App::new`: a program of that name, with nothing else said of it.
#[verifier::external_body]
pub(crate) fn app_new(name: &str) -> (app: clap::App<'static, 'static>)
    ensures
        app_view(app) == CommandView::named(name@),
{
    clap::App::new(name)
}

/// `SubCommand::with_name`: a sub-command of that name, with nothing else
/// said of it.
#[verifier::external_body]
pub(crate) fn subcommand_with_name(name: &str) -> (app: clap::App<'static, 'static>)
    ensures
        app_view(app) == CommandView::named(name@),
{
    clap::SubCommand::with_name(name)
}

/// `App::version`: sets the version and nothing else.
#[verifier::external_body]
pub(crate) fn app_version(app: clap::App<'static, 'static>, version: &'static str) -> (out:
    clap::App<'static, 'static>)
    ensures
        app_view(out) == (CommandView { version: Some(version@), ..app_view(app) }),
{
    app.version(version)
}

/// `App::about`: sets the description and nothing else.
#[verifier::external_body]
pub(crate) fn app_about(app: clap::App<'static, 'static>, about: &'static str) -> (out:
    clap::App<'static, 'static>)
    ensures
        app_view(out) == (CommandView { about: Some(about@), ..app_view(app) }),
{
    app.about(about)
}

/// `App::setting` with `AppSettings::NoBinaryName`: argument vectors are then
/// read from their first item on.
#[verifier::external_body]
pub(crate) fn app_no_binary_name(app: clap::App<'static, 'static>) -> (out: clap::App<
    'static,
    'static,
>)
    ensures
        app_view(out) == (CommandView { no_binary_name: true, ..app_view(app) }),
{
    app.setting(clap::AppSettings::NoBinaryName)
}

/// `App::global_setting` with `AppSettings::DisableVersion`: `clap` then adds
/// no `--version`, neither here nor in a sub-command, and so never writes
/// the version to standard output.
#[verifier::external_body]
pub(crate) fn app_no_version_flag(app: clap::App<'static, 'static>) -> (out: clap::App<
    'static,
    'static,
>)
    ensures
        app_view(out) == (CommandView { no_version_flag: true, ..app_view(app) }),
{
    app.global_setting(clap::AppSettings::DisableVersion)
}

/// `App::arg`, with the `Arg` that `Arg::with_name`, `short`, `long`,
/// `value_name`, `help` and `required` make of the flag: adds the flag
/// after those that are there. `clap` strips leading hyphens from the short
/// and the long form, so a flag that had any would not be the one added; and
/// in a debug build it panics where the name, the short form or the long
/// form is in use already.
#[verifier::external_body]
pub(crate) fn app_flag(app: clap::App<'static, 'static>, flag: &Flag) -> (out: clap::App<
    'static,
    'static,
>)
    requires
        flag@.wf(),
        forall|i: int|
            0 <= i < app_view(app).flags.len() ==> (#[trigger] app_view(app).flags[i]).apart_from(
                flag@,
            ),
    ensures
        app_view(out) == (CommandView { flags: app_view(app).flags.push(flag@), ..app_view(app) }),
{
    app.arg(
        clap::Arg::with_name(flag.name)
            .short(flag.short.to_string())
            .long(flag.long)
            .value_name(flag.value_name)
            .help(flag.help)
            .required(flag.required),
    )
}

/// `App::subcommand`: adds the sub-command after those that are there.
#[verifier::external_body]
pub(crate) fn app_subcommand(
    app: clap::App<'static, 'static>,
    subcommand: clap::App<'static, 'static>,
) -> (out: clap::App<'static, 'static>)
    ensures
        app_view(out) == (CommandView {
            subcommands: app_view(app).subcommands.push(app_view(subcommand)),
            ..app_view(app)
        }),
{
    app.subcommand(subcommand)
}

/// `App::get_matches_from_safe`: parses the arguments. Whether they are
/// matched, what they match, and whether an error is a refusal or the help
/// text depend on the command and the arguments alone. The text of the error
/// does not (it is coloured where the process writes to a terminal), so
/// nothing is stated of it: it is the field `message`.
///
/// The contract is for the command of this program, as it is handed to the
/// parser. How `clap` lays out the help of a command depends on the widths of
/// its flags and texts, and no more is claimed than that it lays out this
/// one. This command has no `--version`, so `clap` writes nothing.
#[verifier::external_body]
pub(crate) fn app_get_matches_from_safe(
    app: clap::App<'static, 'static>,
    args: &Vec<String>,
) -> (outcome: Result<clap::ArgMatches<'static>, Refusal>)
    requires
        app_view(app) == cli_view().relaxed(),
    ensures
        match outcome {
            Ok(matches) => parsed(app_view(app), args.deep_view()) == Some(matches_view(matches)),
            Err(refusal) => {
                &&& parsed(app_view(app), args.deep_view()) is None
                &&& refusal.failure == refusal_fails(app_view(app), args.deep_view())
            },
        },
{
    match app.get_matches_from_safe(args) {
        Ok(matches) => Ok(matches),
        Err(error) => Err(Refusal { failure: error.use_stderr(), text: error.message }),
    }
}

/// `ArgMatches::value_of_lossy`: the first value of the argument of that
/// name, where it was given.
#[verifier::external_body]
pub(crate) fn matches_value_of(matches: &clap::ArgMatches<'static>, name: &str) -> (value: Option<
    String,
>)
    ensures
        match value {
            Some(text) => matches_view(*matches).value(name@) == Some(text@),
            None => matches_view(*matches).value(name@) is None,
        },
{
    matches.value_of_lossy(name).map(|value| value.into_owned())
}

/// `ArgMatches::subcommand_matches`: what the sub-command of that name
/// matched, where it is the one that was given.
#[verifier::external_body]
pub(crate) fn matches_subcommand_matches<'m>(
    matches: &'m clap::ArgMatches<'static>,
    name: &str,
) -> (under: Option<&'m clap::ArgMatches<'static>>)
    ensures
        match under {
            Some(sub) => matches_view(*matches).under(name@) == Some(matches_view(*sub)),
            None => matches_view(*matches).under(name@) is None,
        },
{
    matches.subcommand_matches(name)
}

} // verus!
