//! The typed option bundles and the validator that builds them.
//!
//! The parser requires no flag, so every command line that it matches comes
//! here, whatever is missing from it. Validation goes in a fixed order: the
//! three global flags, then the sub-command, then the sub-command's own
//! flags, then the output format. The first thing found wrong is the error,
//! and its text is one line.

use crate::bindings::{parsed, refusal_fails};
use crate::error::{outcome_view, Error, ErrorView};
use crate::format::{ResourceFormat, WorldFormat};
use crate::grammar::{
    cli_view, flags_view, global_flags, subcommands_view, world_command, world_flags, Flag, Grammar,
};
use crate::matched::{matched, Matches, MatchesView, SubMatches, SubMatchesView};
use crate::parser::{parse_args, refusal_view};
use crate::text::join;
use vstd::prelude::*;

verus! {

/// The text of the error for a required flag that was not given.
pub open spec fn missing_argument(long: Seq<char>) -> Seq<char> {
    "The following required argument was not provided: --"@ + long
}

/// The text of the error for a command line without a sub-command.
pub open spec fn no_subcommand() -> Seq<char> {
    "No sub-command given. See --help for options."@
}

/// The value of a required flag, or the error that names the flag.
pub open spec fn required(value: Option<Seq<char>>, long: Seq<char>) -> Result<
    Seq<char>,
    ErrorView,
> {
    match value {
        Some(value) => Ok(value),
        None => Err(ErrorView::WithMessage(missing_argument(long))),
    }
}

/// The value of a flag that the grammar has as required, or the error that
/// names the flag.
fn require(value: &Option<String>, flag: &Flag) -> (result: Result<String, Error>)
    requires
        flag@.required,
    ensures
        outcome_view(result) == required(value.deep_view(), flag@.long),
{
    match value {
        Some(text) => Ok(text.clone()),
        None => Err(
            Error::WithMessage(
                join("The following required argument was not provided: --", flag.long),
            ),
        ),
    }
}

/// The three input files that every report reads.
#[derive(Debug, Clone, PartialEq, Eq)]
pub struct GlobalOptions {
    /// The RIS dump of the IPv4 routes.
    pub ris4: String,
    /// The RIS dump of the IPv6 routes.
    pub ris6: String,
    /// The CSV file of validated ROA payloads.
    pub vrps: String,
}

/// A [`GlobalOptions`] with its paths as character sequences.
pub struct GlobalOptionsView {
    pub ris4: Seq<char>,
    pub ris6: Seq<char>,
    pub vrps: Seq<char>,
}

impl View for GlobalOptions {
    type V = GlobalOptionsView;

    open spec fn view(&self) -> GlobalOptionsView {
        GlobalOptionsView { ris4: self.ris4@, ris6: self.ris6@, vrps: self.vrps@ }
    }
}

impl GlobalOptionsView {
    /// The global options of what was matched: all three paths as they were
    /// given, or the error that names the first of `ris4`, `ris6` and `vrps`
    /// that is missing.
    pub open spec fn selected(matches: MatchesView) -> Result<GlobalOptionsView, ErrorView> {
        match required(matches.ris4, "ris4"@) {
            Err(error) => Err(error),
            Ok(ris4) => match required(matches.ris6, "ris6"@) {
                Err(error) => Err(error),
                Ok(ris6) => match required(matches.vrps, "vrps"@) {
                    Err(error) => Err(error),
                    Ok(vrps) => Ok(GlobalOptionsView { ris4, ris6, vrps }),
                },
            },
        }
    }
}

impl GlobalOptions {
    /// The global options of what was matched. Which flags are asked for,
    /// and under which names, is taken from the grammar.
    pub fn select(matches: &Matches) -> (result: Result<GlobalOptions, Error>)
        ensures
            outcome_view(result) == GlobalOptionsView::selected(matches@),
    {
        let grammar = Grammar::cli();
        let ghost flags = flags_view(grammar.flags@);
        assert(flags == global_flags() && flags.len() == 3);
        assert(flags[0] == grammar.flags[0]@ && flags[1] == grammar.flags[1]@ && flags[2]
            == grammar.flags[2]@);
        let ris4 = match require(&matches.ris4, &grammar.flags[0]) {
            Ok(text) => text,
            Err(error) => return Err(error),
        };
        let ris6 = match require(&matches.ris6, &grammar.flags[1]) {
            Ok(text) => text,
            Err(error) => return Err(error),
        };
        let vrps = match require(&matches.vrps, &grammar.flags[2]) {
            Ok(text) => text,
            Err(error) => return Err(error),
        };
        Ok(GlobalOptions { ris4, ris6, vrps })
    }
}

/// The options of the per-country report.
#[derive(Debug, Clone, PartialEq, Eq)]
pub struct WorldStatsOpts {
    pub global: GlobalOptions,
    /// The delegated-stats file.
    pub stats: String,
    pub format: WorldFormat,
}

/// A [`WorldStatsOpts`] with its paths as character sequences.
pub struct WorldStatsOptsView {
    pub global: GlobalOptionsView,
    pub stats: Seq<char>,
    pub format: WorldFormat,
}

impl View for WorldStatsOpts {
    type V = WorldStatsOptsView;

    open spec fn view(&self) -> WorldStatsOptsView {
        WorldStatsOptsView { global: self.global@, stats: self.stats@, format: self.format }
    }
}

impl WorldStatsOptsView {
    /// The options for what was matched under `world`: the path of the
    /// delegated-stats file as it was given and the chosen format, or the
    /// error for the missing `stats`, or else that for the format.
    pub open spec fn selected(
        global: GlobalOptionsView,
        stats: Option<Seq<char>>,
        format: Option<Seq<char>>,
    ) -> Result<WorldStatsOptsView, ErrorView> {
        match required(stats, "stats"@) {
            Err(error) => Err(error),
            Ok(stats) => match WorldFormat::chosen(format) {
                Err(error) => Err(error),
                Ok(format) => Ok(WorldStatsOptsView { global, stats, format }),
            },
        }
    }
}

impl WorldStatsOpts {
    /// The options for what was matched under `world`. That `stats` is
    /// asked for, and under which name, is taken from the grammar.
    pub fn select(global: GlobalOptions, stats: &Option<String>, format: &Option<String>) -> (result:
        Result<WorldStatsOpts, Error>)
        ensures
            outcome_view(result) == WorldStatsOptsView::selected(
                global@,
                stats.deep_view(),
                format.deep_view(),
            ),
    {
        let grammar = Grammar::cli();
        let ghost commands = subcommands_view(grammar.subcommands@);
        assert(commands == cli_view().subcommands && commands.len() == 2);
        assert(commands[0] == grammar.subcommands[0]@ && commands[0] == world_command());
        let ghost flags = flags_view(grammar.subcommands[0].flags@);
        assert(flags == world_flags() && flags.len() == 2);
        assert(flags[0] == grammar.subcommands[0].flags[0]@);
        let stats = match require(stats, &grammar.subcommands[0].flags[0]) {
            Ok(text) => text,
            Err(error) => return Err(error),
        };
        let format = match WorldFormat::pick(format) {
            Ok(format) => format,
            Err(error) => return Err(error),
        };
        Ok(WorldStatsOpts { global, stats, format })
    }
}

/// The options of the per-resource report.
#[derive(Debug, Clone, PartialEq, Eq)]
pub struct ResourceReportOpts {
    pub global: GlobalOptions,
    /// The prefixes and ranges to report on; all where none are given.
    pub ips: Option<String>,
    /// The ASNs and ASN ranges to report on; all where none are given.
    pub asns: Option<String>,
    pub format: ResourceFormat,
}

/// A [`ResourceReportOpts`] with its texts as character sequences.
pub struct ResourceReportOptsView {
    pub global: GlobalOptionsView,
    pub ips: Option<Seq<char>>,
    pub asns: Option<Seq<char>>,
    pub format: ResourceFormat,
}

impl View for ResourceReportOpts {
    type V = ResourceReportOptsView;

    open spec fn view(&self) -> ResourceReportOptsView {
        ResourceReportOptsView {
            global: self.global@,
            ips: self.ips.deep_view(),
            asns: self.asns.deep_view(),
            format: self.format,
        }
    }
}

impl ResourceReportOptsView {
    /// The options for what was matched under `resources`: the two scopes as
    /// they were given and the chosen format, or the error for the format.
    pub open spec fn selected(
        global: GlobalOptionsView,
        ips: Option<Seq<char>>,
        asns: Option<Seq<char>>,
        format: Option<Seq<char>>,
    ) -> Result<ResourceReportOptsView, ErrorView> {
        match ResourceFormat::chosen(format) {
            Err(error) => Err(error),
            Ok(format) => Ok(ResourceReportOptsView { global, ips, asns, format }),
        }
    }
}

impl ResourceReportOpts {
    /// The options for what was matched under `resources`.
    pub fn select(
        global: GlobalOptions,
        ips: &Option<String>,
        asns: &Option<String>,
        format: &Option<String>,
    ) -> (result: Result<ResourceReportOpts, Error>)
        ensures
            outcome_view(result) == ResourceReportOptsView::selected(
                global@,
                ips.deep_view(),
                asns.deep_view(),
                format.deep_view(),
            ),
    {
        let format = match ResourceFormat::pick(format) {
            Ok(format) => format,
            Err(error) => return Err(error),
        };
        Ok(ResourceReportOpts { global, ips: ips.clone(), asns: asns.clone(), format })
    }
}

/// The report that was selected, with its options.
#[derive(Debug, Clone, PartialEq, Eq)]
pub enum Options {
    WorldStats(WorldStatsOpts),
    ResourceStats(ResourceReportOpts),
}

/// An [`Options`] with its texts as character sequences.
pub enum OptionsView {
    WorldStats(WorldStatsOptsView),
    ResourceStats(ResourceReportOptsView),
}

impl View for Options {
    type V = OptionsView;

    open spec fn view(&self) -> OptionsView {
        match self {
            Options::WorldStats(options) => OptionsView::WorldStats(options@),
            Options::ResourceStats(options) => OptionsView::ResourceStats(options@),
        }
    }
}

impl OptionsView {
    /// The three input files, whichever report was selected.
    pub open spec fn global(self) -> GlobalOptionsView {
        match self {
            OptionsView::WorldStats(options) => options.global,
            OptionsView::ResourceStats(options) => options.global,
        }
    }

    /// The selection for what was matched.
    ///
    /// The global flags come first: where one is missing, the error names the
    /// first that is. Then the sub-command: where there is none, the error
    /// says so. Then the sub-command's own flags and the format.
    pub open spec fn selected(matches: MatchesView) -> Result<OptionsView, ErrorView> {
        match GlobalOptionsView::selected(matches) {
            Err(error) => Err(error),
            Ok(global) => match matches.subcommand {
                None => Err(ErrorView::WithMessage(no_subcommand())),
                Some(SubMatchesView::World { stats, format }) => match WorldStatsOptsView::selected(
                    global,
                    stats,
                    format,
                ) {
                    Err(error) => Err(error),
                    Ok(options) => Ok(OptionsView::WorldStats(options)),
                },
                Some(
                    SubMatchesView::Resources { ips, asns, format },
                ) => match ResourceReportOptsView::selected(global, ips, asns, format) {
                    Err(error) => Err(error),
                    Ok(options) => Ok(OptionsView::ResourceStats(options)),
                },
            },
        }
    }

    /// What `create` may return for an argument vector.
    ///
    /// Where `clap` matches the arguments, the result is the selection for
    /// what it matched, or the error of the validator. Where it refuses
    /// them, the result is a usage error with one line of its text. Where
    /// they ask for the help, the result is the help text, to display.
    pub open spec fn created(args: Seq<Seq<char>>, result: Result<OptionsView, ErrorView>) -> bool {
        match parsed(cli_view().relaxed(), args) {
            Some(matches) => result == Self::selected(matched(matches)),
            None => exists|text: Seq<char>|
                result == Err::<OptionsView, ErrorView>(
                    refusal_view(refusal_fails(cli_view().relaxed(), args), text),
                ),
        }
    }
}

impl Options {
    /// The three input files, whichever report was selected.
    pub fn global(&self) -> (global: &GlobalOptions)
        ensures
            global@ == self@.global(),
    {
        match self {
            Options::WorldStats(options) => &options.global,
            Options::ResourceStats(options) => &options.global,
        }
    }

    /// Validates what was matched and builds the selection.
    pub fn select(matches: &Matches) -> (result: Result<Options, Error>)
        ensures
            outcome_view(result) == OptionsView::selected(matches@),
    {
        let global = match GlobalOptions::select(matches) {
            Ok(global) => global,
            Err(error) => return Err(error),
        };
        match &matches.subcommand {
            None => Err(Error::msg("No sub-command given. See --help for options.")),
            Some(SubMatches::World { stats, format }) => {
                match WorldStatsOpts::select(global, stats, format) {
                    Ok(options) => Ok(Options::WorldStats(options)),
                    Err(error) => Err(error),
                }
            },
            Some(SubMatches::Resources { ips, asns, format }) => {
                match ResourceReportOpts::select(global, ips, asns, format) {
                    Ok(options) => Ok(Options::ResourceStats(options)),
                    Err(error) => Err(error),
                }
            },
        }
    }

    /// The selection for the matches of `clap`.
    pub fn from_matches(matches: &clap::ArgMatches<'static>) -> (result: Result<Options, Error>)
        ensures
            outcome_view(result) == OptionsView::selected(
                matched(crate::bindings::matches_view(*matches)),
            ),
    {
        let read = Matches::read(matches);
        Options::select(&read)
    }

    /// Parses and validates an argument vector, given without the program's
    /// name. Nothing is read or written.
    pub fn create(args: &Vec<String>) -> (result: Result<Options, Error>)
        ensures
            OptionsView::created(args.deep_view(), outcome_view(result)),
    {
        match parse_args(args) {
            Ok(matches) => Options::from_matches(&matches),
            Err(error) => Err(error),
        }
    }
}

} // verus!
