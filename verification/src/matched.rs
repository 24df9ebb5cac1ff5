//! What a command line matched, as plain values.
//!
//! A value of [`Matches`] holds what the validator reads: the values of the
//! three global flags and, under the sub-command that was given, the values
//! of its own flags. Nothing in it has been validated yet: any value may be
//! missing.

use crate::bindings::{matches_subcommand_matches, matches_value_of, matches_view, MatchedView};
use vstd::prelude::*;

verus! {

/// What was matched under the sub-command that was given.
#[derive(Debug, Clone, PartialEq, Eq)]
pub enum SubMatches {
    /// Under `world`.
    World { stats: Option<String>, format: Option<String> },
    /// Under `resources`.
    Resources { ips: Option<String>, asns: Option<String>, format: Option<String> },
}

/// A [`SubMatches`] with its texts as character sequences.
pub enum SubMatchesView {
    World { stats: Option<Seq<char>>, format: Option<Seq<char>> },
    Resources { ips: Option<Seq<char>>, asns: Option<Seq<char>>, format: Option<Seq<char>> },
}

impl View for SubMatches {
    type V = SubMatchesView;

    open spec fn view(&self) -> SubMatchesView {
        match self {
            SubMatches::World { stats, format } => SubMatchesView::World {
                stats: stats.deep_view(),
                format: format.deep_view(),
            },
            SubMatches::Resources { ips, asns, format } => SubMatchesView::Resources {
                ips: ips.deep_view(),
                asns: asns.deep_view(),
                format: format.deep_view(),
            },
        }
    }
}

/// What a command line matched.
#[derive(Debug, Clone, PartialEq, Eq)]
pub struct Matches {
    /// The value of `--ris4`.
    pub ris4: Option<String>,
    /// The value of `--ris6`.
    pub ris6: Option<String>,
    /// The value of `--vrps`.
    pub vrps: Option<String>,
    /// The sub-command, where one was given.
    pub subcommand: Option<SubMatches>,
}

/// A [`Matches`] with its texts as character sequences.
pub struct MatchesView {
    pub ris4: Option<Seq<char>>,
    pub ris6: Option<Seq<char>>,
    pub vrps: Option<Seq<char>>,
    pub subcommand: Option<SubMatchesView>,
}

impl View for Matches {
    type V = MatchesView;

    open spec fn view(&self) -> MatchesView {
        MatchesView {
            ris4: self.ris4.deep_view(),
            ris6: self.ris6.deep_view(),
            vrps: self.vrps.deep_view(),
            subcommand: match self.subcommand {
                Some(subcommand) => Some(subcommand@),
                None => None,
            },
        }
    }
}

/// What is read under `world`.
pub open spec fn world_matched(under: MatchedView) -> SubMatchesView {
    SubMatchesView::World { stats: under.value("stats"@), format: under.value("format"@) }
}

/// What is read under `resources`.
pub open spec fn resources_matched(under: MatchedView) -> SubMatchesView {
    SubMatchesView::Resources {
        ips: under.value("ips"@),
        asns: under.value("asns"@),
        format: under.value("format"@),
    }
}

/// What is read from the matches of `clap`. The sub-command is `world` where
/// that was given, else `resources` where that was given, else none.
pub open spec fn matched(matches: MatchedView) -> MatchesView {
    MatchesView {
        ris4: matches.value("ris4"@),
        ris6: matches.value("ris6"@),
        vrps: matches.value("vrps"@),
        subcommand: if let Some(under) = matches.under("world"@) {
            Some(world_matched(under))
        } else if let Some(under) = matches.under("resources"@) {
            Some(resources_matched(under))
        } else {
            None
        },
    }
}

impl Matches {
    /// Reads from the matches of `clap` what the validator needs.
    pub fn read(matches: &clap::ArgMatches<'static>) -> (read: Matches)
        ensures
            read@ == matched(matches_view(*matches)),
    {
        let subcommand = match matches_subcommand_matches(matches, "world") {
            Some(under) => Some(
                SubMatches::World {
                    stats: matches_value_of(under, "stats"),
                    format: matches_value_of(under, "format"),
                },
            ),
            None => match matches_subcommand_matches(matches, "resources") {
                Some(under) => Some(
                    SubMatches::Resources {
                        ips: matches_value_of(under, "ips"),
                        asns: matches_value_of(under, "asns"),
                        format: matches_value_of(under, "format"),
                    },
                ),
                None => None,
            },
        };
        Matches {
            ris4: matches_value_of(matches, "ris4"),
            ris6: matches_value_of(matches, "ris6"),
            vrps: matches_value_of(matches, "vrps"),
            subcommand,
        }
    }
}

} // verus!
