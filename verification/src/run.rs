//! The decisions of one run of the program.
//!
//! A run parses, then either leaves or executes one report, then leaves:
//!
//! ```text
//! start -> parsing -> parse failure (status 1)
//!                  -> help displayed (status 0)
//!                  -> dispatching -> report failure (status 1)
//!                                 -> report success (status 0)
//! ```
//!
//! The work is done by the caller; what to do next is decided here:
//!
//! - after parsing, [`plan`] says whether to execute a report, and with
//!   which options, or how to leave;
//! - after the report, [`wrap`] turns its failure into the error of this
//!   crate and [`conclude`] says how to leave.
//!
//! There is no retry and no fallback from one report to the other: the
//! first failure ends the run.

use crate::error::{outcome_view, Error, ErrorView};
use crate::options::{Options, OptionsView};
use vstd::prelude::*;

verus! {

/// One of the two reports.
#[derive(Debug, Clone, Copy, PartialEq, Eq)]
pub enum Report {
    /// ROA quality per country.
    World,
    /// ROA quality per resource.
    Resources,
}

impl OptionsView {
    /// The report that the options are for.
    pub open spec fn report(self) -> Report {
        match self {
            OptionsView::WorldStats(_) => Report::World,
            OptionsView::ResourceStats(_) => Report::Resources,
        }
    }
}

impl Options {
    /// The report that the options are for.
    pub fn report(&self) -> (report: Report)
        ensures
            report == self@.report(),
    {
        match self {
            Options::WorldStats(_) => Report::World,
            Options::ResourceStats(_) => Report::Resources,
        }
    }
}

/// How the process ends.
#[derive(Debug, Clone, PartialEq, Eq)]
pub enum Exit {
    /// The report was made. Nothing more is written.
    Success,
    /// The text goes to standard output as one line.
    Displayed(String),
    /// The text goes to standard error as one line.
    Failure(String),
}

/// An [`Exit`] with its text as a character sequence.
pub enum ExitView {
    Success,
    Displayed(Seq<char>),
    Failure(Seq<char>),
}

impl ExitView {
    /// The exit status of the process: 1 for a failure, else 0.
    pub open spec fn status(self) -> int {
        match self {
            ExitView::Failure(_) => 1,
            _ => 0,
        }
    }

    /// How the process ends on the error: with its text, as a failure unless
    /// the text is one that the user asked for.
    pub open spec fn of_error(error: ErrorView) -> ExitView {
        match error {
            ErrorView::Displayed(text) => ExitView::Displayed(text),
            _ => ExitView::Failure(error.message()),
        }
    }
}

impl View for Exit {
    type V = ExitView;

    open spec fn view(&self) -> ExitView {
        match self {
            Exit::Success => ExitView::Success,
            Exit::Displayed(text) => ExitView::Displayed(text@),
            Exit::Failure(text) => ExitView::Failure(text@),
        }
    }
}

impl Exit {
    /// The exit status of the process.
    pub fn status(&self) -> (status: i32)
        ensures
            status == self@.status(),
    {
        match self {
            Exit::Failure(_) => 1,
            _ => 0,
        }
    }

    /// How the process ends on the error.
    pub fn of_error(error: Error) -> (exit: Exit)
        ensures
            exit@ == ExitView::of_error(error@),
    {
        match error {
            Error::Displayed(text) => Exit::Displayed(text),
            Error::WithMessage(text) => Exit::Failure(text),
            Error::WorldReportError(text) => Exit::Failure(text),
            Error::ResourceReportError(text) => Exit::Failure(text),
        }
    }
}

/// What to do after parsing.
#[derive(Debug, Clone, PartialEq, Eq)]
pub enum Action {
    /// Execute the report that the options are for, once, with these
    /// options.
    Execute(Options),
    /// Leave.
    Leave(Exit),
}

/// An [`Action`] with its texts as character sequences.
pub enum ActionView {
    Execute(OptionsView),
    Leave(ExitView),
}

impl ActionView {
    /// What to do after parsing gave `parsed`: execute with the options as
    /// they are, or leave on the error.
    pub open spec fn planned(parsed: Result<OptionsView, ErrorView>) -> ActionView {
        match parsed {
            Ok(options) => ActionView::Execute(options),
            Err(error) => ActionView::Leave(ExitView::of_error(error)),
        }
    }
}

impl View for Action {
    type V = ActionView;

    open spec fn view(&self) -> ActionView {
        match self {
            Action::Execute(options) => ActionView::Execute(options@),
            Action::Leave(exit) => ActionView::Leave(exit@),
        }
    }
}

/// What to do after parsing.
pub fn plan(parsed: Result<Options, Error>) -> (action: Action)
    ensures
        action@ == ActionView::planned(outcome_view(parsed)),
{
    match parsed {
        Ok(options) => Action::Execute(options),
        Err(error) => Action::Leave(Exit::of_error(error)),
    }
}

/// The outcome of a report, given with the text of its failure, as a
/// character sequence.
pub open spec fn reported_view(outcome: Result<(), String>) -> Result<(), Seq<char>> {
    match outcome {
        Ok(()) => Ok(()),
        Err(text) => Err(text@),
    }
}

/// The outcome of a report as this crate sees it: the text of a failure,
/// unchanged, under the variant of the report that failed.
pub open spec fn wrapped(report: Report, outcome: Result<(), Seq<char>>) -> Result<(), ErrorView> {
    match outcome {
        Ok(()) => Ok(()),
        Err(text) => Err(
            match report {
                Report::World => ErrorView::WorldReportError(text),
                Report::Resources => ErrorView::ResourceReportError(text),
            },
        ),
    }
}

/// Turns the outcome of a report, given with the text of its failure, into
/// the outcome as this crate sees it.
pub fn wrap(report: Report, outcome: Result<(), String>) -> (dispatched: Result<(), Error>)
    ensures
        outcome_view(dispatched) == wrapped(report, reported_view(outcome)),
{
    match outcome {
        Ok(()) => Ok(()),
        Err(text) => Err(
            match report {
                Report::World => Error::WorldReportError(text),
                Report::Resources => Error::ResourceReportError(text),
            },
        ),
    }
}

/// How the process ends after the report: in success, or on its error.
pub open spec fn concluded(dispatched: Result<(), ErrorView>) -> ExitView {
    match dispatched {
        Ok(()) => ExitView::Success,
        Err(error) => ExitView::of_error(error),
    }
}

/// How the process ends after the report.
pub fn conclude(dispatched: Result<(), Error>) -> (exit: Exit)
    ensures
        exit@ == concluded(outcome_view(dispatched)),
{
    match dispatched {
        Ok(()) => Exit::Success,
        Err(error) => Exit::of_error(error),
    }
}

} // verus!
