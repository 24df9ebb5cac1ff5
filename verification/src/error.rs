//! The one error type of the front end.

use vstd::prelude::*;
use vstd::string::*;

verus! {

/// Why an invocation ended without a finished report.
///
/// Every variant carries the text that is shown to the user, unchanged from
/// where it arose.
#[derive(Debug, Clone, PartialEq, Eq)]
pub enum Error {
    /// The command line was not usable: a required flag or the sub-command is
    /// missing, a value is not one of those allowed, or the parser refused a
    /// word. The text is one line.
    WithMessage(String),
    /// The per-country report failed; the text is that of its own error.
    WorldReportError(String),
    /// The per-resource report failed; the text is that of its own error.
    ResourceReportError(String),
    /// The user asked for the help text. Nothing failed: the text goes to
    /// standard output and the process ends with status 0.
    Displayed(String),
}

/// An [`Error`] with its texts as character sequences.
pub enum ErrorView {
    WithMessage(Seq<char>),
    WorldReportError(Seq<char>),
    ResourceReportError(Seq<char>),
    Displayed(Seq<char>),
}

impl ErrorView {
    /// The text that the error carries.
    pub open spec fn message(self) -> Seq<char> {
        match self {
            ErrorView::WithMessage(text) => text,
            ErrorView::WorldReportError(text) => text,
            ErrorView::ResourceReportError(text) => text,
            ErrorView::Displayed(text) => text,
        }
    }

    /// Whether the error stands for a failure, as every variant but
    /// `Displayed` does.
    pub open spec fn is_failure(self) -> bool {
        !(self is Displayed)
    }
}

impl View for Error {
    type V = ErrorView;

    open spec fn view(&self) -> ErrorView {
        match self {
            Error::WithMessage(text) => ErrorView::WithMessage(text@),
            Error::WorldReportError(text) => ErrorView::WorldReportError(text@),
            Error::ResourceReportError(text) => ErrorView::ResourceReportError(text@),
            Error::Displayed(text) => ErrorView::Displayed(text@),
        }
    }
}

/// A result of this crate with its texts as character sequences.
pub open spec fn outcome_view<T: View>(result: Result<T, Error>) -> Result<T::V, ErrorView> {
    match result {
        Ok(value) => Ok(value@),
        Err(error) => Err(error@),
    }
}

impl Error {
    /// A usage error with the given text.
    pub fn msg(s: &str) -> (error: Error)
        ensures
            error@ == ErrorView::WithMessage(s@),
    {
        Error::WithMessage(String::from_str(s))
    }

    /// The text to show to the user.
    pub fn message(&self) -> (text: String)
        ensures
            text@ == self@.message(),
    {
        match self {
            Error::WithMessage(text) => text.clone(),
            Error::WorldReportError(text) => text.clone(),
            Error::ResourceReportError(text) => text.clone(),
            Error::Displayed(text) => text.clone(),
        }
    }

    /// Whether the error stands for a failure.
    pub fn is_failure(&self) -> (failure: bool)
        ensures
            failure == self@.is_failure(),
    {
        match self {
            Error::Displayed(_) => false,
            _ => true,
        }
    }
}

} // verus!
