//! The output formats of the two reports.
//!
//! A format is selected by a word on the command line. The words are matched
//! as they are written: `JSON` is not `json`.

use crate::error::{outcome_view, Error, ErrorView};
use crate::text::{first_line, first_line_of, join, str_eq};
use vstd::prelude::*;
use vstd::string::*;

verus! {

/// The text of the error for an output format that is not allowed: the word
/// that was given, up to its first line feed if it has one, and the words
/// that are allowed.
pub open spec fn unsupported_format(given: Seq<char>, allowed: Seq<char>) -> Seq<char> {
    "Unsupported format: "@ + first_line_of(given) + ". Supported formats: "@ + allowed
}

/// The error for an output format that is not allowed.
fn refuse_format(given: &str, allowed: &str) -> (error: Error)
    ensures
        error@ == ErrorView::WithMessage(unsupported_format(given@, allowed@)),
{
    let word = first_line(given);
    let mut text = join("Unsupported format: ", word.as_str());
    text.append(". Supported formats: ");
    text.append(allowed);
    Error::WithMessage(text)
}

/// The output formats of the per-country report.
#[derive(Debug, Clone, Copy, PartialEq, Eq)]
pub enum WorldFormat {
    Json,
    Html,
    Text,
}

impl View for WorldFormat {
    type V = WorldFormat;

    open spec fn view(&self) -> WorldFormat {
        *self
    }
}

impl WorldFormat {
    /// The word that selects the format.
    pub open spec fn name(self) -> Seq<char> {
        match self {
            WorldFormat::Json => "json"@,
            WorldFormat::Html => "html"@,
            WorldFormat::Text => "text"@,
        }
    }

    /// The allowed words, as shown to the user.
    pub open spec fn allowed() -> Seq<char> {
        "json | html | text"@
    }

    /// The format that a word selects, if any.
    pub open spec fn named(word: Seq<char>) -> Option<WorldFormat> {
        if word == "json"@ {
            Some(WorldFormat::Json)
        } else if word == "html"@ {
            Some(WorldFormat::Html)
        } else if word == "text"@ {
            Some(WorldFormat::Text)
        } else {
            None
        }
    }

    /// The format for the value of `--format`: `json` where none was given,
    /// and an error that names the allowed words where the value is not one
    /// of them.
    pub open spec fn chosen(given: Option<Seq<char>>) -> Result<WorldFormat, ErrorView> {
        match given {
            None => Ok(WorldFormat::Json),
            Some(word) => match Self::named(word) {
                Some(format) => Ok(format),
                None => Err(ErrorView::WithMessage(unsupported_format(word, Self::allowed()))),
            },
        }
    }

    /// The word that selects the format.
    pub fn as_str(&self) -> (word: &'static str)
        ensures
            word@ == self.name(),
    {
        match self {
            WorldFormat::Json => "json",
            WorldFormat::Html => "html",
            WorldFormat::Text => "text",
        }
    }

    /// The format that a word selects, if any.
    pub fn parse(word: &str) -> (format: Option<WorldFormat>)
        ensures
            format == Self::named(word@),
    {
        if str_eq(word, "json") {
            Some(WorldFormat::Json)
        } else if str_eq(word, "html") {
            Some(WorldFormat::Html)
        } else if str_eq(word, "text") {
            Some(WorldFormat::Text)
        } else {
            None
        }
    }

    /// The format for the value of `--format`.
    pub fn pick(given: &Option<String>) -> (result: Result<WorldFormat, Error>)
        ensures
            outcome_view(result) == Self::chosen(given.deep_view()),
    {
        match given {
            None => Ok(WorldFormat::Json),
            Some(word) => match WorldFormat::parse(word.as_str()) {
                Some(format) => Ok(format),
                None => Err(refuse_format(word.as_str(), "json | html | text")),
            },
        }
    }
}

/// Every format of the per-country report is selected by its own word, and
/// by no other.
pub proof fn lemma_world_format_round_trip(format: WorldFormat, word: Seq<char>)
    ensures
        WorldFormat::named(format.name()) == Some(format),
        WorldFormat::named(word) == Some(format) <==> word == format.name(),
{
    reveal_strlit("json");
    reveal_strlit("html");
    reveal_strlit("text");
    assert("json"@[0] != "html"@[0]);
    assert("json"@[0] != "text"@[0]);
    assert("html"@[0] != "text"@[0]);
}

/// The output formats of the per-resource report.
#[derive(Debug, Clone, Copy, PartialEq, Eq)]
pub enum ResourceFormat {
    Json,
    Text,
}

impl View for ResourceFormat {
    type V = ResourceFormat;

    open spec fn view(&self) -> ResourceFormat {
        *self
    }
}

impl ResourceFormat {
    /// The word that selects the format.
    pub open spec fn name(self) -> Seq<char> {
        match self {
            ResourceFormat::Json => "json"@,
            ResourceFormat::Text => "text"@,
        }
    }

    /// The allowed words, as shown to the user.
    pub open spec fn allowed() -> Seq<char> {
        "json | text"@
    }

    /// The format that a word selects, if any.
    pub open spec fn named(word: Seq<char>) -> Option<ResourceFormat> {
        if word == "json"@ {
            Some(ResourceFormat::Json)
        } else if word == "text"@ {
            Some(ResourceFormat::Text)
        } else {
            None
        }
    }

    /// The format for the value of `--format`: `json` where none was given,
    /// and an error that names the allowed words where the value is not one
    /// of them.
    pub open spec fn chosen(given: Option<Seq<char>>) -> Result<ResourceFormat, ErrorView> {
        match given {
            None => Ok(ResourceFormat::Json),
            Some(word) => match Self::named(word) {
                Some(format) => Ok(format),
                None => Err(ErrorView::WithMessage(unsupported_format(word, Self::allowed()))),
            },
        }
    }

    /// The word that selects the format.
    pub fn as_str(&self) -> (word: &'static str)
        ensures
            word@ == self.name(),
    {
        match self {
            ResourceFormat::Json => "json",
            ResourceFormat::Text => "text",
        }
    }

    /// The format that a word selects, if any.
    pub fn parse(word: &str) -> (format: Option<ResourceFormat>)
        ensures
            format == Self::named(word@),
    {
        if str_eq(word, "json") {
            Some(ResourceFormat::Json)
        } else if str_eq(word, "text") {
            Some(ResourceFormat::Text)
        } else {
            None
        }
    }

    /// The format for the value of `--format`.
    pub fn pick(given: &Option<String>) -> (result: Result<ResourceFormat, Error>)
        ensures
            outcome_view(result) == Self::chosen(given.deep_view()),
    {
        match given {
            None => Ok(ResourceFormat::Json),
            Some(word) => match ResourceFormat::parse(word.as_str()) {
                Some(format) => Ok(format),
                None => Err(refuse_format(word.as_str(), "json | text")),
            },
        }
    }
}

/// Every format of the per-resource report is selected by its own word, and
/// by no other.
pub proof fn lemma_resource_format_round_trip(format: ResourceFormat, word: Seq<char>)
    ensures
        ResourceFormat::named(format.name()) == Some(format),
        ResourceFormat::named(word) == Some(format) <==> word == format.name(),
{
    reveal_strlit("json");
    reveal_strlit("text");
    assert("json"@[0] != "text"@[0]);
}

} // verus!
