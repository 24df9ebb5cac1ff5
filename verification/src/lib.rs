//! Command-line front end of a tool that compares BGP announcements with
//! validated ROA payloads.
//!
//! The crate turns an argument vector into a typed selection of one of two
//! reports and decides how the process ends. The argument vector is matched
//! by `clap` against a grammar that is held here as plain data; everything
//! that happens around that call is verified.
//!
//! - [`grammar`]: the flags and sub-commands, as data.
//! - [`bindings`]: the functions of `clap` that are called, with what is
//!   taken on trust of each.
//! - [`parser`]: the parser that is built from the grammar, and its run.
//! - [`matched`]: what a command line matched, as plain values.
//! - [`format`], [`options`]: the typed options and the validator.
//! - [`run`]: what to do after parsing and after the report.
//! - [`error`]: the error type.
//! - [`laws`]: what holds of every command line.
//! - [`text`]: comparison and composition of strings.

pub mod bindings;
pub mod error;
pub mod format;
pub mod grammar;
pub mod laws;
pub mod matched;
pub mod options;
pub mod parser;
pub mod run;
pub mod text;

pub use crate::error::Error;
pub use crate::options::Options;
