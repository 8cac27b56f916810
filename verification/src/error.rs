//! How a dispatch can end: its outcome on success, its error on failure.

use vstd::prelude::*;
use vstd::string::StringExecFns;
use crate::model::{Failure, Verdict};

verus! {

/// Why a dispatch failed. Each variant but the last holds the token at fault,
/// as it stood on the command line.
#[derive(Debug, PartialEq, Eq)]
pub enum CommandLineError {
    /// A token with a dash that names neither a flag nor a parameter.
    UnknownArgument(String),
    /// A `--name=value` token whose name is no declared parameter.
    UnexpectedParameter(String),
    /// A bare token that names no subcommand.
    UnknownCommand(String),
    /// A short-form parameter with no token after it.
    ExpectedValue(String),
    /// The tokens ended at a node that has no callback.
    ExpectedSubcommand,
}

/// What a successful dispatch produced.
#[derive(Debug, PartialEq, Eq)]
pub enum Outcome<R> {
    /// The callback of the selected node ran and returned this value.
    Completed(R),
    /// The tokens asked for help: no callback ran. The caller shows the help
    /// text and stops.
    HelpRequested,
}

impl View for CommandLineError {
    type V = Failure;

    open spec fn view(&self) -> Failure {
        match self {
            CommandLineError::UnknownArgument(token) => Failure::UnknownArgument(token@),
            CommandLineError::UnexpectedParameter(token) => Failure::UnexpectedParameter(token@),
            CommandLineError::UnknownCommand(token) => Failure::UnknownCommand(token@),
            CommandLineError::ExpectedValue(token) => Failure::ExpectedValue(token@),
            CommandLineError::ExpectedSubcommand => Failure::ExpectedSubcommand,
        }
    }
}

impl Failure {
    /// The message shown to the user for this failure.
    pub open spec fn message(self) -> Seq<char> {
        match self {
            Failure::UnknownArgument(token) => "Unknown argument: "@ + token,
            Failure::UnexpectedParameter(token) => "Unexpected parameter: "@ + token,
            Failure::UnknownCommand(token) => "Unknown command: "@ + token,
            Failure::ExpectedValue(token) => "Expected value for argument: "@ + token,
            Failure::ExpectedSubcommand => "Expected subcommand"@,
        }
    }
}

/// Whether `result` is what a dispatch that ends in `verdict` returns: the
/// value of the callback that the verdict names, the request for help, or the
/// error of the verdict's failure.
pub open spec fn fulfils<R, F: Fn() -> R>(
    result: Result<Outcome<R>, CommandLineError>,
    verdict: Verdict<F>,
) -> bool {
    match verdict {
        Verdict::Invoke(callback) => result matches Ok(Outcome::Completed(value)) && call_ensures(
            callback,
            (),
            value,
        ),
        Verdict::Help => result matches Ok(Outcome::HelpRequested),
        Verdict::Fail(failure) => result matches Err(error) && error@ == failure,
    }
}

impl CommandLineError {
    /// The message shown to the user for this error.
    pub fn message(&self) -> (text: String)
        ensures
            text@ == self@.message(),
    {
        match self {
            CommandLineError::UnknownArgument(token) => String::from_str("Unknown argument: ").concat(
                token.as_str(),
            ),
            CommandLineError::UnexpectedParameter(token) => String::from_str(
                "Unexpected parameter: ",
            ).concat(token.as_str()),
            CommandLineError::UnknownCommand(token) => String::from_str("Unknown command: ").concat(
                token.as_str(),
            ),
            CommandLineError::ExpectedValue(token) => String::from_str(
                "Expected value for argument: ",
            ).concat(token.as_str()),
            CommandLineError::ExpectedSubcommand => String::from_str("Expected subcommand"),
        }
    }
}

} // verus!
