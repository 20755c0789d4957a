//! The ways in which building a sandbox command can fail, and the text that
//! is shown for each.

use vstd::prelude::*;
use vstd::string::StringExecFns;
use crate::text::{debug_of, debug_text};

verus! {

/// A failure of the library.
#[derive(Debug, PartialEq, Eq)]
pub enum Error {
    /// A backslash stands before a character that is neither whitespace nor
    /// a backslash.
    IllegalEscape,
    /// The template ends in a backslash.
    TrailingBackslash,
    /// A `{` is neither doubled nor followed by a `}`.
    UnbalancedOpen,
    /// A `}` is neither doubled nor preceded by an open `{`.
    UnbalancedClose,
    /// The template holds `{}` and the caller has no build script path.
    PathUnavailable,
    /// The template names a variable that has no value.
    VariableNotFound(String),
    /// No template was fixed when the wrapper was compiled.
    TemplateUndefined,
    /// The template expands to no word at all.
    EmptyCommand,
    /// The template holds no word at all.
    EmptyTemplate,
    /// A command could not be started or did not end in success.
    CommandFailed,
    /// The path of the build script names no directory that holds it.
    NoParent,
    /// A configuration file is no TOML document; the text says why.
    InvalidConfig(String),
    /// The build tool's configuration names no linker.
    UnexpectedConfig,
    /// The description of the operating system names no version.
    MissingVersionId,
    /// The version of the operating system is not of the form that is read.
    BadVersionId(String),
    /// A line of the description of the operating system is not of the form
    /// that is read.
    BadLine(String),
    /// A number without digits.
    EmptyNumber,
    /// A number with a character that is no digit.
    InvalidDigit,
    /// A number that is too large.
    NumberTooLarge,
    /// The profile that lets the sandbox program work is not installed.
    MissingProfile,
}

/// The mathematical value of an [`Error`].
pub enum Failure {
    IllegalEscape,
    TrailingBackslash,
    UnbalancedOpen,
    UnbalancedClose,
    PathUnavailable,
    VariableNotFound(Seq<char>),
    TemplateUndefined,
    EmptyCommand,
    EmptyTemplate,
    CommandFailed,
    NoParent,
    InvalidConfig(Seq<char>),
    UnexpectedConfig,
    MissingVersionId,
    BadVersionId(Seq<char>),
    BadLine(Seq<char>),
    EmptyNumber,
    InvalidDigit,
    NumberTooLarge,
    MissingProfile,
}

impl View for Error {
    type V = Failure;

    open spec fn view(&self) -> Failure {
        match self {
            Error::IllegalEscape => Failure::IllegalEscape,
            Error::TrailingBackslash => Failure::TrailingBackslash,
            Error::UnbalancedOpen => Failure::UnbalancedOpen,
            Error::UnbalancedClose => Failure::UnbalancedClose,
            Error::PathUnavailable => Failure::PathUnavailable,
            Error::VariableNotFound(key) => Failure::VariableNotFound(key@),
            Error::TemplateUndefined => Failure::TemplateUndefined,
            Error::EmptyCommand => Failure::EmptyCommand,
            Error::EmptyTemplate => Failure::EmptyTemplate,
            Error::CommandFailed => Failure::CommandFailed,
            Error::NoParent => Failure::NoParent,
            Error::InvalidConfig(text) => Failure::InvalidConfig(text@),
            Error::UnexpectedConfig => Failure::UnexpectedConfig,
            Error::MissingVersionId => Failure::MissingVersionId,
            Error::BadVersionId(id) => Failure::BadVersionId(id@),
            Error::BadLine(line) => Failure::BadLine(line@),
            Error::EmptyNumber => Failure::EmptyNumber,
            Error::InvalidDigit => Failure::InvalidDigit,
            Error::NumberTooLarge => Failure::NumberTooLarge,
            Error::MissingProfile => Failure::MissingProfile,
        }
    }
}

/// The text shown for a failure.
pub open spec fn message_of(failure: Failure) -> Seq<char> {
    match failure {
        Failure::IllegalEscape => "illegally escaped character"@,
        Failure::TrailingBackslash => "trailing backslash"@,
        Failure::UnbalancedOpen => "unbalanced '{'"@,
        Failure::UnbalancedClose => "unbalanced '}'"@,
        Failure::PathUnavailable => "build script path is unavailable"@,
        Failure::VariableNotFound(key) => "environment variable `"@ + key + "` not found"@,
        Failure::TemplateUndefined => "`BUILD_WRAP_CMD` is undefined"@,
        Failure::EmptyCommand => "expanded `BUILD_WRAP_CMD` is empty or all whitespace"@,
        Failure::EmptyTemplate => "`BUILD_WRAP_CMD` is empty"@,
        Failure::CommandFailed => "command failed"@,
        Failure::NoParent => "failed to get `build_script_path` parent"@,
        Failure::InvalidConfig(text) => text,
        Failure::UnexpectedConfig => "`config.toml` has unexpected contents"@,
        Failure::MissingVersionId => "`/etc/os-release` does not contain `VERSION_ID`"@,
        Failure::BadVersionId(id) => "failed to parse version id: "@ + debug_of(id),
        Failure::BadLine(line) => "failed to parse line: "@ + debug_of(line),
        Failure::EmptyNumber => "cannot parse integer from empty string"@,
        Failure::InvalidDigit => "invalid digit found in string"@,
        Failure::NumberTooLarge => "number too large to fit in target type"@,
        Failure::MissingProfile => "`/etc/apparmor.d/bwrap-userns-restrict` does not exist"@,
    }
}

impl Error {
    /// The text shown for this failure.
    pub fn message(&self) -> (text: String)
        ensures
            text@ == message_of(self@),
    {
        match self {
            Error::IllegalEscape => String::from_str("illegally escaped character"),
            Error::TrailingBackslash => String::from_str("trailing backslash"),
            Error::UnbalancedOpen => String::from_str("unbalanced '{'"),
            Error::UnbalancedClose => String::from_str("unbalanced '}'"),
            Error::PathUnavailable => String::from_str("build script path is unavailable"),
            Error::VariableNotFound(key) => {
                let mut text = String::from_str("environment variable `");
                text.append(key.as_str());
                text.append("` not found");
                text
            },
            Error::TemplateUndefined => String::from_str("`BUILD_WRAP_CMD` is undefined"),
            Error::EmptyCommand => String::from_str(
                "expanded `BUILD_WRAP_CMD` is empty or all whitespace",
            ),
            Error::EmptyTemplate => String::from_str("`BUILD_WRAP_CMD` is empty"),
            Error::CommandFailed => String::from_str("command failed"),
            Error::NoParent => String::from_str("failed to get `build_script_path` parent"),
            Error::InvalidConfig(text) => text.clone(),
            Error::UnexpectedConfig => String::from_str("`config.toml` has unexpected contents"),
            Error::MissingVersionId => String::from_str(
                "`/etc/os-release` does not contain `VERSION_ID`",
            ),
            Error::BadVersionId(id) => {
                let mut text = String::from_str("failed to parse version id: ");
                text.append(debug_text(id.as_str()).as_str());
                text
            },
            Error::BadLine(line) => {
                let mut text = String::from_str("failed to parse line: ");
                text.append(debug_text(line.as_str()).as_str());
                text
            },
            Error::EmptyNumber => String::from_str("cannot parse integer from empty string"),
            Error::InvalidDigit => String::from_str("invalid digit found in string"),
            Error::NumberTooLarge => String::from_str("number too large to fit in target type"),
            Error::MissingProfile => String::from_str(
                "`/etc/apparmor.d/bwrap-userns-restrict` does not exist",
            ),
        }
    }
}

} // verus!
