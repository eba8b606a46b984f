//! What can go wrong, what the user is told of it, and the exit code that
//! it ends the program with.

use vstd::prelude::*;
use vstd::string::*;
use crate::loader::{ParseError, ParseErrorView};

verus! {

/// The exit code of a success.
pub const EXIT_SUCCESS: u8 = 0;

/// The exit code of a command that may not do what it was asked, and of
/// a step that was taken out of turn.
pub const EXIT_USAGE: u8 = 1;

/// The exit code of an input that cannot be read or is no specification.
pub const EXIT_INPUT: u8 = 2;

/// The exit code of a resource that does not exist.
pub const EXIT_NOT_FOUND: u8 = 3;

/// The exit code of a failure on the control plane's side.
pub const EXIT_CONTROL_PLANE: u8 = 4;

/// Why a command failed.
#[derive(Clone, Debug, PartialEq, Eq)]
pub enum Failure {
    /// The input file is missing or cannot be read.
    Input { path: String, message: String },
    /// The input file holds no specification.
    Parse { path: String, error: ParseError },
    /// The resource definition was not established in time.
    SchemaNotReady { definition: String },
    /// A resource of the name exists and may not be overwritten.
    Conflict { name: String, message: String },
    /// No resource has the name.
    NotFound { name: String, message: String },
    /// The control plane cannot be reached, refuses the caller or gives an
    /// answer that does not fit the request. `name` is the resource, or
    /// the namespace of a listing, that was asked for.
    Transport { name: String, message: String },
    /// The control plane rejects what the specification of `name` says.
    Validation { name: String, message: String },
    /// The output file exists and may not be overwritten.
    Exists { path: String },
    /// The output file cannot be written.
    Output { path: String, message: String },
    /// The session was told of something that it had not asked for.
    OutOfTurn,
}

pub enum FailureView {
    Input { path: Seq<char>, message: Seq<char> },
    Parse { path: Seq<char>, error: ParseErrorView },
    SchemaNotReady { definition: Seq<char> },
    Conflict { name: Seq<char>, message: Seq<char> },
    NotFound { name: Seq<char>, message: Seq<char> },
    Transport { name: Seq<char>, message: Seq<char> },
    Validation { name: Seq<char>, message: Seq<char> },
    Exists { path: Seq<char> },
    Output { path: Seq<char>, message: Seq<char> },
    OutOfTurn,
}

impl View for Failure {
    type V = FailureView;

    open spec fn view(&self) -> FailureView {
        match self {
            Failure::Input { path, message } => FailureView::Input { path: path@, message: message@ },
            Failure::Parse { path, error } => FailureView::Parse { path: path@, error: error@ },
            Failure::SchemaNotReady { definition } => FailureView::SchemaNotReady {
                definition: definition@,
            },
            Failure::Conflict { name, message } => FailureView::Conflict {
                name: name@,
                message: message@,
            },
            Failure::NotFound { name, message } => FailureView::NotFound {
                name: name@,
                message: message@,
            },
            Failure::Transport { name, message } => FailureView::Transport {
                name: name@,
                message: message@,
            },
            Failure::Validation { name, message } => FailureView::Validation {
                name: name@,
                message: message@,
            },
            Failure::Exists { path } => FailureView::Exists { path: path@ },
            Failure::Output { path, message } => FailureView::Output {
                path: path@,
                message: message@,
            },
            Failure::OutOfTurn => FailureView::OutOfTurn,
        }
    }
}

/// The exit code of each kind of failure. None is that of a success.
pub open spec fn spec_exit_code(failure: FailureView) -> u8 {
    match failure {
        FailureView::Input { .. } => EXIT_INPUT,
        FailureView::Parse { .. } => EXIT_INPUT,
        FailureView::NotFound { .. } => EXIT_NOT_FOUND,
        FailureView::SchemaNotReady { .. } => EXIT_CONTROL_PLANE,
        FailureView::Conflict { .. } => EXIT_CONTROL_PLANE,
        FailureView::Transport { .. } => EXIT_CONTROL_PLANE,
        FailureView::Validation { .. } => EXIT_CONTROL_PLANE,
        FailureView::Exists { .. } => EXIT_USAGE,
        FailureView::Output { .. } => EXIT_INPUT,
        FailureView::OutOfTurn => EXIT_USAGE,
    }
}

/// What the user is told of a document that is no specification.
pub open spec fn spec_describe_parse(error: ParseErrorView) -> Seq<char> {
    match error {
        ParseErrorView::Syntax(message) => message,
        ParseErrorView::Missing(place) => "missing field '"@ + place + "'"@,
        ParseErrorView::WrongType(place) => "wrong type of value at '"@ + place + "'"@,
        ParseErrorView::Duplicate(place) => "field '"@ + place + "' occurs more than once"@,
    }
}

/// What the user is told of a failure: what failed, on which file or
/// resource, and what the other side said.
pub open spec fn spec_describe(failure: FailureView) -> Seq<char> {
    match failure {
        FailureView::Input { path, message } => "cannot read '"@ + path + "': "@ + message,
        FailureView::Parse { path, error } => "'"@ + path + "' is no specification: "@
            + spec_describe_parse(error),
        FailureView::SchemaNotReady { definition } => "the resource definition '"@ + definition
            + "' is not established"@,
        FailureView::Conflict { name, message } => "'"@ + name + "' exists already: "@ + message,
        FailureView::NotFound { name, message } => "'"@ + name + "' was not found: "@ + message,
        FailureView::Transport { name, message } => "the control plane failed for '"@ + name
            + "': "@ + message,
        FailureView::Validation { name, message } => "the control plane rejected the specification of '"@
            + name + "': "@ + message,
        FailureView::Exists { path } => "Output file already exists. Use --force to overwrite."@,
        FailureView::Output { path, message } => "Failed to copy template file: "@ + message,
        FailureView::OutOfTurn => "an answer came that was not asked for"@,
    }
}

/// What the user is told of a document that is no specification.
pub fn describe_parse(error: &ParseError) -> (r: String)
    ensures
        r@ == spec_describe_parse(error@),
{
    match error {
        ParseError::Syntax(message) => message.clone(),
        ParseError::Missing(place) => String::from_str("missing field '").concat(
            place.as_str(),
        ).concat("'"),
        ParseError::WrongType(place) => String::from_str("wrong type of value at '").concat(
            place.as_str(),
        ).concat("'"),
        ParseError::Duplicate(place) => String::from_str("field '").concat(place.as_str()).concat(
            "' occurs more than once",
        ),
    }
}

impl Failure {
    /// The exit code that this failure ends the program with.
    pub fn exit_code(&self) -> (code: u8)
        ensures
            code == spec_exit_code(self@),
            code != EXIT_SUCCESS,
    {
        match self {
            Failure::Input { .. } => EXIT_INPUT,
            Failure::Parse { .. } => EXIT_INPUT,
            Failure::NotFound { .. } => EXIT_NOT_FOUND,
            Failure::SchemaNotReady { .. } => EXIT_CONTROL_PLANE,
            Failure::Conflict { .. } => EXIT_CONTROL_PLANE,
            Failure::Transport { .. } => EXIT_CONTROL_PLANE,
            Failure::Validation { .. } => EXIT_CONTROL_PLANE,
            Failure::Exists { .. } => EXIT_USAGE,
            Failure::Output { .. } => EXIT_INPUT,
            Failure::OutOfTurn => EXIT_USAGE,
        }
    }

    /// What the user is told of this failure.
    pub fn describe(&self) -> (r: String)
        ensures
            r@ == spec_describe(self@),
    {
        match self {
            Failure::Input { path, message } => String::from_str("cannot read '").concat(
                path.as_str(),
            ).concat("': ").concat(message.as_str()),
            Failure::Parse { path, error } => {
                let reason = describe_parse(error);
                String::from_str("'").concat(path.as_str()).concat(
                    "' is no specification: ",
                ).concat(reason.as_str())
            },
            Failure::SchemaNotReady { definition } => String::from_str(
                "the resource definition '",
            ).concat(definition.as_str()).concat("' is not established"),
            Failure::Conflict { name, message } => String::from_str("'").concat(
                name.as_str(),
            ).concat("' exists already: ").concat(message.as_str()),
            Failure::NotFound { name, message } => String::from_str("'").concat(
                name.as_str(),
            ).concat("' was not found: ").concat(message.as_str()),
            Failure::Transport { name, message } => String::from_str(
                "the control plane failed for '",
            ).concat(name.as_str()).concat("': ").concat(message.as_str()),
            Failure::Validation { name, message } => String::from_str(
                "the control plane rejected the specification of '",
            ).concat(name.as_str()).concat("': ").concat(message.as_str()),
            Failure::Exists { .. } => String::from_str(
                "Output file already exists. Use --force to overwrite.",
            ),
            Failure::Output { message, .. } => String::from_str(
                "Failed to copy template file: ",
            ).concat(message.as_str()),
            Failure::OutOfTurn => String::from_str("an answer came that was not asked for"),
        }
    }
}

} // verus!
