use vstd::prelude::*;
use vstd::string::*;

use crate::registry::views;
use crate::text::{concat2, concat4, copy_strings};

verus! {

/// The failures that the graph operations report.
#[derive(Debug, Clone)]
pub enum CoreError {
    Io(String),
    Json(String),
    InvalidDescriptor(String),
    UnknownNode(String),
    WrongKind { expected: String, actual: String },
    MissingSelections(Vec<String>),
    InvalidSelection(String),
    InvalidNames(Vec<String>),
    MissingSource(String),
    TargetNotFound(String),
    TargetNotWritable(String),
    PacksNotFound(String),
}

pub type CoreResult<T> = Result<T, CoreError>;

/// The stable machine-readable code of each error kind.
pub open spec fn error_code(e: CoreError) -> Seq<char> {
    match e {
        CoreError::Io(_) => "IO_ERROR"@,
        CoreError::Json(_) => "JSON_ERROR"@,
        CoreError::InvalidDescriptor(_) => "INVALID_DESCRIPTOR"@,
        CoreError::UnknownNode(_) => "UNKNOWN_NODE"@,
        CoreError::WrongKind { .. } => "WRONG_KIND"@,
        CoreError::MissingSelections(_) => "MISSING_SELECTIONS"@,
        CoreError::InvalidSelection(_) => "INVALID_SELECTION"@,
        CoreError::InvalidNames(_) => "INVALID_SELECTION"@,
        CoreError::MissingSource(_) => "MISSING_SOURCE"@,
        CoreError::TargetNotFound(_) => "TARGET_NOT_FOUND"@,
        CoreError::TargetNotWritable(_) => "TARGET_NOT_WRITABLE"@,
        CoreError::PacksNotFound(_) => "PACKS_NOT_FOUND"@,
    }
}

impl CoreError {
    pub fn code(&self) -> (r: &'static str)
        ensures
            r@ == error_code(*self),
    {
        match self {
            CoreError::Io(_) => "IO_ERROR",
            CoreError::Json(_) => "JSON_ERROR",
            CoreError::InvalidDescriptor(_) => "INVALID_DESCRIPTOR",
            CoreError::UnknownNode(_) => "UNKNOWN_NODE",
            CoreError::WrongKind { .. } => "WRONG_KIND",
            CoreError::MissingSelections(_) => "MISSING_SELECTIONS",
            CoreError::InvalidSelection(_) => "INVALID_SELECTION",
            CoreError::InvalidNames(_) => "INVALID_SELECTION",
            CoreError::MissingSource(_) => "MISSING_SOURCE",
            CoreError::TargetNotFound(_) => "TARGET_NOT_FOUND",
            CoreError::TargetNotWritable(_) => "TARGET_NOT_WRITABLE",
            CoreError::PacksNotFound(_) => "PACKS_NOT_FOUND",
        }
    }
}

/// The text that `{:?}` gives for a list of strings.
pub uninterp spec fn debug_text(items: Seq<Seq<char>>) -> Seq<char>;

/// Relies on the `Debug` form of `Vec<String>`: the list written with `{:?}`.
#[verifier::external_body]
fn debug_list(items: &Vec<String>) -> (r: String)
    ensures
        r@ == debug_text(views(items@)),
{
    format!("{:?}", items)
}

/// The human-readable text of each error.
pub open spec fn error_message(e: CoreError) -> Seq<char> {
    match e {
        CoreError::Io(m) => "IO error: "@ + m@,
        CoreError::Json(m) => "JSON parse error: "@ + m@,
        CoreError::InvalidDescriptor(m) => "Invalid descriptor: "@ + m@,
        CoreError::UnknownNode(m) => "Unknown node id: "@ + m@,
        CoreError::WrongKind { expected, actual } => "Wrong node kind: expected "@ + expected@
            + ", got "@ + actual@,
        CoreError::MissingSelections(v) => "Missing selections: "@ + debug_text(views(v@)),
        CoreError::InvalidSelection(m) => "Invalid selection: "@ + m@,
        CoreError::InvalidNames(v) => "Invalid selection names: "@ + debug_text(views(v@)),
        CoreError::MissingSource(m) => "Missing source: "@ + m@,
        CoreError::TargetNotFound(m) => "Target path not found: "@ + m@,
        CoreError::TargetNotWritable(m) => "Target path not writable: "@ + m@,
        CoreError::PacksNotFound(m) => "Packs path not found or unreadable: "@ + m@,
    }
}

/// Structured details that accompany some errors.
#[derive(Debug, Clone)]
pub enum ErrorDetails {
    Missing(Vec<String>),
    Message(String),
    InvalidNames(Vec<String>),
    PacksPath(Option<String>),
}

/// The body of an error reply.
#[derive(Debug, Clone)]
pub struct ErrorBody {
    pub code: String,
    pub message: String,
    pub details: Option<ErrorDetails>,
}

/// An error reply: `{error: {code, message, details?}}`.
#[derive(Debug, Clone)]
pub struct ErrorEnvelope {
    pub error: ErrorBody,
}

impl CoreError {
    /// The human-readable text of this error.
    pub fn message(&self) -> (r: String)
        ensures
            r@ == error_message(*self),
    {
        match self {
            CoreError::Io(m) => concat2("IO error: ", m.as_str()),
            CoreError::Json(m) => concat2("JSON parse error: ", m.as_str()),
            CoreError::InvalidDescriptor(m) => concat2("Invalid descriptor: ", m.as_str()),
            CoreError::UnknownNode(m) => concat2("Unknown node id: ", m.as_str()),
            CoreError::WrongKind { expected, actual } => concat4(
                "Wrong node kind: expected ",
                expected.as_str(),
                ", got ",
                actual.as_str(),
            ),
            CoreError::MissingSelections(v) => {
                let d = debug_list(v);
                concat2("Missing selections: ", d.as_str())
            },
            CoreError::InvalidSelection(m) => concat2("Invalid selection: ", m.as_str()),
            CoreError::InvalidNames(v) => {
                let d = debug_list(v);
                concat2("Invalid selection names: ", d.as_str())
            },
            CoreError::MissingSource(m) => concat2("Missing source: ", m.as_str()),
            CoreError::TargetNotFound(m) => concat2("Target path not found: ", m.as_str()),
            CoreError::TargetNotWritable(m) => concat2("Target path not writable: ", m.as_str()),
            CoreError::PacksNotFound(m) => concat2("Packs path not found or unreadable: ", m.as_str()),
        }
    }

    /// The details that an error reply carries for this error: the missing
    /// keys, the selection message, the invalid names, or the packs path.
    pub fn details(&self) -> (r: Option<ErrorDetails>)
        ensures
            match *self {
                CoreError::MissingSelections(v) => r matches Some(ErrorDetails::Missing(w)) && w@ == v@,
                CoreError::InvalidSelection(m) => r matches Some(ErrorDetails::Message(w)) && w@ == m@,
                CoreError::InvalidNames(v) => r matches Some(ErrorDetails::InvalidNames(w)) && w@ == v@,
                CoreError::PacksNotFound(p) => r matches Some(ErrorDetails::PacksPath(Some(w))) && w@ == p@,
                _ => r is None,
            },
    {
        match self {
            CoreError::MissingSelections(v) => Some(ErrorDetails::Missing(copy_strings(v))),
            CoreError::InvalidSelection(m) => Some(ErrorDetails::Message(m.clone())),
            CoreError::InvalidNames(v) => Some(ErrorDetails::InvalidNames(copy_strings(v))),
            CoreError::PacksNotFound(p) => Some(ErrorDetails::PacksPath(Some(p.clone()))),
            _ => None,
        }
    }

    /// The reply for this error, with `details` attached.
    pub fn envelope(&self, details: Option<ErrorDetails>) -> (r: ErrorEnvelope)
        ensures
            r.error.code@ == error_code(*self),
            r.error.message@ == error_message(*self),
            r.error.details == details,
    {
        ErrorEnvelope {
            error: ErrorBody { code: self.code().to_owned(), message: self.message(), details },
        }
    }
}

} // verus!
