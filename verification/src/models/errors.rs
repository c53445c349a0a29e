//! The error that every fallible operation of the model returns.

use vstd::prelude::*;

verus! {

/// Why an operation failed.
#[derive(Debug, Clone, Copy, PartialEq, Eq, Structural)]
pub enum ErrorKind {
    /// The payload holds neither inline content nor a reference to content.
    MissingSource,
    /// The content that the payload refers to could not be read.
    SourceUnavailable,
    /// The content is malformed.
    DecodeFailure,
    /// The content is well formed but breaks the rules of its schema.
    SchemaValidationFailure,
    /// An enrichment rule targets a field outside the canonical data.
    InvalidFieldPath,
    /// An enrichment rule could not be evaluated against the given input.
    RuleEvaluationFailure,
    /// No identifier could be obtained for a new message or audit entry.
    IdUnavailable,
}

/// The status code of a request that could not be served as given.
pub const BAD_REQUEST: u16 = 400;

/// The status code of a failure on the serving side.
pub const UNAVAILABLE: u16 = 503;

/// A failed operation: what failed, in which operation, and a message for
/// people.
#[derive(Debug, Clone, PartialEq)]
pub struct FunctionResponseError {
    pub kind: ErrorKind,
    pub function: String,
    pub code: u16,
    pub message: String,
}

/// What a [`FunctionResponseError`] says.
pub ghost struct ErrorModel {
    pub kind: ErrorKind,
    pub function: Seq<char>,
    pub code: u16,
    pub message: Seq<char>,
}

impl View for FunctionResponseError {
    type V = ErrorModel;

    open spec fn view(&self) -> ErrorModel {
        ErrorModel {
            kind: self.kind,
            function: self.function@,
            code: self.code,
            message: self.message@,
        }
    }
}

/// The failure of kind `kind` in the operation `function`, with the code
/// that goes with the kind.
pub open spec fn failure(kind: ErrorKind, function: Seq<char>, message: Seq<char>) -> ErrorModel {
    ErrorModel { kind, function, code: kind.spec_code(), message }
}

impl ErrorKind {
    /// The numeric code that goes with this kind of failure.
    pub open spec fn spec_code(self) -> u16 {
        match self {
            ErrorKind::IdUnavailable => UNAVAILABLE,
            _ => BAD_REQUEST,
        }
    }

    /// The numeric code that goes with this kind of failure.
    #[verifier::when_used_as_spec(spec_code)]
    pub fn code(self) -> (code: u16)
        ensures
            code == self.spec_code(),
    {
        match self {
            ErrorKind::IdUnavailable => UNAVAILABLE,
            _ => BAD_REQUEST,
        }
    }
}

impl FunctionResponseError {
    /// The failure of kind `kind` in the operation `function`.
    pub fn new(kind: ErrorKind, function: String, message: String) -> (error: Self)
        ensures
            error@ == failure(kind, function@, message@),
    {
        FunctionResponseError { kind, function, code: kind.code(), message }
    }
}

} // verus!
