//! The error surface of the conversion pipeline: structural parse failures,
//! unrecognized type tokens, and a string-wrapping kind for failures that
//! collaborators hand through unchanged.

use vstd::prelude::*;
use vstd::string::*;

verus! {

/// Mathematical image of an error value, over plain character sequences.
pub enum ErrorSpec {
    Parse { field: Seq<char>, reason: Seq<char> },
    UnknownType { typ: Seq<char> },
    Generic(Seq<char>),
}

/// An error of the field pipeline: a structural parse failure naming the
/// offending text and a reason, an unrecognized type token, or an opaque
/// collaborator failure carried through unchanged.
#[derive(Debug, Clone, PartialEq)]
pub enum PamError {
    ParseError { field: String, reason: String },
    UnknownTypeError { typ: String },
    GenericStringError(String),
}

impl View for PamError {
    type V = ErrorSpec;

    open spec fn view(&self) -> ErrorSpec {
        match self {
            PamError::ParseError { field, reason } => ErrorSpec::Parse {
                field: field@,
                reason: reason@,
            },
            PamError::UnknownTypeError { typ } => ErrorSpec::UnknownType { typ: typ@ },
            PamError::GenericStringError(s) => ErrorSpec::Generic(s@),
        }
    }
}

/// Reason text reported where a field holds no separating colon.
pub open spec fn missing_sep_reason(s: Seq<char>) -> Seq<char> {
    "Error missing \":\" in field: \""@ + s + "\""@
}

/// Reason text reported where a field holds more than one colon.
pub open spec fn too_many_sep_reason(s: Seq<char>) -> Seq<char> {
    "Error more than one \":\" in field: \""@ + s + "\""@
}

/// Reason text reported where a relation expression holds no opening
/// parenthesis.
pub open spec fn missing_open_reason(s: Seq<char>) -> Seq<char> {
    "Error missing \"(\" in relation: \""@ + s + "\""@
}

/// Reason text reported where a relation expression holds no closing
/// parenthesis after the opening one.
pub open spec fn missing_close_reason(s: Seq<char>) -> Seq<char> {
    "Error missing \")\" in relation: \""@ + s + "\""@
}

/// Builds the missing-separator reason for the offending field text.
pub fn build_missing_sep_reason(s: &str) -> (r: String)
    ensures
        r@ == missing_sep_reason(s@),
{
    let mut r = ("Error missing \":\" in field: \"").to_owned();
    r.append(s);
    r.append("\"");
    r
}

/// Builds the too-many-separators reason for the offending field text.
pub fn build_too_many_sep_reason(s: &str) -> (r: String)
    ensures
        r@ == too_many_sep_reason(s@),
{
    let mut r = ("Error more than one \":\" in field: \"").to_owned();
    r.append(s);
    r.append("\"");
    r
}

/// Builds the missing-opening-parenthesis reason for the offending text.
pub fn build_missing_open_reason(s: &str) -> (r: String)
    ensures
        r@ == missing_open_reason(s@),
{
    let mut r = ("Error missing \"(\" in relation: \"").to_owned();
    r.append(s);
    r.append("\"");
    r
}

/// Builds the missing-closing-parenthesis reason for the offending text.
pub fn build_missing_close_reason(s: &str) -> (r: String)
    ensures
        r@ == missing_close_reason(s@),
{
    let mut r = ("Error missing \")\" in relation: \"").to_owned();
    r.append(s);
    r.append("\"");
    r
}

/// The human-readable message of an error.
pub open spec fn error_message_spec(e: ErrorSpec) -> Seq<char> {
    match e {
        ErrorSpec::Parse { field, reason } => "Error at parsing "@ + field + ", "@ + reason,
        ErrorSpec::UnknownType { typ } => "Unknown type \""@ + typ + "\""@,
        ErrorSpec::Generic(s) => s,
    }
}

impl PamError {
    /// Renders the error as its human-readable message.
    pub fn message(&self) -> (r: String)
        ensures
            r@ == error_message_spec(self@),
    {
        match self {
            PamError::ParseError { field, reason } => {
                let mut r = ("Error at parsing ").to_owned();
                r.append(field.as_str());
                r.append(", ");
                r.append(reason.as_str());
                r
            }
            PamError::UnknownTypeError { typ } => {
                let mut r = ("Unknown type \"").to_owned();
                r.append(typ.as_str());
                r.append("\"");
                r
            }
            PamError::GenericStringError(s) => s.clone(),
        }
    }
}

impl From<String> for PamError {
    /// Wraps a collaborator's plain-text failure unchanged.
    fn from(value: String) -> (r: PamError) {
        PamError::GenericStringError(value)
    }
}

impl vstd::std_specs::convert::FromSpecImpl<String> for PamError {
    open spec fn obeys_from_spec() -> bool {
        true
    }

    open spec fn from_spec(value: String) -> PamError {
        PamError::GenericStringError(value)
    }
}

} // verus!
