//! Configuration documents and their interchange text.
//!
//! The interchange text of a document is the JSON that `serde_json` writes
//! for it, and a text is read back by `serde_json` as well. A mapping keeps
//! its entries in the order in which they were inserted; the text lists them
//! in that order, and reading a text inserts them in the order of the text:
//! encoding and then decoding keeps the order of the keys. (A script engine
//! in between may not: its objects list keys that are array indices first.)
//! JSON has no way to write a number that is not finite, so a document that
//! holds one has no interchange text.

use crate::document::{is_representable, representable};
use crate::error::{ErrorKind, ErrorView, ProcessError};
use serde_yaml::Mapping;
use vstd::prelude::*;

verus! {

/// `serde_json::Error`: why a text could not be written or read. Nothing of
/// its inside is known here but its message, through [`display`].
#[verifier::external_type_specification]
#[verifier::external_body]
pub struct ExJsonError(serde_json::Error);

/// What `serde_json::to_string` makes of a document: its JSON text, or the
/// message of the error that it reports.
pub uninterp spec fn json_encoding(document: Mapping) -> Result<Seq<char>, Seq<char>>;

/// What `serde_json::from_str` makes of a text when asked for a document: the
/// document, or the message of the error that it reports.
pub uninterp spec fn json_decoding(text: Seq<char>) -> Result<Mapping, Seq<char>>;

/// The message that a `serde_json::Error` displays.
pub uninterp spec fn error_text(error: serde_json::Error) -> Seq<char>;

/// Calls `serde_json::to_string` on the document. The call is a function of
/// the document alone; [`json_encoding`] names what it gives.
#[verifier::external_body]
fn to_json(document: &Mapping) -> (r: Result<String, serde_json::Error>)
    ensures
        match r {
            Ok(text) => json_encoding(*document) == Ok::<Seq<char>, Seq<char>>(text@),
            Err(e) => json_encoding(*document) == Err::<Seq<char>, Seq<char>>(error_text(e)),
        },
{
    serde_json::to_string(document)
}

/// Calls `serde_json::from_str` for a `serde_yaml::Mapping`. The call is a
/// function of the text alone; [`json_decoding`] names what it gives.
#[verifier::external_body]
fn from_json(text: &str) -> (r: Result<Mapping, serde_json::Error>)
    ensures
        match r {
            Ok(document) => json_decoding(text@) == Ok::<Mapping, Seq<char>>(document),
            Err(e) => json_decoding(text@) == Err::<Mapping, Seq<char>>(error_text(e)),
        },
{
    serde_json::from_str(text)
}

/// Formats a `serde_json::Error` by its `Display`; [`error_text`] names the
/// text.
#[verifier::external_body]
fn display(error: &serde_json::Error) -> (text: String)
    ensures
        text@ == error_text(*error),
{
    error.to_string()
}

/// The result of encoding, given what `serde_json` made of the document.
pub open spec fn encoded(outcome: Result<Seq<char>, Seq<char>>) -> Result<Seq<char>, ErrorView> {
    match outcome {
        Ok(text) => Ok(text),
        Err(diagnostic) => Err(ErrorView { kind: ErrorKind::Encode, diagnostic }),
    }
}

/// The diagnostic of a document that holds a number which is not finite.
pub open spec fn not_finite() -> Seq<char> {
    "a number is not finite"@
}

/// What encoding a document gives: an error where a number in it is not
/// finite, else what `serde_json` makes of it.
pub open spec fn encoding_of(document: Mapping) -> Result<Seq<char>, ErrorView> {
    if representable(document) {
        encoded(json_encoding(document))
    } else {
        Err(ErrorView { kind: ErrorKind::Encode, diagnostic: not_finite() })
    }
}

/// The result of decoding, given what `serde_json` made of the text.
pub open spec fn decoded(outcome: Result<Mapping, Seq<char>>) -> Result<Mapping, ErrorView> {
    match outcome {
        Ok(document) => Ok(document),
        Err(diagnostic) => Err(ErrorView { kind: ErrorKind::Decode, diagnostic }),
    }
}

/// What decoding a text gives: what `serde_json` makes of it.
pub open spec fn decoding_of(text: Seq<char>) -> Result<Mapping, ErrorView> {
    decoded(json_decoding(text))
}

/// Whether an exec result of encoding has the given mathematical value.
pub open spec fn text_result_is(
    r: Result<String, ProcessError>,
    model: Result<Seq<char>, ErrorView>,
) -> bool {
    match r {
        Ok(text) => model == Ok::<Seq<char>, ErrorView>(text@),
        Err(e) => model == Err::<Seq<char>, ErrorView>(e@),
    }
}

/// Whether an exec result of decoding has the given mathematical value.
pub open spec fn document_result_is(
    r: Result<Mapping, ProcessError>,
    model: Result<Mapping, ErrorView>,
) -> bool {
    match r {
        Ok(document) => model == Ok::<Mapping, ErrorView>(document),
        Err(e) => model == Err::<Mapping, ErrorView>(e@),
    }
}

/// An error of the given kind whose diagnostic is the message of `error`.
pub fn json_failure(kind: ErrorKind, error: &serde_json::Error) -> (failure: ProcessError)
    ensures
        failure@ == (ErrorView { kind, diagnostic: error_text(*error) }),
{
    ProcessError::new(kind, display(error))
}

/// The interchange text of a document.
///
/// Fails with [`ErrorKind::Encode`] where a number in the document is not
/// finite, and where `serde_json` reports an error for the document, whose
/// message is then handed on; it succeeds on every other document.
pub fn encode(document: &Mapping) -> (r: Result<String, ProcessError>)
    ensures
        text_result_is(r, encoding_of(*document)),
{
    if !is_representable(document) {
        return Err(
            ProcessError::new(ErrorKind::Encode, String::from_str("a number is not finite")),
        );
    }
    match to_json(document) {
        Ok(text) => Ok(text),
        Err(e) => Err(json_failure(ErrorKind::Encode, &e)),
    }
}

/// The document that an interchange text denotes.
///
/// Fails with [`ErrorKind::Decode`] exactly where `serde_json` reports an
/// error for the text, which it does where the text is not JSON and where its
/// top level is not an object; the message is handed on.
pub fn decode(text: &str) -> (r: Result<Mapping, ProcessError>)
    ensures
        document_result_is(r, decoding_of(text@)),
{
    match from_json(text) {
        Ok(document) => Ok(document),
        Err(e) => Err(json_failure(ErrorKind::Decode, &e)),
    }
}

} // verus!
