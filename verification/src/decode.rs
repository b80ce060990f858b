//! What becomes of the RON decoder's outcome.
//!
//! The decoder is driven by the target type's own `Deserialize` impl, so the
//! call to it is made by the caller, beside the impl. This module takes what
//! the call returned: a value passes through, and the decoder's error is
//! carried in a `DecodeError`.

use vstd::prelude::*;

verus! {

/// `ron::Error`, the error of the RON decoder: an error code and the position
/// in the input at which it arose. Nothing inside it is visible to the
/// verifier; the crate only carries it to the caller.
#[verifier::external_type_specification]
#[verifier::external_body]
pub struct ExRonError(ron::Error);

/// Why a buffer could not be decoded into the target type: malformed syntax,
/// a value of the wrong type, or a missing or unknown field.
#[derive(Debug)]
pub struct DecodeError {
    /// The decoder's own error.
    pub source: ron::Error,
}

/// The diagnostic of an error: the text that the `Display` impl of
/// `ron::Error` writes for the decoder's error that it carries. That is the
/// line and column where there is a position, then the decoder's description
/// of what it met or missed.
pub uninterp spec fn diagnostic(error: DecodeError) -> Seq<char>;

/// Formats the carried `ron::Error` with `to_string`, that is through its
/// `Display` impl, which reads nothing but the error's code and position. The
/// contract claims that the text is the error's diagnostic, and so that the
/// same error always gives the same text.
#[verifier::external_body]
fn ron_error_text(error: &DecodeError) -> (text: String)
    ensures
        text@ == diagnostic(*error),
{
    error.source.to_string()
}

impl DecodeError {
    /// The decoder's diagnostic, for people to read.
    pub fn message(&self) -> (text: String)
        ensures
            text@ == diagnostic(*self),
    {
        ron_error_text(self)
    }
}

/// What the decoder's outcome means to the caller: the decoded value, or a
/// `DecodeError` that carries the decoder's error.
pub fn settle<T>(outcome: Result<T, ron::Error>) -> (decoded: Result<T, DecodeError>)
    ensures
        match outcome {
            Ok(value) => decoded == Ok::<T, DecodeError>(value),
            Err(error) => decoded == Err::<T, DecodeError>(DecodeError { source: error }),
        },
{
    match outcome {
        Ok(value) => Ok(value),
        Err(error) => Err(DecodeError { source: error }),
    }
}

} // verus!
