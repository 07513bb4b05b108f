//! The error taxonomy: decode-time errors, and the errors of a whole fetch.

use vstd::prelude::*;

verus! {

/// Why a status document failed to decode. Every decode error is terminal for
/// that document: no partial model is ever returned.
#[derive(Debug, Clone, PartialEq)]
pub enum DecodeError {
    /// The bytes are not valid JSON at all.
    Malformed,
    /// The top-level wrapper key is missing or its value is not an object.
    UnexpectedShape,
    /// A required field is absent from the server-stats object.
    MissingField { name: String },
    /// A present field's JSON type does not match the expected type.
    TypeMismatch { name: String, expected: String },
}

/// The mathematical shape of a [`DecodeError`].
#[verifier::ext_equal]
pub enum DecodeErrorModel {
    Malformed,
    UnexpectedShape,
    MissingField(Seq<char>),
    TypeMismatch(Seq<char>, Seq<char>),
}

impl View for DecodeError {
    type V = DecodeErrorModel;

    open spec fn view(&self) -> DecodeErrorModel {
        match self {
            DecodeError::Malformed => DecodeErrorModel::Malformed,
            DecodeError::UnexpectedShape => DecodeErrorModel::UnexpectedShape,
            DecodeError::MissingField { name } => DecodeErrorModel::MissingField(name@),
            DecodeError::TypeMismatch { name, expected } => DecodeErrorModel::TypeMismatch(
                name@,
                expected@,
            ),
        }
    }
}

/// Why a whole fetch failed: the input was no URL, the transport failed, or
/// the body did not decode.
#[derive(Debug, Clone, PartialEq)]
pub enum FetchError {
    /// The input string is not a syntactically valid URL.
    InvalidUrl,
    /// A transport-level failure, with its cause preserved for diagnostics.
    Transport(String),
    /// The response body did not decode as a status document.
    Decode(DecodeError),
}

/// The mathematical shape of a [`FetchError`].
#[verifier::ext_equal]
pub enum FetchErrorModel {
    InvalidUrl,
    Transport(Seq<char>),
    Decode(DecodeErrorModel),
}

impl View for FetchError {
    type V = FetchErrorModel;

    open spec fn view(&self) -> FetchErrorModel {
        match self {
            FetchError::InvalidUrl => FetchErrorModel::InvalidUrl,
            FetchError::Transport(cause) => FetchErrorModel::Transport(cause@),
            FetchError::Decode(e) => FetchErrorModel::Decode(e@),
        }
    }
}

} // verus!
