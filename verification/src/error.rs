//! The errors of reading and writing the text form.

use crate::strict::EncodingError;
use bech32::Error as TextError;
use vstd::prelude::*;
use vstd::std_specs::convert::FromSpecImpl;

verus! {

/// Errors of the Bech32 conversions: of parsing, of the payload's encoding,
/// and of asking for a type other than the one that was read.
#[derive(PartialEq, Debug)]
pub enum Error {
    /// The string is not well-formed Bech32: bad checksum, character, case,
    /// length or padding.
    Bech32Error(TextError),
    /// The payload is not the strict serialization of a value of its kind.
    WrongData(EncodingError),
    /// The requested type does not match the human-readable part.
    WrongType,
    /// The payload starts with a version byte other than `0` and `1`.
    UnknownRawDataEncoding(u8),
    /// The DEFLATE encoder could not finish its stream.
    DeflateEncoding,
    /// The payload's DEFLATE stream could not be decompressed.
    InflateError(String),
}

/// An [`Error`] as a mathematical value.
pub enum ErrorView {
    Bech32Error(TextError),
    WrongData(EncodingError),
    WrongType,
    UnknownRawDataEncoding(u8),
    DeflateEncoding,
    InflateError(Seq<char>),
}

impl View for Error {
    type V = ErrorView;

    open spec fn view(&self) -> ErrorView {
        match *self {
            Error::Bech32Error(e) => ErrorView::Bech32Error(e),
            Error::WrongData(e) => ErrorView::WrongData(e),
            Error::WrongType => ErrorView::WrongType,
            Error::UnknownRawDataEncoding(version) => ErrorView::UnknownRawDataEncoding(version),
            Error::DeflateEncoding => ErrorView::DeflateEncoding,
            Error::InflateError(message) => ErrorView::InflateError(message@),
        }
    }
}

impl Clone for Error {
    fn clone(&self) -> (r: Self)
        ensures
            r@ == self@,
    {
        match self {
            Error::Bech32Error(e) => Error::Bech32Error(*e),
            Error::WrongData(e) => Error::WrongData(*e),
            Error::WrongType => Error::WrongType,
            Error::UnknownRawDataEncoding(version) => Error::UnknownRawDataEncoding(*version),
            Error::DeflateEncoding => Error::DeflateEncoding,
            Error::InflateError(message) => Error::InflateError(message.clone()),
        }
    }
}

impl From<TextError> for Error {
    fn from(e: TextError) -> (r: Error) {
        Error::Bech32Error(e)
    }
}

impl FromSpecImpl<TextError> for Error {
    open spec fn obeys_from_spec() -> bool {
        true
    }

    open spec fn from_spec(e: TextError) -> Error {
        Error::Bech32Error(e)
    }
}

impl From<EncodingError> for Error {
    fn from(e: EncodingError) -> (r: Error) {
        Error::WrongData(e)
    }
}

impl FromSpecImpl<EncodingError> for Error {
    open spec fn obeys_from_spec() -> bool {
        true
    }

    open spec fn from_spec(e: EncodingError) -> Error {
        Error::WrongData(e)
    }
}

/// Whether the outcome `r` of a function is the outcome `model` that its
/// specification gives: the same value or the same error, each by its view.
pub open spec fn agrees<T: View>(r: Result<T, Error>, model: Result<T::V, ErrorView>) -> bool {
    match r {
        Ok(value) => model == Ok::<T::V, ErrorView>(value@),
        Err(e) => model == Err::<T::V, ErrorView>(e@),
    }
}

} // verus!
