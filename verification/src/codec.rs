//! The framings of the payload: the strict serialization bare, or behind a
//! version byte, either as it is or as a DEFLATE stream.

use crate::error::{agrees, Error, ErrorView};
use crate::outside::{deflate_best, deflated, inflate, inflated};
use crate::payload::Bech32;
use crate::strict::{
    strict_decode, strict_decoded, strict_encode, EncodingError, StrictDecode, StrictEncode,
};
use vstd::prelude::*;
use vstd::slice::slice_subrange;

verus! {

/// The bare framing of a strict serialization: the serialization itself.
pub open spec fn bare_encoded(serialized: Result<Seq<u8>, EncodingError>) -> Result<
    Seq<u8>,
    ErrorView,
> {
    match serialized {
        Ok(bytes) => Ok(bytes),
        Err(e) => Err(ErrorView::WrongData(e)),
    }
}

/// The value in a bare payload, which it must fill from the first byte to
/// the last.
pub open spec fn bare_decoded<T: StrictDecode>(data: Seq<u8>) -> Result<T::V, ErrorView> {
    match strict_decoded::<T>(data) {
        Ok(value) => Ok(value),
        Err(e) => Err(ErrorView::WrongData(e)),
    }
}

/// The plain framing of a strict serialization: version byte `0`, then the
/// serialization.
pub open spec fn plain_encoded(serialized: Result<Seq<u8>, EncodingError>) -> Result<
    Seq<u8>,
    ErrorView,
> {
    match serialized {
        Ok(bytes) => Ok(seq![0u8] + bytes),
        Err(e) => Err(ErrorView::WrongData(e)),
    }
}

/// The compressed framing of a strict serialization: version byte `1`, then
/// the DEFLATE stream of the serialization.
pub open spec fn deflate_encoded(serialized: Result<Seq<u8>, EncodingError>) -> Result<
    Seq<u8>,
    ErrorView,
> {
    match serialized {
        Ok(bytes) => match deflated(bytes) {
            Some(stream) => Ok(seq![1u8] + stream),
            None => Err(ErrorView::DeflateEncoding),
        },
        Err(e) => Err(ErrorView::WrongData(e)),
    }
}

/// The value at the front of an unframed serialization.
pub open spec fn body_decoded<T: StrictDecode>(body: Seq<u8>) -> Result<T::V, ErrorView> {
    match T::strict_deserialized(body) {
        Ok((value, _)) => Ok(value),
        Err(e) => Err(ErrorView::WrongData(e)),
    }
}

/// The value in a framed payload: by the version byte, read from the bytes
/// behind it or from what they decompress to.
pub open spec fn raw_decoded<T: StrictDecode>(data: Seq<u8>) -> Result<T::V, ErrorView> {
    if data.len() == 0 {
        Err(ErrorView::WrongData(EncodingError::UnexpectedEof))
    } else if data[0] == 0 {
        body_decoded::<T>(data.skip(1))
    } else if data[0] == 1 {
        match inflated(data.skip(1)) {
            Ok(body) => body_decoded::<T>(body),
            Err(message) => Err(ErrorView::InflateError(message)),
        }
    } else {
        Err(ErrorView::UnknownRawDataEncoding(data[0]))
    }
}

impl Bech32 {
    /// Version byte of the framing that holds the strict serialization as it
    /// is.
    pub const RAW_DATA_ENCODING_PLAIN: u8 = 0u8;

    /// Version byte of the framing that holds the strict serialization as a
    /// DEFLATE stream.
    pub const RAW_DATA_ENCODING_DEFLATE: u8 = 1u8;

    /// Puts a version byte in front of `body`.
    pub fn framed(version: u8, body: &[u8]) -> (r: Vec<u8>)
        ensures
            r@ == seq![version] + body@,
    {
        let mut writer: Vec<u8> = Vec::new();
        writer.push(version);
        writer.extend_from_slice(body);
        writer
    }

    /// Reads a value from the front of an unframed serialization; bytes
    /// behind the value are let be.
    pub fn decode_body<T: StrictDecode>(body: &[u8]) -> (r: Result<T, Error>)
        ensures
            agrees(r, body_decoded::<T>(body@)),
    {
        match T::strict_decode(body) {
            Ok((value, _)) => Ok(value),
            Err(e) => Err(Error::from(e)),
        }
    }

    /// Encoder without framing: the strict encoded data and nothing else.
    pub fn bare_encode<T: StrictEncode>(obj: &T) -> (r: Result<Vec<u8>, Error>)
        ensures
            agrees(r, bare_encoded(obj.strict_serialized())),
    {
        match strict_encode(obj) {
            Ok(bytes) => Ok(bytes),
            Err(e) => Err(Error::from(e)),
        }
    }

    /// Decoder without framing: the data must hold one value and nothing
    /// behind it.
    pub fn bare_decode<T: StrictDecode>(data: &[u8]) -> (r: Result<T, Error>)
        ensures
            agrees(r, bare_decoded::<T>(data@)),
    {
        match strict_decode::<T>(data) {
            Ok(value) => Ok(value),
            Err(e) => Err(Error::from(e)),
        }
    }

    /// Encoder for v0 of raw data encoding algorithm. Uses plain strict
    /// encoded data.
    pub fn plain_encode<T: StrictEncode>(obj: &T) -> (r: Result<Vec<u8>, Error>)
        ensures
            agrees(r, plain_encoded(obj.strict_serialized())),
    {
        match obj.strict_encode() {
            Ok(bytes) => Ok(Self::framed(Self::RAW_DATA_ENCODING_PLAIN, bytes.as_slice())),
            Err(e) => Err(Error::from(e)),
        }
    }

    /// Encoder for v1 of raw data encoding algorithm. Uses deflate at its
    /// highest level.
    pub fn deflate_encode<T: StrictEncode>(obj: &T) -> (r: Result<Vec<u8>, Error>)
        ensures
            agrees(r, deflate_encoded(obj.strict_serialized())),
    {
        match obj.strict_encode() {
            Ok(bytes) => match deflate_best(&bytes) {
                Some(stream) => Ok(
                    Self::framed(Self::RAW_DATA_ENCODING_DEFLATE, stream.as_slice()),
                ),
                None => Err(Error::DeflateEncoding),
            },
            Err(e) => Err(Error::from(e)),
        }
    }

    /// Decoder of both versions of the raw data encoding. A version byte
    /// other than `0` and `1` is an error that carries the byte; nothing of
    /// such a payload is read.
    pub fn raw_decode<T: StrictDecode>(data: &[u8]) -> (r: Result<T, Error>)
        ensures
            agrees(r, raw_decoded::<T>(data@)),
            data@.len() > 0 && data@[0] != 0 && data@[0] != 1 ==> r == Err::<T, Error>(
                Error::UnknownRawDataEncoding(data@[0]),
            ),
    {
        match u8::strict_decode(data) {
            Ok((version, taken)) => {
                let rest = slice_subrange(data, taken, data.len());
                assert(rest@ =~= data@.skip(1));
                if version == Self::RAW_DATA_ENCODING_PLAIN {
                    Self::decode_body::<T>(rest)
                } else if version == Self::RAW_DATA_ENCODING_DEFLATE {
                    match inflate(rest) {
                        Ok(body) => Self::decode_body::<T>(body.as_slice()),
                        Err(message) => Err(Error::InflateError(message)),
                    }
                } else {
                    Err(Error::UnknownRawDataEncoding(version))
                }
            },
            Err(e) => Err(Error::from(e)),
        }
    }
}

} // verus!
