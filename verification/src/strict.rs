//! Strict serialization: the canonical binary form that every kind of value
//! is written in and read back from.

use vstd::prelude::*;

verus! {

/// Why a value could not be written in, or read from, its strict form.
#[derive(Clone, Copy, PartialEq, Eq, Debug)]
pub enum EncodingError {
    /// The input ended before the value was complete.
    UnexpectedEof,
    /// Bytes were left over behind the value.
    DataNotEntirelyConsumed,
}

/// A value with a strict serialization.
pub trait StrictEncode {
    /// The strict serialization of the value, or the reason it has none.
    spec fn strict_serialized(&self) -> Result<Seq<u8>, EncodingError>;

    /// Writes the value in its strict form.
    fn strict_encode(&self) -> (r: Result<Vec<u8>, EncodingError>)
        ensures
            match r {
                Ok(bytes) => self.strict_serialized() == Ok::<Seq<u8>, EncodingError>(bytes@),
                Err(e) => self.strict_serialized() == Err::<Seq<u8>, EncodingError>(e),
            },
    ;
}

/// A value that can be read from the front of a byte string.
pub trait StrictDecode: Sized + View {
    /// The value at the front of `data` and the number of bytes it occupies,
    /// or the reason `data` does not start with such a value.
    spec fn strict_deserialized(data: Seq<u8>) -> Result<(Self::V, nat), EncodingError>;

    /// Reads a value from the front of `data` and reports how many bytes it
    /// took.
    fn strict_decode(data: &[u8]) -> (r: Result<(Self, usize), EncodingError>)
        ensures
            match r {
                Ok((value, taken)) => {
                    &&& taken <= data@.len()
                    &&& Self::strict_deserialized(data@) == Ok::<(Self::V, nat), EncodingError>(
                        (value@, taken as nat),
                    )
                },
                Err(e) => Self::strict_deserialized(data@) == Err::<(Self::V, nat), EncodingError>(e),
            },
    ;
}

impl StrictEncode for u8 {
    open spec fn strict_serialized(&self) -> Result<Seq<u8>, EncodingError> {
        Ok(seq![*self])
    }

    fn strict_encode(&self) -> (r: Result<Vec<u8>, EncodingError>) {
        let mut bytes: Vec<u8> = Vec::new();
        bytes.push(*self);
        assert(bytes@ =~= seq![*self]);
        Ok(bytes)
    }
}

impl StrictDecode for u8 {
    open spec fn strict_deserialized(data: Seq<u8>) -> Result<(u8, nat), EncodingError> {
        if data.len() == 0 {
            Err(EncodingError::UnexpectedEof)
        } else {
            Ok((data[0], 1nat))
        }
    }

    fn strict_decode(data: &[u8]) -> (r: Result<(u8, usize), EncodingError>) {
        if data.len() == 0 {
            Err(EncodingError::UnexpectedEof)
        } else {
            Ok((data[0], 1))
        }
    }
}

/// What [`strict_decode`] makes of `data`: the value that `data` holds from
/// its first byte to its last.
pub open spec fn strict_decoded<T: StrictDecode>(data: Seq<u8>) -> Result<T::V, EncodingError> {
    match T::strict_deserialized(data) {
        Ok((value, taken)) => if taken == data.len() {
            Ok(value)
        } else {
            Err(EncodingError::DataNotEntirelyConsumed)
        },
        Err(e) => Err(e),
    }
}

/// Writes `value` in its strict form.
pub fn strict_encode<T: StrictEncode>(value: &T) -> (r: Result<Vec<u8>, EncodingError>)
    ensures
        match r {
            Ok(bytes) => value.strict_serialized() == Ok::<Seq<u8>, EncodingError>(bytes@),
            Err(e) => value.strict_serialized() == Err::<Seq<u8>, EncodingError>(e),
        },
{
    value.strict_encode()
}

/// Reads a value that fills `data` exactly: input with bytes behind the value
/// is rejected with [`EncodingError::DataNotEntirelyConsumed`].
pub fn strict_decode<T: StrictDecode>(data: &[u8]) -> (r: Result<T, EncodingError>)
    ensures
        match r {
            Ok(value) => strict_decoded::<T>(data@) == Ok::<T::V, EncodingError>(value@),
            Err(e) => strict_decoded::<T>(data@) == Err::<T::V, EncodingError>(e),
        },
{
    match T::strict_decode(data) {
        Ok((value, taken)) => {
            if taken == data.len() {
                Ok(value)
            } else {
                Err(EncodingError::DataNotEntirelyConsumed)
            }
        },
        Err(e) => Err(e),
    }
}

} // verus!
