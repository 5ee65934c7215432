//! The nine kinds of RGB data that have a text form, as this crate holds
//! them: each value in its strict serialization.
//!
//! The three identifiers are 32-byte hashes. The six documents are carried as
//! the bytes of their strict serialization; what those bytes say is the
//! business of the contract layer, not of the text form.

use crate::strict::{EncodingError, StrictDecode, StrictEncode};
use vstd::prelude::*;
use vstd::slice::slice_to_vec;

verus! {

/// The length of an identifier in bytes.
pub const HASH_LEN: usize = 32;

/// What reading a 32-byte hash from the front of `data` gives.
pub open spec fn hash_deserialized(data: Seq<u8>) -> Result<(Seq<u8>, nat), EncodingError> {
    if data.len() < 32 {
        Err(EncodingError::UnexpectedEof)
    } else {
        Ok((data.subrange(0, 32), 32nat))
    }
}

/// What reading a document from `data` gives: all of `data`.
pub open spec fn document_deserialized(data: Seq<u8>) -> Result<(Seq<u8>, nat), EncodingError> {
    Ok((data, data.len()))
}

/// Copies the 32 bytes at the front of `data`.
fn read_hash(data: &[u8]) -> (r: Result<[u8; 32], EncodingError>)
    ensures
        match r {
            Ok(hash) => hash_deserialized(data@) == Ok::<(Seq<u8>, nat), EncodingError>(
                (hash@, 32nat),
            ),
            Err(e) => hash_deserialized(data@) == Err::<(Seq<u8>, nat), EncodingError>(e),
        },
{
    if data.len() < HASH_LEN {
        return Err(EncodingError::UnexpectedEof);
    }
    let mut hash = [0u8; 32];
    let mut i: usize = 0;
    while i < HASH_LEN
        invariant
            i <= 32,
            data@.len() >= 32,
            forall|j: int| 0 <= j < i ==> hash@[j] == data@[j],
        decreases 32 - i,
    {
        hash[i] = data[i];
        i += 1;
    }
    assert(hash@ =~= data@.subrange(0, 32));
    Ok(hash)
}

/// The hash that stands for a blinded transaction output, to which RGB state
/// is assigned without naming the output.
#[derive(Clone, Copy, PartialEq, Eq, Debug)]
pub struct Confidential(pub [u8; 32]);

impl View for Confidential {
    type V = Seq<u8>;

    open spec fn view(&self) -> Seq<u8> {
        self.0@
    }
}

impl StrictEncode for Confidential {
    open spec fn strict_serialized(&self) -> Result<Seq<u8>, EncodingError> {
        Ok(self@)
    }

    fn strict_encode(&self) -> (r: Result<Vec<u8>, EncodingError>) {
        Ok(slice_to_vec(self.0.as_slice()))
    }
}

impl StrictDecode for Confidential {
    open spec fn strict_deserialized(data: Seq<u8>) -> Result<(Seq<u8>, nat), EncodingError> {
        hash_deserialized(data)
    }

    fn strict_decode(data: &[u8]) -> (r: Result<(Self, usize), EncodingError>) {
        match read_hash(data) {
            Ok(hash) => Ok((Confidential(hash), HASH_LEN)),
            Err(e) => Err(e),
        }
    }
}

/// The identifier of a schema: the hash of the schema's data.
#[derive(Clone, Copy, PartialEq, Eq, Debug)]
pub struct SchemaId(pub [u8; 32]);

impl View for SchemaId {
    type V = Seq<u8>;

    open spec fn view(&self) -> Seq<u8> {
        self.0@
    }
}

impl StrictEncode for SchemaId {
    open spec fn strict_serialized(&self) -> Result<Seq<u8>, EncodingError> {
        Ok(self@)
    }

    fn strict_encode(&self) -> (r: Result<Vec<u8>, EncodingError>) {
        Ok(slice_to_vec(self.0.as_slice()))
    }
}

impl StrictDecode for SchemaId {
    open spec fn strict_deserialized(data: Seq<u8>) -> Result<(Seq<u8>, nat), EncodingError> {
        hash_deserialized(data)
    }

    fn strict_decode(data: &[u8]) -> (r: Result<(Self, usize), EncodingError>) {
        match read_hash(data) {
            Ok(hash) => Ok((SchemaId(hash), HASH_LEN)),
            Err(e) => Err(e),
        }
    }
}

/// The identifier of a contract: the hash of its genesis.
#[derive(Clone, Copy, PartialEq, Eq, Debug)]
pub struct ContractId(pub [u8; 32]);

impl View for ContractId {
    type V = Seq<u8>;

    open spec fn view(&self) -> Seq<u8> {
        self.0@
    }
}

impl StrictEncode for ContractId {
    open spec fn strict_serialized(&self) -> Result<Seq<u8>, EncodingError> {
        Ok(self@)
    }

    fn strict_encode(&self) -> (r: Result<Vec<u8>, EncodingError>) {
        Ok(slice_to_vec(self.0.as_slice()))
    }
}

impl StrictDecode for ContractId {
    open spec fn strict_deserialized(data: Seq<u8>) -> Result<(Seq<u8>, nat), EncodingError> {
        hash_deserialized(data)
    }

    fn strict_decode(data: &[u8]) -> (r: Result<(Self, usize), EncodingError>) {
        match read_hash(data) {
            Ok(hash) => Ok((ContractId(hash), HASH_LEN)),
            Err(e) => Err(e),
        }
    }
}

/// A schema, in its strict serialization.
#[derive(PartialEq, Eq, Debug)]
pub struct Schema(pub Vec<u8>);

impl View for Schema {
    type V = Seq<u8>;

    open spec fn view(&self) -> Seq<u8> {
        self.0@
    }
}

impl Clone for Schema {
    fn clone(&self) -> (r: Self)
        ensures
            r@ == self@,
    {
        Schema(slice_to_vec(self.0.as_slice()))
    }
}

impl StrictEncode for Schema {
    open spec fn strict_serialized(&self) -> Result<Seq<u8>, EncodingError> {
        Ok(self@)
    }

    fn strict_encode(&self) -> (r: Result<Vec<u8>, EncodingError>) {
        Ok(slice_to_vec(self.0.as_slice()))
    }
}

impl StrictDecode for Schema {
    open spec fn strict_deserialized(data: Seq<u8>) -> Result<(Seq<u8>, nat), EncodingError> {
        document_deserialized(data)
    }

    fn strict_decode(data: &[u8]) -> (r: Result<(Self, usize), EncodingError>) {
        Ok((Schema(slice_to_vec(data)), data.len()))
    }
}

/// The genesis of a contract, in its strict serialization.
#[derive(PartialEq, Eq, Debug)]
pub struct Genesis(pub Vec<u8>);

impl View for Genesis {
    type V = Seq<u8>;

    open spec fn view(&self) -> Seq<u8> {
        self.0@
    }
}

impl Clone for Genesis {
    fn clone(&self) -> (r: Self)
        ensures
            r@ == self@,
    {
        Genesis(slice_to_vec(self.0.as_slice()))
    }
}

impl StrictEncode for Genesis {
    open spec fn strict_serialized(&self) -> Result<Seq<u8>, EncodingError> {
        Ok(self@)
    }

    fn strict_encode(&self) -> (r: Result<Vec<u8>, EncodingError>) {
        Ok(slice_to_vec(self.0.as_slice()))
    }
}

impl StrictDecode for Genesis {
    open spec fn strict_deserialized(data: Seq<u8>) -> Result<(Seq<u8>, nat), EncodingError> {
        document_deserialized(data)
    }

    fn strict_decode(data: &[u8]) -> (r: Result<(Self, usize), EncodingError>) {
        Ok((Genesis(slice_to_vec(data)), data.len()))
    }
}

/// A state transition under a contract, in its strict serialization.
#[derive(PartialEq, Eq, Debug)]
pub struct Transition(pub Vec<u8>);

impl View for Transition {
    type V = Seq<u8>;

    open spec fn view(&self) -> Seq<u8> {
        self.0@
    }
}

impl Clone for Transition {
    fn clone(&self) -> (r: Self)
        ensures
            r@ == self@,
    {
        Transition(slice_to_vec(self.0.as_slice()))
    }
}

impl StrictEncode for Transition {
    open spec fn strict_serialized(&self) -> Result<Seq<u8>, EncodingError> {
        Ok(self@)
    }

    fn strict_encode(&self) -> (r: Result<Vec<u8>, EncodingError>) {
        Ok(slice_to_vec(self.0.as_slice()))
    }
}

impl StrictDecode for Transition {
    open spec fn strict_deserialized(data: Seq<u8>) -> Result<(Seq<u8>, nat), EncodingError> {
        document_deserialized(data)
    }

    fn strict_decode(data: &[u8]) -> (r: Result<(Self, usize), EncodingError>) {
        Ok((Transition(slice_to_vec(data)), data.len()))
    }
}

/// A state extension under a contract, in its strict serialization.
#[derive(PartialEq, Eq, Debug)]
pub struct Extension(pub Vec<u8>);

impl View for Extension {
    type V = Seq<u8>;

    open spec fn view(&self) -> Seq<u8> {
        self.0@
    }
}

impl Clone for Extension {
    fn clone(&self) -> (r: Self)
        ensures
            r@ == self@,
    {
        Extension(slice_to_vec(self.0.as_slice()))
    }
}

impl StrictEncode for Extension {
    open spec fn strict_serialized(&self) -> Result<Seq<u8>, EncodingError> {
        Ok(self@)
    }

    fn strict_encode(&self) -> (r: Result<Vec<u8>, EncodingError>) {
        Ok(slice_to_vec(self.0.as_slice()))
    }
}

impl StrictDecode for Extension {
    open spec fn strict_deserialized(data: Seq<u8>) -> Result<(Seq<u8>, nat), EncodingError> {
        document_deserialized(data)
    }

    fn strict_decode(data: &[u8]) -> (r: Result<(Self, usize), EncodingError>) {
        Ok((Extension(slice_to_vec(data)), data.len()))
    }
}

/// The anchor of a deterministic bitcoin commitment, in its strict
/// serialization.
#[derive(PartialEq, Eq, Debug)]
pub struct Anchor(pub Vec<u8>);

impl View for Anchor {
    type V = Seq<u8>;

    open spec fn view(&self) -> Seq<u8> {
        self.0@
    }
}

impl Clone for Anchor {
    fn clone(&self) -> (r: Self)
        ensures
            r@ == self@,
    {
        Anchor(slice_to_vec(self.0.as_slice()))
    }
}

impl StrictEncode for Anchor {
    open spec fn strict_serialized(&self) -> Result<Seq<u8>, EncodingError> {
        Ok(self@)
    }

    fn strict_encode(&self) -> (r: Result<Vec<u8>, EncodingError>) {
        Ok(slice_to_vec(self.0.as_slice()))
    }
}

impl StrictDecode for Anchor {
    open spec fn strict_deserialized(data: Seq<u8>) -> Result<(Seq<u8>, nat), EncodingError> {
        document_deserialized(data)
    }

    fn strict_decode(data: &[u8]) -> (r: Result<(Self, usize), EncodingError>) {
        Ok((Anchor(slice_to_vec(data)), data.len()))
    }
}

/// A disclosure of confidential data of a contract, in its strict
/// serialization.
#[derive(PartialEq, Eq, Debug)]
pub struct Disclosure(pub Vec<u8>);

impl View for Disclosure {
    type V = Seq<u8>;

    open spec fn view(&self) -> Seq<u8> {
        self.0@
    }
}

impl Clone for Disclosure {
    fn clone(&self) -> (r: Self)
        ensures
            r@ == self@,
    {
        Disclosure(slice_to_vec(self.0.as_slice()))
    }
}

impl StrictEncode for Disclosure {
    open spec fn strict_serialized(&self) -> Result<Seq<u8>, EncodingError> {
        Ok(self@)
    }

    fn strict_encode(&self) -> (r: Result<Vec<u8>, EncodingError>) {
        Ok(slice_to_vec(self.0.as_slice()))
    }
}

impl StrictDecode for Disclosure {
    open spec fn strict_deserialized(data: Seq<u8>) -> Result<(Seq<u8>, nat), EncodingError> {
        document_deserialized(data)
    }

    fn strict_decode(data: &[u8]) -> (r: Result<(Self, usize), EncodingError>) {
        Ok((Disclosure(slice_to_vec(data)), data.len()))
    }
}

impl Default for Transition {
    /// The empty transition. Its strict serialization is twelve zero bytes:
    /// the transition type and the item counts of its five empty
    /// collections, two bytes each.
    fn default() -> (r: Self)
        ensures
            r@ == Seq::new(12, |i: int| 0u8),
    {
        let mut bytes: Vec<u8> = Vec::new();
        let mut i: usize = 0;
        while i < 12
            invariant
                i <= 12,
                bytes@ == Seq::new(i as nat, |j: int| 0u8),
            decreases 12 - i,
        {
            bytes.push(0u8);
            i += 1;
            assert(bytes@ =~= Seq::new(i as nat, |j: int| 0u8));
        }
        Transition(bytes)
    }
}

} // verus!
