//! Writing a [`Bech32`] as text and reading it back.

use crate::codec::{bare_decoded, bare_encoded, deflate_encoded, plain_encoded, raw_decoded};
use crate::domain::{
    Anchor, Confidential, ContractId, Disclosure, Extension, Genesis, Schema, SchemaId, Transition,
};
use crate::error::{agrees, Error, ErrorView};
use crate::outside::{
    base256_of, base32_of, bech32_decode, bech32_encode, bech32_parts, bech32_text, from_base32,
    has_bech32_shape, hrp_acceptable, is_upper, to_base32,
};
use crate::payload::{Bech32, Bech32View};
use crate::tags::{classify_spec, Framing, Kind};
use core::str::FromStr;
use vstd::prelude::*;
use vstd::slice::slice_to_vec;

verus! {

impl Bech32View {
    /// The human-readable part that the value is written under.
    pub open spec fn hrp(self) -> Seq<char> {
        match self {
            Bech32View::Other(hrp, _) => hrp,
            _ => self.kind().tag_spec()->Some_0,
        }
    }

    /// The bytes that the value is written as: what it holds, in the framing
    /// of its kind.
    pub open spec fn payload(self) -> Result<Seq<u8>, ErrorView> {
        match self.kind().framing() {
            Some(Framing::Bare) => bare_encoded(Ok(self.content())),
            Some(Framing::Plain) => plain_encoded(Ok(self.content())),
            Some(Framing::Deflate) => deflate_encoded(Ok(self.content())),
            None => Ok(self.content()),
        }
    }
}

/// The number of 5-bit groups that `bytes` bytes are written in.
pub open spec fn text_groups(bytes: nat) -> nat {
    ((8 * bytes + 4) / 5) as nat
}

/// The Bech32 string of a human-readable part and payload bytes.
pub open spec fn text_of(hrp: Seq<char>, payload: Seq<u8>) -> Result<Seq<char>, ErrorView> {
    match bech32_text(hrp, base32_of(payload)) {
        Ok(text) => Ok(text),
        Err(e) => Err(ErrorView::Bech32Error(e)),
    }
}

/// The text form of a value.
pub open spec fn render_spec(value: Bech32View) -> Result<Seq<char>, ErrorView> {
    match value.payload() {
        Ok(payload) => text_of(value.hrp(), payload),
        Err(e) => Err(e),
    }
}

/// What a payload under a part of `kind` holds: the value read from it in
/// the way of its kind, by its strict serialization. An identifier must fill
/// its payload; a document is read behind its version byte.
pub open spec fn content_decoded(kind: Kind, data: Seq<u8>) -> Result<Seq<u8>, ErrorView> {
    match kind {
        Kind::BlindedUtxo => bare_decoded::<Confidential>(data),
        Kind::SchemaId => bare_decoded::<SchemaId>(data),
        Kind::ContractId => bare_decoded::<ContractId>(data),
        Kind::Schema => raw_decoded::<Schema>(data),
        Kind::Genesis => raw_decoded::<Genesis>(data),
        Kind::Extension => raw_decoded::<Extension>(data),
        Kind::Transition => raw_decoded::<Transition>(data),
        Kind::Anchor => raw_decoded::<Anchor>(data),
        Kind::Disclosure => raw_decoded::<Disclosure>(data),
        Kind::Other => Ok(data),
    }
}

/// The value that a human-readable part and payload bytes stand for: of the
/// kind that the part announces, holding what the payload holds.
pub open spec fn decode_spec(hrp: Seq<char>, data: Seq<u8>) -> Result<Bech32View, ErrorView> {
    match content_decoded(classify_spec(hrp), data) {
        Ok(content) => Ok(Bech32View::holding(classify_spec(hrp), hrp, content)),
        Err(e) => Err(e),
    }
}

/// The value that a text stands for.
pub open spec fn parse_spec(text: Seq<char>) -> Result<Bech32View, ErrorView> {
    match bech32_parts(text) {
        Ok((hrp, groups)) => match base256_of(groups) {
            Ok(data) => decode_spec(hrp, data),
            Err(e) => Err(ErrorView::Bech32Error(e)),
        },
        Err(e) => Err(ErrorView::Bech32Error(e)),
    }
}

/// Every human-readable part of the table is one that the text layer takes,
/// and is written as it stands, having no uppercase letter.
pub proof fn lemma_table_parts_acceptable(kind: Kind)
    requires
        kind != Kind::Other,
    ensures
        hrp_acceptable(kind.tag_spec()->Some_0),
        forall|i: int|
            0 <= i < kind.tag_spec()->Some_0.len() ==> !is_upper(
                #[trigger] kind.tag_spec()->Some_0[i],
            ),
{
    reveal_strlit("utxob");
    reveal_strlit("sch");
    reveal_strlit("rgb");
    reveal_strlit("schema");
    reveal_strlit("genesis");
    reveal_strlit("statex");
    reveal_strlit("transition");
    reveal_strlit("anchor");
    reveal_strlit("disclosure");
}

impl Bech32 {
    /// The kind of the value.
    pub fn kind(&self) -> (kind: Kind)
        ensures
            kind == self@.kind(),
    {
        match self {
            Bech32::BlindedUtxo(_) => Kind::BlindedUtxo,
            Bech32::SchemaId(_) => Kind::SchemaId,
            Bech32::Schema(_) => Kind::Schema,
            Bech32::ContractId(_) => Kind::ContractId,
            Bech32::Genesis(_) => Kind::Genesis,
            Bech32::Transition(_) => Kind::Transition,
            Bech32::Extension(_) => Kind::Extension,
            Bech32::Anchor(_) => Kind::Anchor,
            Bech32::Disclosure(_) => Kind::Disclosure,
            Bech32::Other(_, _) => Kind::Other,
        }
    }

    /// The human-readable part and the payload bytes of the value.
    pub fn encode<'a>(&'a self) -> (r: Result<(&'a str, Vec<u8>), Error>)
        ensures
            match r {
                Ok((hrp, payload)) => hrp@ == self@.hrp() && self@.payload() == Ok::<
                    Seq<u8>,
                    ErrorView,
                >(payload@),
                Err(e) => self@.payload() == Err::<Seq<u8>, ErrorView>(e@),
            },
    {
        let (hrp, payload) = match self {
            Bech32::BlindedUtxo(obj) => (Self::HRP_OUTPOINT, Self::bare_encode(obj)),
            Bech32::SchemaId(obj) => (Self::HRP_SCHEMA_ID, Self::bare_encode(obj)),
            Bech32::ContractId(obj) => (Self::HRP_CONTRACT_ID, Self::bare_encode(obj)),
            Bech32::Schema(obj) => (Self::HRP_SCHEMA, Self::deflate_encode(obj)),
            Bech32::Genesis(obj) => (Self::HRP_GENESIS, Self::deflate_encode(obj)),
            Bech32::Extension(obj) => (Self::HRP_EXTENSION, Self::deflate_encode(obj)),
            Bech32::Transition(obj) => (Self::HRP_TRANSITION, Self::deflate_encode(obj)),
            Bech32::Anchor(obj) => (Self::HRP_ANCHOR, Self::plain_encode(obj)),
            Bech32::Disclosure(obj) => (Self::HRP_DISCLOSURE, Self::deflate_encode(obj)),
            Bech32::Other(hrp, obj) => (hrp.as_str(), Ok(slice_to_vec(obj.as_slice()))),
        };
        match payload {
            Ok(payload) => Ok((hrp, payload)),
            Err(e) => Err(e),
        }
    }

    /// The value that a human-readable part and payload bytes stand for. A
    /// part of the table has its payload read as its kind demands; any other
    /// part keeps its payload as it came.
    pub fn decode(hrp: String, data: Vec<u8>) -> (r: Result<Bech32, Error>)
        ensures
            agrees(r, decode_spec(hrp@, data@)),
    {
        let bytes = data.as_slice();
        match Kind::classify(hrp.as_str()) {
            Kind::BlindedUtxo => match Self::bare_decode::<Confidential>(bytes) {
                Ok(v) => Ok(Bech32::BlindedUtxo(v)),
                Err(e) => Err(e),
            },
            Kind::SchemaId => match Self::bare_decode::<SchemaId>(bytes) {
                Ok(v) => Ok(Bech32::SchemaId(v)),
                Err(e) => Err(e),
            },
            Kind::ContractId => match Self::bare_decode::<ContractId>(bytes) {
                Ok(v) => Ok(Bech32::ContractId(v)),
                Err(e) => Err(e),
            },
            Kind::Schema => match Self::raw_decode::<Schema>(bytes) {
                Ok(v) => Ok(Bech32::Schema(v)),
                Err(e) => Err(e),
            },
            Kind::Genesis => match Self::raw_decode::<Genesis>(bytes) {
                Ok(v) => Ok(Bech32::Genesis(v)),
                Err(e) => Err(e),
            },
            Kind::Extension => match Self::raw_decode::<Extension>(bytes) {
                Ok(v) => Ok(Bech32::Extension(v)),
                Err(e) => Err(e),
            },
            Kind::Transition => match Self::raw_decode::<Transition>(bytes) {
                Ok(v) => Ok(Bech32::Transition(v)),
                Err(e) => Err(e),
            },
            Kind::Anchor => match Self::raw_decode::<Anchor>(bytes) {
                Ok(v) => Ok(Bech32::Anchor(v)),
                Err(e) => Err(e),
            },
            Kind::Disclosure => match Self::raw_decode::<Disclosure>(bytes) {
                Ok(v) => Ok(Bech32::Disclosure(v)),
                Err(e) => Err(e),
            },
            Kind::Other => Ok(Bech32::Other(hrp, data)),
        }
    }

    /// Writes the value as a Bech32 string: its human-readable part, the
    /// separator, and its payload under the checksum.
    ///
    /// A value of the table is written whenever its payload can be made; a
    /// value of another part also needs a part that the text layer takes.
    pub fn render(&self) -> (r: Result<String, Error>)
        ensures
            agrees(r, render_spec(self@)),
            r is Ok <==> self@.payload() is Ok && hrp_acceptable(self@.hrp()),
            !(self@ is Other) ==> (r is Ok <==> self@.payload() is Ok),
            r matches Ok(text) ==> has_bech32_shape(
                text@,
                self@.hrp(),
                text_groups(self@.payload()->Ok_0.len()),
            ),
            r matches Ok(text) ==> !(self@ is Other) ==> text@.subrange(
                0,
                self@.hrp().len() as int,
            ) == self@.hrp(),
    {
        proof {
            if !(self@ is Other) {
                lemma_table_parts_acceptable(self@.kind());
            }
        }
        match self.encode() {
            Ok((hrp, payload)) => match bech32_encode(hrp, to_base32(&payload)) {
                Ok(text) => Ok(text),
                Err(e) => Err(Error::from(e)),
            },
            Err(e) => Err(e),
        }
    }
}

impl FromStr for Bech32 {
    type Err = Error;

    /// Reads a value from a Bech32 string. The string is taken apart by the
    /// text layer, whose refusal is final; what the payload then stands for
    /// is decided by the human-readable part.
    fn from_str(s: &str) -> (r: Result<Bech32, Error>)
        ensures
            agrees(r, parse_spec(s@)),
    {
        match bech32_decode(s) {
            Ok((hrp, groups)) => match from_base32(&groups) {
                Ok(data) => Self::decode(hrp, data),
                Err(e) => Err(Error::from(e)),
            },
            Err(e) => Err(Error::from(e)),
        }
    }
}

} // verus!
