//! The tagged union of everything that has a text form.

use crate::domain::{
    Anchor, Confidential, ContractId, Disclosure, Extension, Genesis, Schema, SchemaId, Transition,
};
use crate::tags::Kind;
use vstd::prelude::*;
use vstd::slice::slice_to_vec;

verus! {

/// Bech32 representation of generic RGB data: one variant for each kind of
/// value that has a human-readable part of its own, and one for the payloads
/// of all other human-readable parts.
#[derive(PartialEq, Debug)]
pub enum Bech32 {
    /// Blinded UTXO for assigning RGB state to. HRP: `utxob`
    BlindedUtxo(Confidential),
    /// RGB schema ID (hash of the schema data). HRP: `sch`
    SchemaId(SchemaId),
    /// RGB schema raw data. HRP: `schema`
    Schema(Schema),
    /// RGB contract ID (hash of the genesis). HRP: `rgb`
    ContractId(ContractId),
    /// RGB contract genesis raw data. HRP: `genesis`
    Genesis(Genesis),
    /// Raw data of a state transition under some RGB contract. HRP:
    /// `transition`
    Transition(Transition),
    /// Raw data of a state extension under some RGB contract. HRP: `statex`
    Extension(Extension),
    /// Anchor data for some deterministic bitcoin commitment. HRP: `anchor`
    Anchor(Anchor),
    /// Disclosure data revealing some specific confidential information about
    /// an RGB contract. HRP: `disclosure`
    Disclosure(Disclosure),
    /// Binary data for unknown Bech32 HRPs.
    Other(String, Vec<u8>),
}

/// A [`Bech32`] as a mathematical value: each typed variant by the strict
/// serialization of what it holds.
pub enum Bech32View {
    BlindedUtxo(Seq<u8>),
    SchemaId(Seq<u8>),
    Schema(Seq<u8>),
    ContractId(Seq<u8>),
    Genesis(Seq<u8>),
    Transition(Seq<u8>),
    Extension(Seq<u8>),
    Anchor(Seq<u8>),
    Disclosure(Seq<u8>),
    Other(Seq<char>, Seq<u8>),
}

impl View for Bech32 {
    type V = Bech32View;

    open spec fn view(&self) -> Bech32View {
        match *self {
            Bech32::BlindedUtxo(v) => Bech32View::BlindedUtxo(v@),
            Bech32::SchemaId(v) => Bech32View::SchemaId(v@),
            Bech32::Schema(v) => Bech32View::Schema(v@),
            Bech32::ContractId(v) => Bech32View::ContractId(v@),
            Bech32::Genesis(v) => Bech32View::Genesis(v@),
            Bech32::Transition(v) => Bech32View::Transition(v@),
            Bech32::Extension(v) => Bech32View::Extension(v@),
            Bech32::Anchor(v) => Bech32View::Anchor(v@),
            Bech32::Disclosure(v) => Bech32View::Disclosure(v@),
            Bech32::Other(hrp, data) => Bech32View::Other(hrp@, data@),
        }
    }
}

impl Bech32View {
    /// The kind of the value.
    pub open spec fn kind(self) -> Kind {
        match self {
            Bech32View::BlindedUtxo(_) => Kind::BlindedUtxo,
            Bech32View::SchemaId(_) => Kind::SchemaId,
            Bech32View::Schema(_) => Kind::Schema,
            Bech32View::ContractId(_) => Kind::ContractId,
            Bech32View::Genesis(_) => Kind::Genesis,
            Bech32View::Transition(_) => Kind::Transition,
            Bech32View::Extension(_) => Kind::Extension,
            Bech32View::Anchor(_) => Kind::Anchor,
            Bech32View::Disclosure(_) => Kind::Disclosure,
            Bech32View::Other(_, _) => Kind::Other,
        }
    }

    /// The value of `kind` that holds `content`; under [`Kind::Other`], the
    /// data `content` of the part `hrp`.
    pub open spec fn holding(kind: Kind, hrp: Seq<char>, content: Seq<u8>) -> Bech32View {
        match kind {
            Kind::BlindedUtxo => Bech32View::BlindedUtxo(content),
            Kind::SchemaId => Bech32View::SchemaId(content),
            Kind::Schema => Bech32View::Schema(content),
            Kind::ContractId => Bech32View::ContractId(content),
            Kind::Genesis => Bech32View::Genesis(content),
            Kind::Transition => Bech32View::Transition(content),
            Kind::Extension => Bech32View::Extension(content),
            Kind::Anchor => Bech32View::Anchor(content),
            Kind::Disclosure => Bech32View::Disclosure(content),
            Kind::Other => Bech32View::Other(hrp, content),
        }
    }

    /// The bytes that the value holds: the strict serialization of a typed
    /// value, the data of an unknown part.
    pub open spec fn content(self) -> Seq<u8> {
        match self {
            Bech32View::BlindedUtxo(v) => v,
            Bech32View::SchemaId(v) => v,
            Bech32View::Schema(v) => v,
            Bech32View::ContractId(v) => v,
            Bech32View::Genesis(v) => v,
            Bech32View::Transition(v) => v,
            Bech32View::Extension(v) => v,
            Bech32View::Anchor(v) => v,
            Bech32View::Disclosure(v) => v,
            Bech32View::Other(_, data) => data,
        }
    }
}

impl Clone for Bech32 {
    fn clone(&self) -> (r: Self)
        ensures
            r@ == self@,
    {
        match self {
            Bech32::BlindedUtxo(v) => Bech32::BlindedUtxo(*v),
            Bech32::SchemaId(v) => Bech32::SchemaId(*v),
            Bech32::Schema(v) => Bech32::Schema(v.clone()),
            Bech32::ContractId(v) => Bech32::ContractId(*v),
            Bech32::Genesis(v) => Bech32::Genesis(v.clone()),
            Bech32::Transition(v) => Bech32::Transition(v.clone()),
            Bech32::Extension(v) => Bech32::Extension(v.clone()),
            Bech32::Anchor(v) => Bech32::Anchor(v.clone()),
            Bech32::Disclosure(v) => Bech32::Disclosure(v.clone()),
            Bech32::Other(hrp, data) => Bech32::Other(
                hrp.clone(),
                slice_to_vec(data.as_slice()),
            ),
        }
    }
}

} // verus!
