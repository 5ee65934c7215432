//! Bech32 text form of RGB contract data.
//!
//! A value of one of nine kinds is written as a checksummed string whose
//! human-readable part names the kind. The payload under the checksum is the
//! value's strict serialization: bare for the three identifier kinds, behind a
//! version byte (`0` plain, `1` DEFLATE) for the six document kinds. A string
//! with any other human-readable part is read too, and keeps its payload
//! byte for byte.
//!
//! The crate is verified with Verus. Its functions state what they return
//! over the mathematical views of their arguments, and none of them panics.
//!
//! * [`strict`]: the strict serialization that every kind of value has.
//! * [`domain`]: the nine kinds of value, each held in its strict
//!   serialization.
//! * [`payload`]: [`Bech32`], the union of the nine kinds and the unknown.
//! * [`tags`]: the table of human-readable parts, and the framing of each
//!   kind.
//! * [`codec`]: the framings of the payload.
//! * [`text`]: writing a [`Bech32`] as text and reading it back.
//! * [`convert`]: the typed conversions, [`ToBech32`] and [`FromBech32`].
//! * [`laws`]: what holds of writing and reading together.
//! * [`outside`]: the Bech32 and DEFLATE codecs of other crates, which are
//!   called and not proved; what is assumed of them is stated there.

pub mod codec;
pub mod convert;
pub mod domain;
pub mod error;
pub mod laws;
pub mod outside;
pub mod payload;
pub mod strict;
pub mod tags;
pub mod text;

pub use convert::{FromBech32, ToBech32};
pub use domain::{
    Anchor, Confidential, ContractId, Disclosure, Extension, Genesis, Schema, SchemaId, Transition,
};
pub use error::{Error, ErrorView};
pub use payload::{Bech32, Bech32View};
pub use strict::{strict_decode, strict_encode, EncodingError, StrictDecode, StrictEncode};
pub use tags::{Framing, Kind};
