//! The table of human-readable parts: which kind of value each one
//! announces.

use crate::payload::Bech32;
use vstd::prelude::*;

verus! {

/// The kinds of value that a human-readable part can announce.
#[derive(Clone, Copy, PartialEq, Eq, Debug)]
pub enum Kind {
    BlindedUtxo,
    SchemaId,
    Schema,
    ContractId,
    Genesis,
    Transition,
    Extension,
    Anchor,
    Disclosure,
    /// Every human-readable part that the table does not hold.
    Other,
}

/// How the payload under the checksum holds a value's strict serialization.
#[derive(Clone, Copy, PartialEq, Eq, Debug)]
pub enum Framing {
    /// The strict serialization and nothing else.
    Bare,
    /// Version byte `0`, then the strict serialization.
    Plain,
    /// Version byte `1`, then the DEFLATE stream of the strict serialization.
    Deflate,
}

impl Bech32 {
    /// HRP for a Bech32-encoded blinded UTXO data
    pub const HRP_OUTPOINT: &'static str = "utxob";

    /// Bech32 HRP for RGB schema ID encoding
    pub const HRP_SCHEMA_ID: &'static str = "sch";

    /// Bech32 HRP for RGB contract ID encoding
    pub const HRP_CONTRACT_ID: &'static str = "rgb";

    /// HRP for a Bech32-encoded raw RGB schema data
    pub const HRP_SCHEMA: &'static str = "schema";

    /// HRP for a Bech32-encoded raw RGB contract genesis data
    pub const HRP_GENESIS: &'static str = "genesis";

    /// HRP for a Bech32-encoded raw RGB state transition data
    pub const HRP_TRANSITION: &'static str = "transition";

    /// HRP for a Bech32-encoded raw RGB state extension data
    pub const HRP_EXTENSION: &'static str = "statex";

    /// HRP for a Bech32-encoded deterministic bitcoin commitments anchor data
    pub const HRP_ANCHOR: &'static str = "anchor";

    /// HRP for a Bech32-encoded RGB disclosure data
    pub const HRP_DISCLOSURE: &'static str = "disclosure";
}

/// The kind that the human-readable part `tag` announces.
pub open spec fn classify_spec(tag: Seq<char>) -> Kind {
    if tag == Bech32::HRP_OUTPOINT@ {
        Kind::BlindedUtxo
    } else if tag == Bech32::HRP_SCHEMA_ID@ {
        Kind::SchemaId
    } else if tag == Bech32::HRP_CONTRACT_ID@ {
        Kind::ContractId
    } else if tag == Bech32::HRP_SCHEMA@ {
        Kind::Schema
    } else if tag == Bech32::HRP_GENESIS@ {
        Kind::Genesis
    } else if tag == Bech32::HRP_EXTENSION@ {
        Kind::Extension
    } else if tag == Bech32::HRP_TRANSITION@ {
        Kind::Transition
    } else if tag == Bech32::HRP_ANCHOR@ {
        Kind::Anchor
    } else if tag == Bech32::HRP_DISCLOSURE@ {
        Kind::Disclosure
    } else {
        Kind::Other
    }
}

/// Whether two strings hold the same characters.
fn same_text(a: &str, b: &str) -> (r: bool)
    ensures
        r == (a@ == b@),
{
    a.to_owned() == b.to_owned()
}

impl Kind {
    /// The human-readable part of a kind of the table; `None` for
    /// [`Kind::Other`], which has no part of its own.
    pub open spec fn tag_spec(self) -> Option<Seq<char>> {
        match self {
            Kind::BlindedUtxo => Some(Bech32::HRP_OUTPOINT@),
            Kind::SchemaId => Some(Bech32::HRP_SCHEMA_ID@),
            Kind::Schema => Some(Bech32::HRP_SCHEMA@),
            Kind::ContractId => Some(Bech32::HRP_CONTRACT_ID@),
            Kind::Genesis => Some(Bech32::HRP_GENESIS@),
            Kind::Transition => Some(Bech32::HRP_TRANSITION@),
            Kind::Extension => Some(Bech32::HRP_EXTENSION@),
            Kind::Anchor => Some(Bech32::HRP_ANCHOR@),
            Kind::Disclosure => Some(Bech32::HRP_DISCLOSURE@),
            Kind::Other => None,
        }
    }

    /// The framing that values of the kind are written in. It is fixed for
    /// each kind: the identifiers are as short as they can be and go bare,
    /// the anchor goes plain, and the other documents go compressed.
    /// [`Kind::Other`] has none: its payload is kept as it came.
    pub open spec fn framing(self) -> Option<Framing> {
        match self {
            Kind::BlindedUtxo => Some(Framing::Bare),
            Kind::SchemaId => Some(Framing::Bare),
            Kind::ContractId => Some(Framing::Bare),
            Kind::Anchor => Some(Framing::Plain),
            Kind::Schema => Some(Framing::Deflate),
            Kind::Genesis => Some(Framing::Deflate),
            Kind::Transition => Some(Framing::Deflate),
            Kind::Extension => Some(Framing::Deflate),
            Kind::Disclosure => Some(Framing::Deflate),
            Kind::Other => None,
        }
    }

    /// Whether values of the kind are written behind a version byte.
    pub open spec fn is_framed(self) -> bool {
        self.framing() == Some(Framing::Plain) || self.framing() == Some(Framing::Deflate)
    }

    /// Whether values of the kind are written as a DEFLATE stream.
    pub open spec fn is_compressed(self) -> bool {
        self.framing() == Some(Framing::Deflate)
    }

    /// Looks `tag` up in the table.
    pub fn classify(tag: &str) -> (kind: Kind)
        ensures
            kind == classify_spec(tag@),
    {
        if same_text(tag, Bech32::HRP_OUTPOINT) {
            Kind::BlindedUtxo
        } else if same_text(tag, Bech32::HRP_SCHEMA_ID) {
            Kind::SchemaId
        } else if same_text(tag, Bech32::HRP_CONTRACT_ID) {
            Kind::ContractId
        } else if same_text(tag, Bech32::HRP_SCHEMA) {
            Kind::Schema
        } else if same_text(tag, Bech32::HRP_GENESIS) {
            Kind::Genesis
        } else if same_text(tag, Bech32::HRP_EXTENSION) {
            Kind::Extension
        } else if same_text(tag, Bech32::HRP_TRANSITION) {
            Kind::Transition
        } else if same_text(tag, Bech32::HRP_ANCHOR) {
            Kind::Anchor
        } else if same_text(tag, Bech32::HRP_DISCLOSURE) {
            Kind::Disclosure
        } else {
            Kind::Other
        }
    }

    /// The human-readable part of the kind, if it has one of its own.
    pub fn tag(&self) -> (tag: Option<&'static str>)
        ensures
            match tag {
                Some(text) => self.tag_spec() == Some(text@),
                None => self.tag_spec() is None,
            },
    {
        match self {
            Kind::BlindedUtxo => Some(Bech32::HRP_OUTPOINT),
            Kind::SchemaId => Some(Bech32::HRP_SCHEMA_ID),
            Kind::Schema => Some(Bech32::HRP_SCHEMA),
            Kind::ContractId => Some(Bech32::HRP_CONTRACT_ID),
            Kind::Genesis => Some(Bech32::HRP_GENESIS),
            Kind::Transition => Some(Bech32::HRP_TRANSITION),
            Kind::Extension => Some(Bech32::HRP_EXTENSION),
            Kind::Anchor => Some(Bech32::HRP_ANCHOR),
            Kind::Disclosure => Some(Bech32::HRP_DISCLOSURE),
            Kind::Other => None,
        }
    }
}

/// The table gives every kind a part of its own: looking up the part of a
/// kind gives that kind back, so no two kinds share a part.
pub proof fn lemma_classify_tag(kind: Kind)
    requires
        kind != Kind::Other,
    ensures
        kind.tag_spec() is Some,
        classify_spec(kind.tag_spec()->Some_0) == kind,
{
    reveal_strlit("utxob");
    reveal_strlit("sch");
    reveal_strlit("rgb");
    reveal_strlit("schema");
    reveal_strlit("genesis");
    reveal_strlit("statex");
    reveal_strlit("transition");
    reveal_strlit("anchor");
    reveal_strlit("disclosure");
    assert(Bech32::HRP_OUTPOINT@.len() == 5);
    assert(Bech32::HRP_SCHEMA_ID@.len() == 3);
    assert(Bech32::HRP_CONTRACT_ID@.len() == 3);
    assert(Bech32::HRP_SCHEMA@.len() == 6);
    assert(Bech32::HRP_GENESIS@.len() == 7);
    assert(Bech32::HRP_EXTENSION@.len() == 6);
    assert(Bech32::HRP_TRANSITION@.len() == 10);
    assert(Bech32::HRP_ANCHOR@.len() == 6);
    assert(Bech32::HRP_DISCLOSURE@.len() == 10);
    assert(Bech32::HRP_SCHEMA_ID@[0] != Bech32::HRP_CONTRACT_ID@[0]);
    assert(Bech32::HRP_SCHEMA@[1] != Bech32::HRP_EXTENSION@[1]);
    assert(Bech32::HRP_SCHEMA@[0] != Bech32::HRP_ANCHOR@[0]);
    assert(Bech32::HRP_EXTENSION@[0] != Bech32::HRP_ANCHOR@[0]);
    assert(Bech32::HRP_TRANSITION@[0] != Bech32::HRP_DISCLOSURE@[0]);
}

} // verus!
