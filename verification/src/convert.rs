//! The conversions between the typed values and their text form: wrapping a
//! value into a [`Bech32`], narrowing a [`Bech32`] to the type asked for, and
//! both together with writing and reading the text.

use crate::domain::{
    Anchor, Confidential, ContractId, Disclosure, Extension, Genesis, Schema, SchemaId, Transition,
};
use crate::error::{agrees, Error, ErrorView};
use crate::outside::{deflated, has_bech32_shape, hrp_acceptable};
use crate::payload::{Bech32, Bech32View};
use crate::tags::Kind;
use crate::text::{parse_spec, render_spec, text_groups};
use core::str::FromStr;
use vstd::prelude::*;
use vstd::std_specs::convert::{FromSpecImpl, TryFromSpecImpl};

verus! {

/// What asking `value` for a value of `kind` gives: what it holds where it is
/// of that kind, and [`Error::WrongType`] where it is of any other.
pub open spec fn narrowed(value: Bech32View, kind: Kind) -> Result<Seq<u8>, ErrorView> {
    if kind != Kind::Other && value.kind() == kind {
        Ok(value.content())
    } else {
        Err(ErrorView::WrongType)
    }
}

/// What reading `text` as a value of `kind` gives.
pub open spec fn narrowed_text(text: Seq<char>, kind: Kind) -> Result<Seq<u8>, ErrorView> {
    match parse_spec(text) {
        Ok(value) => narrowed(value, kind),
        Err(e) => Err(e),
    }
}

/// Types whose values can be written as a Bech32 string.
pub trait ToBech32 {
    /// The [`Bech32`] variant that stands for the value.
    spec fn bech32_spec(&self) -> Bech32View;

    /// Returns the [`Bech32`] variant for this type, holding a copy of the
    /// value.
    fn to_bech32(&self) -> (r: Bech32)
        ensures
            r@ == self.bech32_spec(),
    ;

    /// Writes the value as a Bech32 string: wraps it into its [`Bech32`]
    /// variant and writes that as text.
    fn to_bech32_string(&self) -> (r: Result<String, Error>)
        ensures
            agrees(r, render_spec(self.bech32_spec())),
            r is Ok <==> self.bech32_spec().payload() is Ok && hrp_acceptable(
                self.bech32_spec().hrp(),
            ),
            r matches Ok(text) ==> has_bech32_shape(
                text@,
                self.bech32_spec().hrp(),
                text_groups(self.bech32_spec().payload()->Ok_0.len()),
            ),
    ;
}

/// Types whose values can be read from a Bech32 string with the
/// human-readable part of their kind.
pub trait FromBech32: Sized + View<V = Seq<u8>> {
    /// The kind of [`Bech32`] that holds a value of this type.
    spec fn kind() -> Kind;

    /// Takes the value out of a [`Bech32`] of this type's kind; a [`Bech32`]
    /// of any other kind fails with [`Error::WrongType`].
    fn from_bech32(bech32: Bech32) -> (r: Result<Self, Error>)
        ensures
            agrees(r, narrowed(bech32@, Self::kind())),
    ;

    /// Reads `s` and takes the value out of what was read. A string that
    /// does not parse fails with the error of parsing, and one that holds a
    /// value of another kind with [`Error::WrongType`].
    fn from_bech32_str(s: &str) -> (r: Result<Self, Error>)
        ensures
            agrees(r, narrowed_text(s@, Self::kind())),
    ;
}

impl ToBech32 for Bech32 {
    open spec fn bech32_spec(&self) -> Bech32View {
        self@
    }

    fn to_bech32(&self) -> (r: Bech32) {
        self.clone()
    }

    fn to_bech32_string(&self) -> (r: Result<String, Error>) {
        self.render()
    }
}

impl From<Confidential> for Bech32 {
    fn from(obj: Confidential) -> (r: Bech32) {
        Bech32::BlindedUtxo(obj)
    }
}

impl FromSpecImpl<Confidential> for Bech32 {
    open spec fn obeys_from_spec() -> bool {
        true
    }

    open spec fn from_spec(obj: Confidential) -> Bech32 {
        Bech32::BlindedUtxo(obj)
    }
}

impl TryFrom<Bech32> for Confidential {
    type Error = Error;

    fn try_from(bech32: Bech32) -> (r: Result<Self, Error>) {
        match bech32 {
            Bech32::BlindedUtxo(obj) => Ok(obj),
            _ => Err(Error::WrongType),
        }
    }
}

impl TryFromSpecImpl<Bech32> for Confidential {
    open spec fn obeys_try_from_spec() -> bool {
        true
    }

    open spec fn try_from_spec(bech32: Bech32) -> Result<Self, Error> {
        match bech32 {
            Bech32::BlindedUtxo(obj) => Ok(obj),
            _ => Err(Error::WrongType),
        }
    }
}

impl ToBech32 for Confidential {
    open spec fn bech32_spec(&self) -> Bech32View {
        Bech32View::BlindedUtxo(self@)
    }

    fn to_bech32(&self) -> (r: Bech32) {
        Bech32::from(self.clone())
    }

    fn to_bech32_string(&self) -> (r: Result<String, Error>)
        ensures
            r is Ok,
    {
        self.to_bech32().render()
    }
}

impl FromBech32 for Confidential {
    open spec fn kind() -> Kind {
        Kind::BlindedUtxo
    }

    fn from_bech32(bech32: Bech32) -> (r: Result<Self, Error>) {
        Self::try_from(bech32)
    }

    fn from_bech32_str(s: &str) -> (r: Result<Self, Error>) {
        match Bech32::from_str(s) {
            Ok(bech32) => Self::from_bech32(bech32),
            Err(e) => Err(e),
        }
    }
}

impl From<SchemaId> for Bech32 {
    fn from(obj: SchemaId) -> (r: Bech32) {
        Bech32::SchemaId(obj)
    }
}

impl FromSpecImpl<SchemaId> for Bech32 {
    open spec fn obeys_from_spec() -> bool {
        true
    }

    open spec fn from_spec(obj: SchemaId) -> Bech32 {
        Bech32::SchemaId(obj)
    }
}

impl TryFrom<Bech32> for SchemaId {
    type Error = Error;

    fn try_from(bech32: Bech32) -> (r: Result<Self, Error>) {
        match bech32 {
            Bech32::SchemaId(obj) => Ok(obj),
            _ => Err(Error::WrongType),
        }
    }
}

impl TryFromSpecImpl<Bech32> for SchemaId {
    open spec fn obeys_try_from_spec() -> bool {
        true
    }

    open spec fn try_from_spec(bech32: Bech32) -> Result<Self, Error> {
        match bech32 {
            Bech32::SchemaId(obj) => Ok(obj),
            _ => Err(Error::WrongType),
        }
    }
}

impl ToBech32 for SchemaId {
    open spec fn bech32_spec(&self) -> Bech32View {
        Bech32View::SchemaId(self@)
    }

    fn to_bech32(&self) -> (r: Bech32) {
        Bech32::from(self.clone())
    }

    fn to_bech32_string(&self) -> (r: Result<String, Error>)
        ensures
            r is Ok,
    {
        self.to_bech32().render()
    }
}

impl FromBech32 for SchemaId {
    open spec fn kind() -> Kind {
        Kind::SchemaId
    }

    fn from_bech32(bech32: Bech32) -> (r: Result<Self, Error>) {
        Self::try_from(bech32)
    }

    fn from_bech32_str(s: &str) -> (r: Result<Self, Error>) {
        match Bech32::from_str(s) {
            Ok(bech32) => Self::from_bech32(bech32),
            Err(e) => Err(e),
        }
    }
}

impl From<Schema> for Bech32 {
    fn from(obj: Schema) -> (r: Bech32) {
        Bech32::Schema(obj)
    }
}

impl FromSpecImpl<Schema> for Bech32 {
    open spec fn obeys_from_spec() -> bool {
        true
    }

    open spec fn from_spec(obj: Schema) -> Bech32 {
        Bech32::Schema(obj)
    }
}

impl TryFrom<Bech32> for Schema {
    type Error = Error;

    fn try_from(bech32: Bech32) -> (r: Result<Self, Error>) {
        match bech32 {
            Bech32::Schema(obj) => Ok(obj),
            _ => Err(Error::WrongType),
        }
    }
}

impl TryFromSpecImpl<Bech32> for Schema {
    open spec fn obeys_try_from_spec() -> bool {
        true
    }

    open spec fn try_from_spec(bech32: Bech32) -> Result<Self, Error> {
        match bech32 {
            Bech32::Schema(obj) => Ok(obj),
            _ => Err(Error::WrongType),
        }
    }
}

impl ToBech32 for Schema {
    open spec fn bech32_spec(&self) -> Bech32View {
        Bech32View::Schema(self@)
    }

    fn to_bech32(&self) -> (r: Bech32) {
        Bech32::from(self.clone())
    }

    fn to_bech32_string(&self) -> (r: Result<String, Error>)
        ensures
            r is Ok <==> deflated(self@) is Some,
    {
        self.to_bech32().render()
    }
}

impl FromBech32 for Schema {
    open spec fn kind() -> Kind {
        Kind::Schema
    }

    fn from_bech32(bech32: Bech32) -> (r: Result<Self, Error>) {
        Self::try_from(bech32)
    }

    fn from_bech32_str(s: &str) -> (r: Result<Self, Error>) {
        match Bech32::from_str(s) {
            Ok(bech32) => Self::from_bech32(bech32),
            Err(e) => Err(e),
        }
    }
}

impl From<ContractId> for Bech32 {
    fn from(obj: ContractId) -> (r: Bech32) {
        Bech32::ContractId(obj)
    }
}

impl FromSpecImpl<ContractId> for Bech32 {
    open spec fn obeys_from_spec() -> bool {
        true
    }

    open spec fn from_spec(obj: ContractId) -> Bech32 {
        Bech32::ContractId(obj)
    }
}

impl TryFrom<Bech32> for ContractId {
    type Error = Error;

    fn try_from(bech32: Bech32) -> (r: Result<Self, Error>) {
        match bech32 {
            Bech32::ContractId(obj) => Ok(obj),
            _ => Err(Error::WrongType),
        }
    }
}

impl TryFromSpecImpl<Bech32> for ContractId {
    open spec fn obeys_try_from_spec() -> bool {
        true
    }

    open spec fn try_from_spec(bech32: Bech32) -> Result<Self, Error> {
        match bech32 {
            Bech32::ContractId(obj) => Ok(obj),
            _ => Err(Error::WrongType),
        }
    }
}

impl ToBech32 for ContractId {
    open spec fn bech32_spec(&self) -> Bech32View {
        Bech32View::ContractId(self@)
    }

    fn to_bech32(&self) -> (r: Bech32) {
        Bech32::from(self.clone())
    }

    fn to_bech32_string(&self) -> (r: Result<String, Error>)
        ensures
            r is Ok,
    {
        self.to_bech32().render()
    }
}

impl FromBech32 for ContractId {
    open spec fn kind() -> Kind {
        Kind::ContractId
    }

    fn from_bech32(bech32: Bech32) -> (r: Result<Self, Error>) {
        Self::try_from(bech32)
    }

    fn from_bech32_str(s: &str) -> (r: Result<Self, Error>) {
        match Bech32::from_str(s) {
            Ok(bech32) => Self::from_bech32(bech32),
            Err(e) => Err(e),
        }
    }
}

impl From<Genesis> for Bech32 {
    fn from(obj: Genesis) -> (r: Bech32) {
        Bech32::Genesis(obj)
    }
}

impl FromSpecImpl<Genesis> for Bech32 {
    open spec fn obeys_from_spec() -> bool {
        true
    }

    open spec fn from_spec(obj: Genesis) -> Bech32 {
        Bech32::Genesis(obj)
    }
}

impl TryFrom<Bech32> for Genesis {
    type Error = Error;

    fn try_from(bech32: Bech32) -> (r: Result<Self, Error>) {
        match bech32 {
            Bech32::Genesis(obj) => Ok(obj),
            _ => Err(Error::WrongType),
        }
    }
}

impl TryFromSpecImpl<Bech32> for Genesis {
    open spec fn obeys_try_from_spec() -> bool {
        true
    }

    open spec fn try_from_spec(bech32: Bech32) -> Result<Self, Error> {
        match bech32 {
            Bech32::Genesis(obj) => Ok(obj),
            _ => Err(Error::WrongType),
        }
    }
}

impl ToBech32 for Genesis {
    open spec fn bech32_spec(&self) -> Bech32View {
        Bech32View::Genesis(self@)
    }

    fn to_bech32(&self) -> (r: Bech32) {
        Bech32::from(self.clone())
    }

    fn to_bech32_string(&self) -> (r: Result<String, Error>)
        ensures
            r is Ok <==> deflated(self@) is Some,
    {
        self.to_bech32().render()
    }
}

impl FromBech32 for Genesis {
    open spec fn kind() -> Kind {
        Kind::Genesis
    }

    fn from_bech32(bech32: Bech32) -> (r: Result<Self, Error>) {
        Self::try_from(bech32)
    }

    fn from_bech32_str(s: &str) -> (r: Result<Self, Error>) {
        match Bech32::from_str(s) {
            Ok(bech32) => Self::from_bech32(bech32),
            Err(e) => Err(e),
        }
    }
}

impl From<Transition> for Bech32 {
    fn from(obj: Transition) -> (r: Bech32) {
        Bech32::Transition(obj)
    }
}

impl FromSpecImpl<Transition> for Bech32 {
    open spec fn obeys_from_spec() -> bool {
        true
    }

    open spec fn from_spec(obj: Transition) -> Bech32 {
        Bech32::Transition(obj)
    }
}

impl TryFrom<Bech32> for Transition {
    type Error = Error;

    fn try_from(bech32: Bech32) -> (r: Result<Self, Error>) {
        match bech32 {
            Bech32::Transition(obj) => Ok(obj),
            _ => Err(Error::WrongType),
        }
    }
}

impl TryFromSpecImpl<Bech32> for Transition {
    open spec fn obeys_try_from_spec() -> bool {
        true
    }

    open spec fn try_from_spec(bech32: Bech32) -> Result<Self, Error> {
        match bech32 {
            Bech32::Transition(obj) => Ok(obj),
            _ => Err(Error::WrongType),
        }
    }
}

impl ToBech32 for Transition {
    open spec fn bech32_spec(&self) -> Bech32View {
        Bech32View::Transition(self@)
    }

    fn to_bech32(&self) -> (r: Bech32) {
        Bech32::from(self.clone())
    }

    fn to_bech32_string(&self) -> (r: Result<String, Error>)
        ensures
            r is Ok <==> deflated(self@) is Some,
    {
        self.to_bech32().render()
    }
}

impl FromBech32 for Transition {
    open spec fn kind() -> Kind {
        Kind::Transition
    }

    fn from_bech32(bech32: Bech32) -> (r: Result<Self, Error>) {
        Self::try_from(bech32)
    }

    fn from_bech32_str(s: &str) -> (r: Result<Self, Error>) {
        match Bech32::from_str(s) {
            Ok(bech32) => Self::from_bech32(bech32),
            Err(e) => Err(e),
        }
    }
}

impl From<Extension> for Bech32 {
    fn from(obj: Extension) -> (r: Bech32) {
        Bech32::Extension(obj)
    }
}

impl FromSpecImpl<Extension> for Bech32 {
    open spec fn obeys_from_spec() -> bool {
        true
    }

    open spec fn from_spec(obj: Extension) -> Bech32 {
        Bech32::Extension(obj)
    }
}

impl TryFrom<Bech32> for Extension {
    type Error = Error;

    fn try_from(bech32: Bech32) -> (r: Result<Self, Error>) {
        match bech32 {
            Bech32::Extension(obj) => Ok(obj),
            _ => Err(Error::WrongType),
        }
    }
}

impl TryFromSpecImpl<Bech32> for Extension {
    open spec fn obeys_try_from_spec() -> bool {
        true
    }

    open spec fn try_from_spec(bech32: Bech32) -> Result<Self, Error> {
        match bech32 {
            Bech32::Extension(obj) => Ok(obj),
            _ => Err(Error::WrongType),
        }
    }
}

impl ToBech32 for Extension {
    open spec fn bech32_spec(&self) -> Bech32View {
        Bech32View::Extension(self@)
    }

    fn to_bech32(&self) -> (r: Bech32) {
        Bech32::from(self.clone())
    }

    fn to_bech32_string(&self) -> (r: Result<String, Error>)
        ensures
            r is Ok <==> deflated(self@) is Some,
    {
        self.to_bech32().render()
    }
}

impl FromBech32 for Extension {
    open spec fn kind() -> Kind {
        Kind::Extension
    }

    fn from_bech32(bech32: Bech32) -> (r: Result<Self, Error>) {
        Self::try_from(bech32)
    }

    fn from_bech32_str(s: &str) -> (r: Result<Self, Error>) {
        match Bech32::from_str(s) {
            Ok(bech32) => Self::from_bech32(bech32),
            Err(e) => Err(e),
        }
    }
}

impl From<Anchor> for Bech32 {
    fn from(obj: Anchor) -> (r: Bech32) {
        Bech32::Anchor(obj)
    }
}

impl FromSpecImpl<Anchor> for Bech32 {
    open spec fn obeys_from_spec() -> bool {
        true
    }

    open spec fn from_spec(obj: Anchor) -> Bech32 {
        Bech32::Anchor(obj)
    }
}

impl TryFrom<Bech32> for Anchor {
    type Error = Error;

    fn try_from(bech32: Bech32) -> (r: Result<Self, Error>) {
        match bech32 {
            Bech32::Anchor(obj) => Ok(obj),
            _ => Err(Error::WrongType),
        }
    }
}

impl TryFromSpecImpl<Bech32> for Anchor {
    open spec fn obeys_try_from_spec() -> bool {
        true
    }

    open spec fn try_from_spec(bech32: Bech32) -> Result<Self, Error> {
        match bech32 {
            Bech32::Anchor(obj) => Ok(obj),
            _ => Err(Error::WrongType),
        }
    }
}

impl ToBech32 for Anchor {
    open spec fn bech32_spec(&self) -> Bech32View {
        Bech32View::Anchor(self@)
    }

    fn to_bech32(&self) -> (r: Bech32) {
        Bech32::from(self.clone())
    }

    fn to_bech32_string(&self) -> (r: Result<String, Error>)
        ensures
            r is Ok,
    {
        self.to_bech32().render()
    }
}

impl FromBech32 for Anchor {
    open spec fn kind() -> Kind {
        Kind::Anchor
    }

    fn from_bech32(bech32: Bech32) -> (r: Result<Self, Error>) {
        Self::try_from(bech32)
    }

    fn from_bech32_str(s: &str) -> (r: Result<Self, Error>) {
        match Bech32::from_str(s) {
            Ok(bech32) => Self::from_bech32(bech32),
            Err(e) => Err(e),
        }
    }
}

impl From<Disclosure> for Bech32 {
    fn from(obj: Disclosure) -> (r: Bech32) {
        Bech32::Disclosure(obj)
    }
}

impl FromSpecImpl<Disclosure> for Bech32 {
    open spec fn obeys_from_spec() -> bool {
        true
    }

    open spec fn from_spec(obj: Disclosure) -> Bech32 {
        Bech32::Disclosure(obj)
    }
}

impl TryFrom<Bech32> for Disclosure {
    type Error = Error;

    fn try_from(bech32: Bech32) -> (r: Result<Self, Error>) {
        match bech32 {
            Bech32::Disclosure(obj) => Ok(obj),
            _ => Err(Error::WrongType),
        }
    }
}

impl TryFromSpecImpl<Bech32> for Disclosure {
    open spec fn obeys_try_from_spec() -> bool {
        true
    }

    open spec fn try_from_spec(bech32: Bech32) -> Result<Self, Error> {
        match bech32 {
            Bech32::Disclosure(obj) => Ok(obj),
            _ => Err(Error::WrongType),
        }
    }
}

impl ToBech32 for Disclosure {
    open spec fn bech32_spec(&self) -> Bech32View {
        Bech32View::Disclosure(self@)
    }

    fn to_bech32(&self) -> (r: Bech32) {
        Bech32::from(self.clone())
    }

    fn to_bech32_string(&self) -> (r: Result<String, Error>)
        ensures
            r is Ok <==> deflated(self@) is Some,
    {
        self.to_bech32().render()
    }
}

impl FromBech32 for Disclosure {
    open spec fn kind() -> Kind {
        Kind::Disclosure
    }

    fn from_bech32(bech32: Bech32) -> (r: Result<Self, Error>) {
        Self::try_from(bech32)
    }

    fn from_bech32_str(s: &str) -> (r: Result<Self, Error>) {
        match Bech32::from_str(s) {
            Ok(bech32) => Self::from_bech32(bech32),
            Err(e) => Err(e),
        }
    }
}

impl FromStr for Schema {
    type Err = Error;

    fn from_str(s: &str) -> (r: Result<Self, Error>)
        ensures
            agrees(r, narrowed_text(s@, Kind::Schema)),
    {
        match Bech32::from_str(s) {
            Ok(bech32) => Self::try_from(bech32),
            Err(e) => Err(e),
        }
    }
}

impl FromStr for Genesis {
    type Err = Error;

    fn from_str(s: &str) -> (r: Result<Self, Error>)
        ensures
            agrees(r, narrowed_text(s@, Kind::Genesis)),
    {
        match Bech32::from_str(s) {
            Ok(bech32) => Self::try_from(bech32),
            Err(e) => Err(e),
        }
    }
}

impl FromStr for Extension {
    type Err = Error;

    fn from_str(s: &str) -> (r: Result<Self, Error>)
        ensures
            agrees(r, narrowed_text(s@, Kind::Extension)),
    {
        match Bech32::from_str(s) {
            Ok(bech32) => Self::try_from(bech32),
            Err(e) => Err(e),
        }
    }
}

impl FromStr for Transition {
    type Err = Error;

    fn from_str(s: &str) -> (r: Result<Self, Error>)
        ensures
            agrees(r, narrowed_text(s@, Kind::Transition)),
    {
        match Bech32::from_str(s) {
            Ok(bech32) => Self::try_from(bech32),
            Err(e) => Err(e),
        }
    }
}

impl FromStr for Anchor {
    type Err = Error;

    fn from_str(s: &str) -> (r: Result<Self, Error>)
        ensures
            agrees(r, narrowed_text(s@, Kind::Anchor)),
    {
        match Bech32::from_str(s) {
            Ok(bech32) => Self::try_from(bech32),
            Err(e) => Err(e),
        }
    }
}

impl FromStr for Disclosure {
    type Err = Error;

    fn from_str(s: &str) -> (r: Result<Self, Error>)
        ensures
            agrees(r, narrowed_text(s@, Kind::Disclosure)),
    {
        match Bech32::from_str(s) {
            Ok(bech32) => Self::try_from(bech32),
            Err(e) => Err(e),
        }
    }
}

} // verus!
