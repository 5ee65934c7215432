use std::str::FromStr;
use rgb_bech32::{
    Anchor, Bech32, Confidential, ContractId, Disclosure, Error, Extension, FromBech32, Genesis,
    Kind, Schema, SchemaId, Transition,
};
use std::convert::TryFrom;

#[test]
fn narrowing_to_the_own_type_gives_the_value() {
    assert_eq!(
        Confidential::from_bech32(Bech32::BlindedUtxo(Confidential([1; 32]))),
        Ok(Confidential([1; 32]))
    );
    assert_eq!(SchemaId::from_bech32(Bech32::SchemaId(SchemaId([2; 32]))), Ok(SchemaId([2; 32])));
    assert_eq!(Schema::from_bech32(Bech32::Schema(Schema(vec![3]))), Ok(Schema(vec![3])));
    assert_eq!(
        ContractId::from_bech32(Bech32::ContractId(ContractId([4; 32]))),
        Ok(ContractId([4; 32]))
    );
    assert_eq!(Genesis::from_bech32(Bech32::Genesis(Genesis(vec![5]))), Ok(Genesis(vec![5])));
    assert_eq!(
        Transition::from_bech32(Bech32::Transition(Transition(vec![6]))),
        Ok(Transition(vec![6]))
    );
    assert_eq!(
        Extension::from_bech32(Bech32::Extension(Extension(vec![7]))),
        Ok(Extension(vec![7]))
    );
    assert_eq!(Anchor::from_bech32(Bech32::Anchor(Anchor(vec![8]))), Ok(Anchor(vec![8])));
    assert_eq!(
        Disclosure::from_bech32(Bech32::Disclosure(Disclosure(vec![9]))),
        Ok(Disclosure(vec![9]))
    );
}

#[test]
fn narrowing_to_another_type_is_refused() {
    let transition = Bech32::Transition(Transition(vec![6]));
    assert_eq!(Confidential::from_bech32(transition.clone()), Err(Error::WrongType));
    assert_eq!(SchemaId::from_bech32(transition.clone()), Err(Error::WrongType));
    assert_eq!(Schema::from_bech32(transition.clone()), Err(Error::WrongType));
    assert_eq!(ContractId::from_bech32(transition.clone()), Err(Error::WrongType));
    assert_eq!(Genesis::from_bech32(transition.clone()), Err(Error::WrongType));
    assert_eq!(Extension::from_bech32(transition.clone()), Err(Error::WrongType));
    assert_eq!(Anchor::from_bech32(transition.clone()), Err(Error::WrongType));
    assert_eq!(Disclosure::from_bech32(transition), Err(Error::WrongType));
    let id = Bech32::ContractId(ContractId([4; 32]));
    assert_eq!(SchemaId::from_bech32(id.clone()), Err(Error::WrongType));
    assert_eq!(Confidential::from_bech32(id.clone()), Err(Error::WrongType));
    assert_eq!(Transition::from_bech32(id), Err(Error::WrongType));
}

#[test]
fn narrowing_an_unknown_part_is_refused() {
    let other = Bech32::Other("rgb".to_string(), vec![4; 32]);
    assert_eq!(ContractId::from_bech32(other.clone()), Err(Error::WrongType));
    assert_eq!(Schema::from_bech32(other), Err(Error::WrongType));
}

#[test]
fn text_of_one_kind_is_not_read_as_another() {
    let text = "transition1q935qqsqpr0f9t";
    assert_eq!(Schema::from_bech32_str(text), Err(Error::WrongType));
    assert_eq!(Genesis::from_bech32_str(text), Err(Error::WrongType));
    assert_eq!(Extension::from_bech32_str(text), Err(Error::WrongType));
    assert_eq!(Anchor::from_bech32_str(text), Err(Error::WrongType));
    assert_eq!(Disclosure::from_bech32_str(text), Err(Error::WrongType));
    assert_eq!(ContractId::from_bech32_str(text), Err(Error::WrongType));
    assert_eq!(SchemaId::from_bech32_str(text), Err(Error::WrongType));
    assert_eq!(Confidential::from_bech32_str(text), Err(Error::WrongType));
    assert_eq!(Transition::from_bech32_str(text), Ok(Transition::default()));
    let same_bytes_as_genesis = "genesis1q935qqsqqgr9g8";
    assert_eq!(Transition::from_bech32_str(same_bytes_as_genesis), Err(Error::WrongType));
    assert_eq!(Genesis::from_bech32_str(same_bytes_as_genesis), Ok(Genesis(vec![0; 12])));
}

#[test]
fn text_of_an_unknown_part_is_read_as_no_type() {
    assert_eq!(Transition::from_bech32_str("xyz1m6kmamcdu2jkg"), Err(Error::WrongType));
}

#[test]
fn a_text_that_does_not_parse_keeps_its_error() {
    assert_eq!(
        Transition::from_bech32_str("transition1q935qqsqpr0f9q"),
        Err(Error::Bech32Error(bech32::Error::InvalidChecksum))
    );
    assert_eq!(
        ContractId::from_bech32_str("schema1qgqsyqc4hdres"),
        Err(Error::UnknownRawDataEncoding(2))
    );
}

#[test]
fn try_from_narrows_and_from_wraps() {
    let wrapped = Bech32::from(Transition(vec![1]));
    assert_eq!(wrapped, Bech32::Transition(Transition(vec![1])));
    assert_eq!(Transition::try_from(wrapped.clone()), Ok(Transition(vec![1])));
    assert_eq!(Schema::try_from(wrapped), Err(Error::WrongType));
    let id: Bech32 = SchemaId([9; 32]).into();
    assert_eq!(id, Bech32::SchemaId(SchemaId([9; 32])));
    assert_eq!(Bech32::from(Confidential([1; 32])).kind(), Kind::BlindedUtxo);
    assert_eq!(Bech32::from(ContractId([1; 32])).kind(), Kind::ContractId);
    assert_eq!(Bech32::from(Schema(vec![])).kind(), Kind::Schema);
    assert_eq!(Bech32::from(Genesis(vec![])).kind(), Kind::Genesis);
    assert_eq!(Bech32::from(Extension(vec![])).kind(), Kind::Extension);
    assert_eq!(Bech32::from(Anchor(vec![])).kind(), Kind::Anchor);
    assert_eq!(Bech32::from(Disclosure(vec![])).kind(), Kind::Disclosure);
    assert_eq!(Bech32::Other("a".to_string(), vec![]).kind(), Kind::Other);
}

#[test]
fn documents_parse_from_their_own_text_only() {
    assert_eq!("transition1q935qqsqpr0f9t".parse::<Transition>(), Ok(Transition::default()));
    assert_eq!(Transition::from_str("genesis1q935qqsqqgr9g8"), Err(Error::WrongType));
    assert_eq!(Genesis::from_str("genesis1q935qqsqqgr9g8"), Ok(Genesis(vec![0; 12])));
    assert_eq!(Anchor::from_str("anchor1qqqsyqcu7dy7m"), Ok(Anchor(vec![1, 2, 3])));
    assert_eq!(Schema::from_str("schema1qqqsyqc7vymjl"), Ok(Schema(vec![1, 2, 3])));
    assert_eq!(Schema::from_str("anchor1qqqsyqcu7dy7m"), Err(Error::WrongType));
    assert_eq!(Extension::from_str("statex1luqsxk3vtt"), Err(Error::UnknownRawDataEncoding(255)));
    assert_eq!(
        Disclosure::from_str("disclosure1q8llllcavnkvq"),
        Err(Error::Bech32Error(bech32::Error::InvalidChecksum))
    );
    assert_eq!("xyz16l2xf7".parse::<Bech32>(), Ok(Bech32::Other("xyz".to_string(), Vec::new())));
}
