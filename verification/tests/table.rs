use rgb_bech32::{Bech32, Kind};

#[test]
fn every_part_of_the_table_is_classified_as_its_kind() {
    assert_eq!(Kind::classify("utxob"), Kind::BlindedUtxo);
    assert_eq!(Kind::classify("sch"), Kind::SchemaId);
    assert_eq!(Kind::classify("schema"), Kind::Schema);
    assert_eq!(Kind::classify("rgb"), Kind::ContractId);
    assert_eq!(Kind::classify("genesis"), Kind::Genesis);
    assert_eq!(Kind::classify("transition"), Kind::Transition);
    assert_eq!(Kind::classify("statex"), Kind::Extension);
    assert_eq!(Kind::classify("anchor"), Kind::Anchor);
    assert_eq!(Kind::classify("disclosure"), Kind::Disclosure);
}

#[test]
fn every_other_part_is_classified_as_other() {
    assert_eq!(Kind::classify(""), Kind::Other);
    assert_eq!(Kind::classify("RGB"), Kind::Other);
    assert_eq!(Kind::classify("rgb "), Kind::Other);
    assert_eq!(Kind::classify("schem"), Kind::Other);
    assert_eq!(Kind::classify("schemas"), Kind::Other);
    assert_eq!(Kind::classify("extension"), Kind::Other);
    assert_eq!(Kind::classify("bc"), Kind::Other);
}

#[test]
fn every_kind_of_the_table_has_its_part() {
    assert_eq!(Kind::BlindedUtxo.tag(), Some("utxob"));
    assert_eq!(Kind::SchemaId.tag(), Some("sch"));
    assert_eq!(Kind::Schema.tag(), Some("schema"));
    assert_eq!(Kind::ContractId.tag(), Some("rgb"));
    assert_eq!(Kind::Genesis.tag(), Some("genesis"));
    assert_eq!(Kind::Transition.tag(), Some("transition"));
    assert_eq!(Kind::Extension.tag(), Some("statex"));
    assert_eq!(Kind::Anchor.tag(), Some("anchor"));
    assert_eq!(Kind::Disclosure.tag(), Some("disclosure"));
    assert_eq!(Kind::Other.tag(), None);
}

#[test]
fn part_and_kind_agree_both_ways() {
    let kinds = [
        Kind::BlindedUtxo,
        Kind::SchemaId,
        Kind::Schema,
        Kind::ContractId,
        Kind::Genesis,
        Kind::Transition,
        Kind::Extension,
        Kind::Anchor,
        Kind::Disclosure,
    ];
    for kind in kinds {
        assert_eq!(Kind::classify(kind.tag().unwrap()), kind);
    }
}

#[test]
fn the_parts_are_the_published_constants() {
    assert_eq!(Bech32::HRP_OUTPOINT, "utxob");
    assert_eq!(Bech32::HRP_SCHEMA_ID, "sch");
    assert_eq!(Bech32::HRP_CONTRACT_ID, "rgb");
    assert_eq!(Bech32::HRP_SCHEMA, "schema");
    assert_eq!(Bech32::HRP_GENESIS, "genesis");
    assert_eq!(Bech32::HRP_TRANSITION, "transition");
    assert_eq!(Bech32::HRP_EXTENSION, "statex");
    assert_eq!(Bech32::HRP_ANCHOR, "anchor");
    assert_eq!(Bech32::HRP_DISCLOSURE, "disclosure");
}
