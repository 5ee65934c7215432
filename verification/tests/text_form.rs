use std::str::FromStr;
use rgb_bech32::{
    Anchor, Bech32, Confidential, ContractId, Disclosure, Error, Extension, FromBech32, Genesis,
    Schema, SchemaId, ToBech32, Transition,
};

#[test]
fn test_bech32() {
    let obj = Transition::default();
    let bech32 = obj.to_bech32_string().unwrap();
    assert_eq!(bech32, "transition1q935qqsqpr0f9t");
    let decoded = Transition::from_bech32_str(&bech32).unwrap();
    assert_eq!(obj, decoded);
}

#[test]
fn default_transition_is_twelve_zero_bytes() {
    assert_eq!(Transition::default().0, vec![0u8; 12]);
}

#[test]
fn default_transition_literal_parses_to_its_variant() {
    let parsed = Bech32::from_str("transition1q935qqsqpr0f9t").unwrap();
    assert_eq!(parsed, Bech32::Transition(Transition::default()));
    assert_eq!(parsed.render().unwrap(), "transition1q935qqsqpr0f9t");
}

#[test]
fn contract_id_renders_bare() {
    let id = ContractId([0x11; 32]);
    let text = id.to_bech32_string().unwrap();
    assert_eq!(text, "rgb1zyg3zyg3zyg3zyg3zyg3zyg3zyg3zyg3zyg3zyg3zyg3zyg3zygsnqrs8g");
    assert_eq!(ContractId::from_bech32_str(&text), Ok(id));
}

#[test]
fn schema_id_renders_bare() {
    let mut bytes = [0u8; 32];
    for i in 0..32 {
        bytes[i] = i as u8;
    }
    let id = SchemaId(bytes);
    let text = id.to_bech32_string().unwrap();
    assert_eq!(text, "sch1qqqsyqcyq5rqwzqfpg9scrgwpugpzysnzs23v9ccrydpk8qarc0sa7w25m");
    assert_eq!(SchemaId::from_bech32_str(&text), Ok(id));
}

#[test]
fn blinded_utxo_renders_bare() {
    let seal = Confidential([0xff; 32]);
    let text = seal.to_bech32_string().unwrap();
    assert_eq!(text, "utxob1lllllllllllllllllllllllllllllllllllllllllllllllllllsx95vzw");
    assert_eq!(Confidential::from_bech32_str(&text), Ok(seal));
}

#[test]
fn anchor_renders_in_plain_framing() {
    let anchor = Anchor(vec![1, 2, 3]);
    let text = anchor.to_bech32_string().unwrap();
    assert_eq!(text, "anchor1qqqsyqcu7dy7m");
    assert_eq!(Anchor::from_bech32_str(&text), Ok(anchor));
}

#[test]
fn empty_anchor_is_the_version_byte_alone() {
    let anchor = Anchor(Vec::new());
    let text = anchor.to_bech32_string().unwrap();
    assert_eq!(text, "anchor1qqmvcsak");
    assert_eq!(Bech32::from_str(&text), Ok(Bech32::Anchor(anchor)));
}

#[test]
fn genesis_with_the_same_bytes_differs_only_in_the_part() {
    let genesis = Genesis(vec![0u8; 12]);
    assert_eq!(genesis.to_bech32_string().unwrap(), "genesis1q935qqsqqgr9g8");
}

#[test]
fn round_trip_of_every_typed_variant() {
    let body: Vec<u8> = (0u16..600).map(|i| (i % 251) as u8).collect();
    let values = vec![
        Bech32::BlindedUtxo(Confidential([3; 32])),
        Bech32::SchemaId(SchemaId([4; 32])),
        Bech32::Schema(Schema(body.clone())),
        Bech32::ContractId(ContractId([5; 32])),
        Bech32::Genesis(Genesis(body.clone())),
        Bech32::Transition(Transition(body.clone())),
        Bech32::Extension(Extension(body.clone())),
        Bech32::Anchor(Anchor(body.clone())),
        Bech32::Disclosure(Disclosure(body.clone())),
        Bech32::Schema(Schema(Vec::new())),
        Bech32::Disclosure(Disclosure(vec![9])),
    ];
    for value in values {
        let text = value.render().unwrap();
        assert!(text.is_ascii());
        assert!(!text.contains('\n'));
        assert_eq!(Bech32::from_str(&text), Ok(value));
    }
}

#[test]
fn unknown_part_keeps_its_bytes() {
    let data = vec![0xde, 0xad, 0xbe, 0xef];
    let decoded = Bech32::decode("xyz".to_string(), data.clone()).unwrap();
    assert_eq!(decoded, Bech32::Other("xyz".to_string(), data.clone()));
    let text = decoded.render().unwrap();
    assert_eq!(text, "xyz1m6kmamcdu2jkg");
    let parsed = Bech32::from_str(&text).unwrap();
    assert_eq!(parsed, Bech32::Other("xyz".to_string(), data));
    assert_eq!(parsed.render().unwrap(), text);
}

#[test]
fn unknown_part_with_no_bytes() {
    let parsed = Bech32::from_str("xyz16l2xf7").unwrap();
    assert_eq!(parsed, Bech32::Other("xyz".to_string(), Vec::new()));
    assert_eq!(parsed.render().unwrap(), "xyz16l2xf7");
}

#[test]
fn text_layer_example_of_three_bytes() {
    let value = Bech32::Other("bech32".to_string(), vec![0x00, 0x01, 0x02]);
    assert_eq!(value.render().unwrap(), "bech321qqqsyrhqy2a");
    assert_eq!(Bech32::from_str("bech321qqqsyrhqy2a"), Ok(value));
}

#[test]
fn upper_case_text_is_read_under_the_lower_case_part() {
    let text = "RGB1QURSWPC8QURSWPC8QURSWPC8QURSWPC8QURSWPC8QURSWPC8QURSEEPRFP";
    assert_eq!(Bech32::from_str(text), Ok(Bech32::ContractId(ContractId([7; 32]))));
}

#[test]
fn other_under_a_part_of_the_table_is_read_as_that_kind() {
    let value = Bech32::Other("rgb".to_string(), vec![0x11; 32]);
    let text = value.render().unwrap();
    assert_eq!(text, "rgb1zyg3zyg3zyg3zyg3zyg3zyg3zyg3zyg3zyg3zyg3zyg3zyg3zygsnqrs8g");
    assert_eq!(Bech32::from_str(&text), Ok(Bech32::ContractId(ContractId([0x11; 32]))));
}

#[test]
fn encode_gives_part_and_payload() {
    let anchor = Bech32::Anchor(Anchor(vec![7, 8]));
    assert_eq!(anchor.encode(), Ok(("anchor", vec![0u8, 7, 8])));
    let id = Bech32::SchemaId(SchemaId([1; 32]));
    assert_eq!(id.encode(), Ok(("sch", vec![1u8; 32])));
    let transition = Bech32::Transition(Transition::default());
    assert_eq!(transition.encode(), Ok(("transition", vec![1u8, 0x63, 0x40, 0x02, 0x00])));
    let other = Bech32::Other("abc".to_string(), vec![5]);
    assert_eq!(other.encode(), Ok(("abc", vec![5u8])));
}

#[test]
fn decode_reads_by_the_part() {
    assert_eq!(
        Bech32::decode("anchor".to_string(), vec![0, 7, 8]),
        Ok(Bech32::Anchor(Anchor(vec![7, 8])))
    );
    assert_eq!(
        Bech32::decode("transition".to_string(), vec![1, 0x63, 0x40, 0x02, 0x00]),
        Ok(Bech32::Transition(Transition::default()))
    );
    assert_eq!(
        Bech32::decode("schema".to_string(), vec![0, 1, 2, 3]),
        Ok(Bech32::Schema(Schema(vec![1, 2, 3])))
    );
    assert_eq!(
        Bech32::decode("utxob".to_string(), vec![9; 32]),
        Ok(Bech32::BlindedUtxo(Confidential([9; 32])))
    );
}

#[test]
fn unacceptable_part_is_not_written() {
    let empty = Bech32::Other(String::new(), vec![1]);
    assert_eq!(empty.render(), Err(Error::Bech32Error(bech32::Error::InvalidLength)));
    let mixed = Bech32::Other("Ab".to_string(), vec![1]);
    assert_eq!(mixed.render(), Err(Error::Bech32Error(bech32::Error::MixedCase)));
    let spaced = Bech32::Other("a b".to_string(), vec![1]);
    assert_eq!(spaced.render(), Err(Error::Bech32Error(bech32::Error::InvalidChar(' '))));
    let long = Bech32::Other("a".repeat(84), vec![1]);
    assert_eq!(long.render(), Err(Error::Bech32Error(bech32::Error::InvalidLength)));
    let longest = Bech32::Other("a".repeat(83), vec![1]);
    assert!(longest.render().is_ok());
}

#[test]
fn upper_case_part_is_written_in_lower_case() {
    let value = Bech32::Other("XYZ".to_string(), vec![0xde, 0xad, 0xbe, 0xef]);
    assert_eq!(value.render().unwrap(), "xyz1m6kmamcdu2jkg");
}

#[test]
fn to_bech32_wraps_and_bech32_renders_itself() {
    let transition = Transition(vec![1, 2, 3]);
    assert_eq!(transition.to_bech32(), Bech32::Transition(Transition(vec![1, 2, 3])));
    let wrapped = transition.to_bech32();
    assert_eq!(wrapped.to_bech32(), wrapped);
    assert_eq!(wrapped.to_bech32_string(), transition.to_bech32_string());
    assert_eq!(wrapped.to_bech32_string(), wrapped.render());
}

#[test]
fn text_is_part_separator_data_and_six_checksum_characters() {
    let alphabet = "qpzry9x8gf2tvdw0s3jn54khce6mua7l";
    let anchor = Anchor(vec![0xaa; 9]);
    let text = anchor.to_bech32_string().unwrap();
    assert!(text.starts_with("anchor1"));
    // ten payload bytes are sixteen groups of five bits
    assert_eq!(text.len(), "anchor".len() + 1 + 16 + 6);
    assert!(text["anchor1".len()..].chars().all(|c| alphabet.contains(c)));
    let id = ContractId([0; 32]).to_bech32_string().unwrap();
    assert_eq!(id.len(), "rgb".len() + 1 + 52 + 6);
    let none = Bech32::Other("n0".to_string(), Vec::new()).render().unwrap();
    assert_eq!(none.len(), "n0".len() + 1 + 6);
}
