use std::str::FromStr;
use rgb_bech32::{Bech32, EncodingError, Error};

const CHARSET: &str = "qpzry9x8gf2tvdw0s3jn54khce6mua7l";

#[test]
fn any_change_of_one_checksum_character_is_refused() {
    let text = "transition1q935qqsqpr0f9t";
    let first = text.len() - 6;
    for position in first..text.len() {
        for replacement in CHARSET.chars() {
            let mut changed: Vec<char> = text.chars().collect();
            if changed[position] == replacement {
                continue;
            }
            changed[position] = replacement;
            let changed: String = changed.into_iter().collect();
            assert_eq!(
                Bech32::from_str(&changed),
                Err(Error::Bech32Error(bech32::Error::InvalidChecksum))
            );
        }
    }
}

#[test]
fn a_checksum_character_outside_the_alphabet_is_refused() {
    assert_eq!(
        Bech32::from_str("transition1q935qqsqpr0f9b"),
        Err(Error::Bech32Error(bech32::Error::InvalidChar('b')))
    );
    assert_eq!(
        Bech32::from_str("transition1q935qqsqpr0f9T"),
        Err(Error::Bech32Error(bech32::Error::MixedCase))
    );
}

#[test]
fn malformed_text_is_refused_by_the_text_layer() {
    assert_eq!(Bech32::from_str(""), Err(Error::Bech32Error(bech32::Error::InvalidLength)));
    assert_eq!(
        Bech32::from_str("transitionq935qqsqpr0f9t"),
        Err(Error::Bech32Error(bech32::Error::MissingSeparator))
    );
    assert_eq!(
        Bech32::from_str("1q935qqsqpr0f9t"),
        Err(Error::Bech32Error(bech32::Error::InvalidLength))
    );
    assert_eq!(
        Bech32::from_str("Transition1q935qqsqpr0f9t"),
        Err(Error::Bech32Error(bech32::Error::MixedCase))
    );
}

#[test]
fn padding_that_is_not_zero_is_refused() {
    let groups = vec![bech32::u5::try_from_u8(31).unwrap(); 2];
    let text = bech32::encode("xyz", groups).unwrap();
    assert_eq!(Bech32::from_str(&text), Err(Error::Bech32Error(bech32::Error::InvalidPadding)));
}

#[test]
fn unknown_version_in_text_is_refused() {
    assert_eq!(Bech32::from_str("schema1qgqsyqc4hdres"), Err(Error::UnknownRawDataEncoding(2)));
}

#[test]
fn document_without_version_byte_is_refused() {
    assert_eq!(
        Bech32::from_str("genesis18wdxz5"),
        Err(Error::WrongData(EncodingError::UnexpectedEof))
    );
}

#[test]
fn identifier_of_wrong_length_is_refused() {
    assert_eq!(
        Bech32::from_str("rgb1zyg3zyg3zyg3zyg3zyg3zyg3zyg3zyg3zyg3zyg3zyg3zyg3zyq6a093"),
        Err(Error::WrongData(EncodingError::UnexpectedEof))
    );
    assert_eq!(
        Bech32::from_str("rgb1zyg3zyg3zyg3zyg3zyg3zyg3zyg3zyg3zyg3zyg3zyg3zyg3zyg3z8frs2x"),
        Err(Error::WrongData(EncodingError::DataNotEntirelyConsumed))
    );
}

#[test]
fn corrupt_stream_in_text_is_refused() {
    let r = Bech32::from_str("disclosure1q8llllcavnkvt");
    assert!(matches!(r, Err(Error::InflateError(_))));
}

#[test]
fn errors_can_be_copied_and_compared() {
    let e = Error::InflateError("broken".to_string());
    assert_eq!(e.clone(), e);
    assert_ne!(e, Error::DeflateEncoding);
    assert_eq!(Error::UnknownRawDataEncoding(3).clone(), Error::UnknownRawDataEncoding(3));
    assert_eq!(
        Error::Bech32Error(bech32::Error::InvalidChecksum).clone(),
        Error::Bech32Error(bech32::Error::InvalidChecksum)
    );
    assert_eq!(Error::WrongType.clone(), Error::WrongType);
    assert_eq!(
        Error::WrongData(EncodingError::UnexpectedEof).clone(),
        Error::WrongData(EncodingError::UnexpectedEof)
    );
    assert_eq!(Error::DeflateEncoding.clone(), Error::DeflateEncoding);
}

#[test]
fn errors_of_the_layers_below_become_errors_of_the_text_form() {
    assert_eq!(
        Error::from(bech32::Error::MissingSeparator),
        Error::Bech32Error(bech32::Error::MissingSeparator)
    );
    assert_eq!(
        Error::from(EncodingError::DataNotEntirelyConsumed),
        Error::WrongData(EncodingError::DataNotEntirelyConsumed)
    );
    let converted: Error = EncodingError::UnexpectedEof.into();
    assert_eq!(converted, Error::WrongData(EncodingError::UnexpectedEof));
}
