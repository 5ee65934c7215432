//! The three codecs that this crate does not prove: Bech32 text from the
//! `bech32` crate, and DEFLATE from the `deflate` and `inflate` crates.
//!
//! Each of their functions is reached through one function of this module,
//! whose contract is taken on trust. The contracts give what the codecs
//! return a name, so that the verified code can say exactly how it uses
//! them. Beyond the names they state only which human-readable parts the
//! text layer takes and what shape its strings have. That reading undoes
//! writing is not assumed of any of them.

use bech32::Error as TextError;
use bech32::{FromBase32, ToBase32};
use deflate::write::DeflateEncoder;
use deflate::Compression;
use std::io::Write;
use vstd::prelude::*;

verus! {

/// A 5-bit group of Bech32 data, `bech32::u5`.
#[verifier::external_type_specification]
#[verifier::external_body]
pub struct ExGroup(bech32::u5);

/// The error of the Bech32 text layer, the `bech32` crate's `Error`.
#[verifier::external_type_specification]
#[verifier::external_body]
pub struct ExTextError(TextError);

/// The 5-bit groups that `bech32::ToBase32::to_base32` makes of `data`.
pub uninterp spec fn base32_of(data: Seq<u8>) -> Seq<bech32::u5>;

/// What `bech32::encode` returns for a human-readable part and 5-bit groups.
pub uninterp spec fn bech32_text(hrp: Seq<char>, groups: Seq<bech32::u5>) -> Result<
    Seq<char>,
    TextError,
>;

/// What `bech32::decode` returns for `text`: the human-readable part and the
/// 5-bit groups under the checksum, or the error.
pub uninterp spec fn bech32_parts(text: Seq<char>) -> Result<
    (Seq<char>, Seq<bech32::u5>),
    TextError,
>;

/// What `bech32::FromBase32::from_base32` returns for 5-bit groups: the bytes
/// they spell, or the error.
pub uninterp spec fn base256_of(groups: Seq<bech32::u5>) -> Result<Seq<u8>, TextError>;

/// The DEFLATE stream that `deflate` writes for `data` at `Compression::Best`,
/// or `None` where the encoder reports an error.
pub uninterp spec fn deflated(data: Seq<u8>) -> Option<Seq<u8>>;

/// What `inflate::inflate_bytes` returns for `data`: the decompressed bytes,
/// or its error message.
pub uninterp spec fn inflated(data: Seq<u8>) -> Result<Seq<u8>, Seq<char>>;

/// Whether `c` is an ASCII lowercase letter.
pub open spec fn is_lower(c: char) -> bool {
    'a' <= c <= 'z'
}

/// Whether `c` is an ASCII uppercase letter.
pub open spec fn is_upper(c: char) -> bool {
    'A' <= c <= 'Z'
}

/// The human-readable parts that `bech32::encode` takes: 1 to 83 characters,
/// each a printable ASCII character other than the space, with letters of one
/// case only.
pub open spec fn hrp_acceptable(hrp: Seq<char>) -> bool {
    &&& 1 <= hrp.len() <= 83
    &&& forall|i: int| 0 <= i < hrp.len() ==> '!' <= #[trigger] hrp[i] <= '~'
    &&& !({
        &&& exists|i: int| 0 <= i < hrp.len() && is_lower(#[trigger] hrp[i])
        &&& exists|j: int| 0 <= j < hrp.len() && is_upper(#[trigger] hrp[j])
    })
}

/// Whether `c` is one of the 32 characters that Bech32 writes data in: the
/// lowercase letters and the digits, without `1`, `b`, `i` and `o`.
pub open spec fn in_alphabet(c: char) -> bool {
    (is_lower(c) || '0' <= c <= '9') && c != '1' && c != 'b' && c != 'i' && c != 'o'
}

/// `c` with an ASCII uppercase letter turned into its lowercase letter.
pub open spec fn ascii_lowered(c: char) -> char {
    if is_upper(c) {
        ((c as u8) + 32) as char
    } else {
        c
    }
}

/// The shape of a Bech32 string for the part `hrp` and `groups` 5-bit groups
/// of data: the part in lowercase, the separator `1`, then one character of
/// the alphabet for each group and six more for the checksum.
pub open spec fn has_bech32_shape(text: Seq<char>, hrp: Seq<char>, groups: nat) -> bool {
    &&& text.len() == hrp.len() + 1 + groups + 6
    &&& forall|i: int| 0 <= i < hrp.len() ==> #[trigger] text[i] == ascii_lowered(hrp[i])
    &&& text[hrp.len() as int] == '1'
    &&& forall|i: int| hrp.len() < i < text.len() ==> in_alphabet(#[trigger] text[i])
}

/// Calls `bech32::ToBase32::to_base32` on a byte vector. Trusted: the result
/// is what [`base32_of`] names, and it has one group for every five bits of
/// `data`, the last of them filled up.
#[verifier::external_body]
pub(crate) fn to_base32(data: &Vec<u8>) -> (groups: Vec<bech32::u5>)
    ensures
        groups@ == base32_of(data@),
        groups@.len() == (8 * data@.len() + 4) / 5,
{
    data.to_base32()
}

/// Calls `bech32::encode`. Trusted: the result is what [`bech32_text`] names;
/// it is an error exactly when the human-readable part is not one that
/// [`hrp_acceptable`] describes (the crate's `check_hrp`); and a string that
/// it returns has the shape that [`has_bech32_shape`] describes (the crate's
/// `Bech32Writer`).
#[verifier::external_body]
pub(crate) fn bech32_encode(hrp: &str, groups: Vec<bech32::u5>) -> (r: Result<
    String,
    TextError,
>)
    ensures
        r is Ok <==> hrp_acceptable(hrp@),
        match r {
            Ok(text) => {
                &&& bech32_text(hrp@, groups@) == Ok::<Seq<char>, TextError>(text@)
                &&& has_bech32_shape(text@, hrp@, groups@.len())
            },
            Err(e) => bech32_text(hrp@, groups@) == Err::<Seq<char>, TextError>(e),
        },
{
    bech32::encode(hrp, groups)
}

/// Calls `bech32::decode`. Trusted: the result is what [`bech32_parts`]
/// names.
#[verifier::external_body]
pub(crate) fn bech32_decode(text: &str) -> (r: Result<(String, Vec<bech32::u5>), TextError>)
    ensures
        match r {
            Ok((hrp, groups)) => bech32_parts(text@) == Ok::<
                (Seq<char>, Seq<bech32::u5>),
                TextError,
            >((hrp@, groups@)),
            Err(e) => bech32_parts(text@) == Err::<(Seq<char>, Seq<bech32::u5>), TextError>(e),
        },
{
    bech32::decode(text)
}

/// Calls `bech32::FromBase32::from_base32` for a byte vector. Trusted: the
/// result is what [`base256_of`] names.
#[verifier::external_body]
pub(crate) fn from_base32(groups: &Vec<bech32::u5>) -> (r: Result<Vec<u8>, TextError>)
    ensures
        match r {
            Ok(data) => base256_of(groups@) == Ok::<Seq<u8>, TextError>(data@),
            Err(e) => base256_of(groups@) == Err::<Seq<u8>, TextError>(e),
        },
{
    Vec::<u8>::from_base32(groups)
}

/// Runs `deflate::write::DeflateEncoder` at `Compression::Best` over `data`,
/// into an empty vector. Trusted: the result is what [`deflated`] names.
#[verifier::external_body]
pub(crate) fn deflate_best(data: &Vec<u8>) -> (r: Option<Vec<u8>>)
    ensures
        match r {
            Some(stream) => deflated(data@) == Some(stream@),
            None => deflated(data@) is None,
        },
{
    let mut encoder = DeflateEncoder::new(Vec::new(), Compression::Best);
    match encoder.write_all(data) {
        Ok(()) => encoder.finish().ok(),
        Err(_) => None,
    }
}

/// Calls `inflate::inflate_bytes`. Trusted: the result is what [`inflated`]
/// names.
#[verifier::external_body]
pub(crate) fn inflate(data: &[u8]) -> (r: Result<Vec<u8>, String>)
    ensures
        match r {
            Ok(bytes) => inflated(data@) == Ok::<Seq<u8>, Seq<char>>(bytes@),
            Err(message) => inflated(data@) == Err::<Seq<u8>, Seq<char>>(message@),
        },
{
    inflate::inflate_bytes(data)
}

} // verus!
