//! What holds of writing and reading together.

use crate::codec::raw_decoded;
use crate::convert::{narrowed, narrowed_text};
use crate::error::ErrorView;
use crate::outside::{base256_of, bech32_parts, deflated, inflated};
use bech32::Error as TextError;
use crate::payload::{Bech32, Bech32View};
use crate::strict::StrictDecode;
use crate::tags::{classify_spec, lemma_classify_tag, Kind};
use crate::text::{decode_spec, parse_spec, render_spec, text_of};
use vstd::prelude::*;

verus! {

/// Whether the text layer takes `text` apart into the human-readable part
/// `hrp` and groups that spell the bytes `payload`.
pub open spec fn text_restores(text: Seq<char>, hrp: Seq<char>, payload: Seq<u8>) -> bool {
    match bech32_parts(text) {
        Ok((part, groups)) => part == hrp && base256_of(groups) == Ok::<Seq<u8>, TextError>(
            payload,
        ),
        Err(_) => false,
    }
}

/// Whether `bytes` can be compressed and decompressing the stream gives
/// `bytes` back.
pub open spec fn deflate_restores(bytes: Seq<u8>) -> bool {
    match deflated(bytes) {
        Some(stream) => inflated(stream) == Ok::<Seq<u8>, Seq<char>>(bytes),
        None => false,
    }
}

/// The payload of a value is read back as the value: for the identifiers
/// and the anchor always, and for a compressed kind where decompression
/// gives back what was compressed.
///
/// A value under an unknown part is meant here only if its part is indeed
/// none of the table's.
pub proof fn lemma_decode_inverts_encode(value: Bech32)
    requires
        value@.payload() is Ok,
        value@.kind().is_compressed() ==> deflate_restores(value@.content()),
        value@ is Other ==> classify_spec(value@.hrp()) == Kind::Other,
    ensures
        decode_spec(value@.hrp(), value@.payload()->Ok_0) == Ok::<Bech32View, ErrorView>(value@),
{
    let v = value@;
    let payload = v.payload()->Ok_0;
    if !(v is Other) {
        lemma_classify_tag(v.kind());
    }
    assert(classify_spec(v.hrp()) == v.kind());
    match value {
        Bech32::BlindedUtxo(_) | Bech32::SchemaId(_) | Bech32::ContractId(_) => {
            assert(payload.subrange(0, 32) =~= payload);
        },
        Bech32::Anchor(_) => {
            assert(payload.skip(1) =~= v.content());
        },
        Bech32::Other(_, _) => {},
        _ => {
            assert(payload.skip(1) =~= deflated(v.content())->Some_0);
        },
    }
}

/// Reading inverts writing, as far as the two outer codecs invert each
/// other: if `value` is written as `text`, the text layer takes `text` apart
/// into what it was made of, and, for a compressed kind, decompression gives
/// back what was compressed, then `text` is read as `value`.
///
/// A value under an unknown part is meant here only if its part is indeed
/// none of the table's.
pub proof fn lemma_parse_inverts_render(value: Bech32, text: Seq<char>)
    requires
        render_spec(value@) == Ok::<Seq<char>, ErrorView>(text),
        text_restores(text, value@.hrp(), value@.payload()->Ok_0),
        value@.kind().is_compressed() ==> deflate_restores(value@.content()),
        value@ is Other ==> classify_spec(value@.hrp()) == Kind::Other,
    ensures
        parse_spec(text) == Ok::<Bech32View, ErrorView>(value@),
{
    lemma_decode_inverts_encode(value);
}

/// A human-readable part that the table does not hold keeps its payload as
/// it is, byte for byte, and the value so read is written as the text of
/// that part and those bytes.
pub proof fn lemma_unknown_part_kept(hrp: Seq<char>, data: Seq<u8>)
    requires
        classify_spec(hrp) == Kind::Other,
    ensures
        decode_spec(hrp, data) == Ok::<Bech32View, ErrorView>(Bech32View::Other(hrp, data)),
        render_spec(decode_spec(hrp, data)->Ok_0) == text_of(hrp, data),
{
}

/// A framed payload whose version byte is neither `0` nor `1` is an error
/// that carries the byte, whatever type is read and whichever document kind
/// the payload came under.
pub proof fn lemma_unknown_version_rejected<T: StrictDecode>(hrp: Seq<char>, data: Seq<u8>)
    requires
        data.len() > 0,
        data[0] != 0,
        data[0] != 1,
    ensures
        raw_decoded::<T>(data) == Err::<T::V, ErrorView>(
            ErrorView::UnknownRawDataEncoding(data[0]),
        ),
        classify_spec(hrp).is_framed() ==> decode_spec(hrp, data) == Err::<Bech32View, ErrorView>(
            ErrorView::UnknownRawDataEncoding(data[0]),
        ),
{
}

/// A refusal of the text layer is the outcome of reading: a text that the
/// layer does not take apart, for its checksum or anything else, is read as
/// no value, whatever type is asked for.
pub proof fn lemma_text_refusal_is_final(text: Seq<char>, requested: Kind)
    requires
        bech32_parts(text) is Err,
    ensures
        parse_spec(text) == Err::<Bech32View, ErrorView>(
            ErrorView::Bech32Error(bech32_parts(text)->Err_0),
        ),
        narrowed_text(text, requested) == Err::<Seq<u8>, ErrorView>(
            ErrorView::Bech32Error(bech32_parts(text)->Err_0),
        ),
{
}

/// What is read is of the kind that the human-readable part announces, so
/// asking a text for a value of any other kind fails with
/// [`ErrorView::WrongType`].
pub proof fn lemma_wrong_type_rejected(text: Seq<char>, requested: Kind)
    requires
        parse_spec(text) is Ok,
        classify_spec(bech32_parts(text)->Ok_0.0) != requested,
    ensures
        parse_spec(text)->Ok_0.kind() == classify_spec(bech32_parts(text)->Ok_0.0),
        narrowed(parse_spec(text)->Ok_0, requested) == Err::<Seq<u8>, ErrorView>(
            ErrorView::WrongType,
        ),
        narrowed_text(text, requested) == Err::<Seq<u8>, ErrorView>(ErrorView::WrongType),
{
}

/// Asking a value for its own kind gives what it holds.
pub proof fn lemma_own_type_given(value: Bech32View)
    requires
        !(value is Other),
    ensures
        narrowed(value, value.kind()) == Ok::<Seq<u8>, ErrorView>(value.content()),
{
}

} // verus!
