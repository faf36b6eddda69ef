//! Trusted boundary to the encoding crates the orchestrator leans on:
//! base64 for keypair persistence, zeroize for wiping key material, and
//! libipld's DAG-JSON codec for rendering structured objects.

use vstd::prelude::*;
use base64::Engine;
use libipld::prelude::Codec;

verus! {

/// What base64 encoding with the standard alphabet and padding returns
/// for a byte sequence; a function of the bytes alone.
pub uninterp spec fn b64_of(bytes: Seq<u8>) -> Seq<char>;

/// What base64 decoding with the standard alphabet and padding returns
/// for a text: the decoded bytes, or `None` where the text is not valid
/// padded base64; a function of the text alone.
pub uninterp spec fn b64_decode_of(text: Seq<char>) -> Option<Seq<u8>>;

/// Relies on base64's `Engine::encode` with `alphabet::STANDARD` and
/// `general_purpose::PAD`: the result is a function of the input bytes
/// alone, and `Engine::decode` of the same engine inverts it (the RFC 4648
/// round trip the crate documents). `encode` computes the encoded length
/// up front and panics where that overflows `usize`, so the input length
/// is bounded here.
#[verifier::external_body]
pub(crate) fn b64_encode(bytes: &Vec<u8>) -> (r: String)
    requires
        bytes@.len() <= usize::MAX / 4,
    ensures
        r@ == b64_of(bytes@),
        b64_decode_of(r@) == Some(bytes@),
{
    let engine = base64::engine::GeneralPurpose::new(
        &base64::alphabet::STANDARD,
        base64::engine::general_purpose::PAD,
    );
    engine.encode(bytes)
}

/// Relies on base64's `Engine::decode` with `alphabet::STANDARD` and
/// `general_purpose::PAD`: the outcome is a function of the input text
/// alone; invalid padded base64 is rejected.
#[verifier::external_body]
pub(crate) fn b64_decode(text: &str) -> (r: Option<Vec<u8>>)
    ensures
        r is Some <==> b64_decode_of(text@) is Some,
        r matches Some(b) ==> Some(b@) == b64_decode_of(text@),
{
    let engine = base64::engine::GeneralPurpose::new(
        &base64::alphabet::STANDARD,
        base64::engine::general_purpose::PAD,
    );
    engine.decode(text).ok()
}

/// Relies on zeroize's `Zeroize for String`: zeroes the buffer and leaves
/// it empty.
#[verifier::external_body]
pub(crate) fn wipe_text(s: &mut String)
    ensures
        final(s)@.len() == 0,
{
    zeroize::Zeroize::zeroize(s)
}

#[verifier::external_type_specification]
#[verifier::external_body]
pub struct ExIpld(libipld::Ipld);

/// Relies on libipld's `Ipld::String` variant: the structured scalar value
/// carrying exactly this text, as a generic serializer produces for a
/// string payload.
#[verifier::external_body]
pub fn ipld_scalar_string(s: &str) -> (r: libipld::Ipld)
{
    libipld::Ipld::String(s.to_owned())
}

/// Relies on libipld's `DagJsonCodec`: encodes a structured value to its
/// DAG-JSON byte form; the lossy UTF-8 reading of those bytes is handed
/// back, or `None` where the value has no DAG-JSON form.
#[verifier::external_body]
pub fn dag_json_text(value: &libipld::Ipld) -> (r: Option<String>)
{
    match libipld::json::DagJsonCodec.encode(value) {
        Ok(bytes) => Some(String::from_utf8_lossy(&bytes).into_owned()),
        Err(_) => None,
    }
}

} // verus!
