//! Identity resolution and persistence.
//!
//! The node's identity is sourced, in precedence order, from an external
//! config file's embedded identity, from a standalone keypair file
//! (base64-encoded, binary-protobuf-shaped), or freshly generated and
//! persisted to the keypair file path. Decode failures are non-fatal and
//! degrade to "no identity resolved"; file I/O stays with the caller.

use vstd::prelude::*;
use crate::codecs::{b64_decode, b64_decode_of, b64_encode, b64_of, wipe_text};

verus! {

/// What the caller found at the keypair file path.
pub enum KeypairFile {
    /// No keypair path was given on the command line.
    NoPath,
    /// A path was given but no file exists there.
    Missing,
    /// The file exists and holds this text.
    Found(String),
}

/// How the node's identity is to be obtained, in precedence order.
#[derive(PartialEq, Eq, Structural, Clone, Copy, Debug)]
pub enum IdentityPlan {
    /// An external config file supplied an embedded identity: it wins.
    UseConfig,
    /// The keypair file exists: decode its contents.
    DecodeFile,
    /// A keypair path was given but the file is missing: generate a fresh
    /// keypair and persist it there.
    Generate,
    /// No source at all: the node service generates an ephemeral identity.
    Ephemeral,
}

/// Decides the identity source. The external config's embedded identity
/// takes precedence over the keypair file; a missing file at a given path
/// asks for exactly one generation and one persisted file; with no source
/// at all the identity stays ephemeral.
pub fn identity_plan(has_config_identity: bool, file: &KeypairFile) -> (r: IdentityPlan)
    ensures
        has_config_identity ==> r == IdentityPlan::UseConfig,
        !has_config_identity && (file matches KeypairFile::Found(_)) ==> r == IdentityPlan::DecodeFile,
        !has_config_identity && file is Missing ==> r == IdentityPlan::Generate,
        !has_config_identity && file is NoPath ==> r == IdentityPlan::Ephemeral,
        r == IdentityPlan::Generate ==> !has_config_identity && file is Missing,
{
    if has_config_identity {
        IdentityPlan::UseConfig
    } else {
        match file {
            KeypairFile::Found(_) => IdentityPlan::DecodeFile,
            KeypairFile::Missing => IdentityPlan::Generate,
            KeypairFile::NoPath => IdentityPlan::Ephemeral,
        }
    }
}

/// Decodes the keypair file's text into the binary-protobuf-shaped keypair
/// bytes. The text buffer is wiped before this returns, on success and
/// failure alike. A decode failure yields `None`: the caller degrades to
/// "no identity resolved" rather than aborting.
pub fn identity_from_file_text(text: String) -> (r: Option<Vec<u8>>)
    ensures
        r is Some <==> b64_decode_of(text@) is Some,
        r matches Some(k) ==> Some(k@) == b64_decode_of(text@),
{
    let mut buf = text;
    let decoded = b64_decode(buf.as_str());
    wipe_text(&mut buf);
    decoded
}

/// Encodes a keypair's binary form as the text persisted in the keypair
/// file: base64, standard alphabet, padded.
pub fn persist_encoding(keypair: &Vec<u8>) -> (r: String)
    requires
        keypair@.len() <= usize::MAX / 4,
    ensures
        r@ == b64_of(keypair@),
        b64_decode_of(r@) == Some(keypair@),
{
    b64_encode(keypair)
}

/// Law: persisting a keypair's encoding and resolving identity from that
/// same text yields the same keypair material back.
pub fn keypair_round_trip(keypair: &Vec<u8>) -> (r: Option<Vec<u8>>)
    requires
        keypair@.len() <= usize::MAX / 4,
    ensures
        r is Some,
        r matches Some(k) ==> k@ == keypair@,
{
    let text = persist_encoding(keypair);
    identity_from_file_text(text)
}

} // verus!
