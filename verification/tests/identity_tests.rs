//! Identity resolution: precedence, persistence, and the keypair round
//! trip through real base64.

use ipfs_server::identity::{
    identity_from_file_text, identity_plan, keypair_round_trip, persist_encoding, IdentityPlan,
    KeypairFile,
};

#[test]
fn config_identity_takes_precedence_over_keypair_file() {
    let file = KeypairFile::Found(String::from("aGVsbG8="));
    assert_eq!(identity_plan(true, &file), IdentityPlan::UseConfig);
    assert_eq!(identity_plan(true, &KeypairFile::Missing), IdentityPlan::UseConfig);
    assert_eq!(identity_plan(true, &KeypairFile::NoPath), IdentityPlan::UseConfig);
}

#[test]
fn keypair_file_is_decoded_when_no_config_identity() {
    let file = KeypairFile::Found(String::from("aGVsbG8="));
    assert_eq!(identity_plan(false, &file), IdentityPlan::DecodeFile);
}

#[test]
fn missing_keypair_file_generates_exactly_once() {
    assert_eq!(identity_plan(false, &KeypairFile::Missing), IdentityPlan::Generate);
    // No other file state asks for generation.
    let found = KeypairFile::Found(String::from("aGVsbG8="));
    assert_ne!(identity_plan(false, &found), IdentityPlan::Generate);
    assert_ne!(identity_plan(false, &KeypairFile::NoPath), IdentityPlan::Generate);
    assert_ne!(identity_plan(true, &KeypairFile::Missing), IdentityPlan::Generate);
}

#[test]
fn no_source_stays_ephemeral() {
    assert_eq!(identity_plan(false, &KeypairFile::NoPath), IdentityPlan::Ephemeral);
}

#[test]
fn persist_encoding_is_standard_padded_base64() {
    let kp: Vec<u8> = b"hello".to_vec();
    assert_eq!(persist_encoding(&kp), "aGVsbG8=");
    let kp2: Vec<u8> = vec![0, 1, 2];
    assert_eq!(persist_encoding(&kp2), "AAEC");
}

#[test]
fn file_text_decodes_to_keypair_bytes() {
    let decoded = identity_from_file_text(String::from("aGVsbG8="));
    assert_eq!(decoded, Some(b"hello".to_vec()));
}

#[test]
fn invalid_file_text_degrades_to_no_identity() {
    assert_eq!(identity_from_file_text(String::from("!!! not base64 !!!")), None);
    // Unpadded text is rejected by the padded engine.
    assert_eq!(identity_from_file_text(String::from("aGVsbG8")), None);
}

#[test]
fn keypair_survives_persist_and_resolve() {
    let kp: Vec<u8> = (0u8..64).collect();
    assert_eq!(keypair_round_trip(&kp), Some(kp.clone()));
}

#[test]
fn empty_keypair_survives_round_trip() {
    let kp: Vec<u8> = Vec::new();
    assert_eq!(keypair_round_trip(&kp), Some(Vec::new()));
}
