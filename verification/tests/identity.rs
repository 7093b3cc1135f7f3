use endorser::error::ErrorKind;
use endorser::identity::{abbreviate, create_did, endorser_for_key, set_identifier, verkey_tail, EndorserInfo};
use endorser::keys::SigningKey;
use indy_utils::base58;

const TRUSTEE_SEED: &str = "000000000000000000000000Trustee1";
const TRUSTEE_DID: &str = "V4SGRU86Z58d6TV7PBUe6f";
const TRUSTEE_VERKEY: &str = "GJ1SzoWzavQYfNL9XkaJdrQejfztN4XqdsiV4ct3LXKL";
const TRUSTEE_VERKEY_SHORT: &str = "~CoRER63DVYnWZtK8uAzNbx";

fn bytes(from: u8, count: u8) -> Vec<u8> {
    (from..from + count).collect()
}

#[test]
fn trustee_seed_gives_the_known_identity() {
    let (_key, info) = create_did(TRUSTEE_SEED.as_bytes()).unwrap_or_else(|e| panic!("{}", e.message()));
    assert_eq!(info.did(), TRUSTEE_DID);
    assert_eq!(info.verkey_long(), TRUSTEE_VERKEY);
    assert_eq!(info.verkey(), TRUSTEE_VERKEY_SHORT);
    assert!(info.verkey().starts_with('~'));
}

#[test]
fn setting_the_derived_identifier_again_keeps_the_abbreviation() {
    let (_key, info) = create_did(TRUSTEE_SEED.as_bytes()).ok().unwrap();
    let again = set_identifier(info.did(), info.verkey_long()).unwrap();
    assert_eq!(again, info);
    assert_eq!(again.verkey(), info.verkey());
}

#[test]
fn setting_another_identifier_shows_the_full_key() {
    let (_key, info) = create_did(TRUSTEE_SEED.as_bytes()).ok().unwrap();
    let other = base58::encode(bytes(100, 16));
    let changed = set_identifier(&other, info.verkey_long()).unwrap();
    assert_eq!(changed.did(), other);
    assert_eq!(changed.verkey(), info.verkey_long());
    assert_eq!(changed.verkey_long(), info.verkey_long());
    assert!(!changed.verkey().starts_with('~'));
}

#[test]
fn derivation_is_repeatable() {
    let (first_key, first) = create_did(TRUSTEE_SEED.as_bytes()).ok().unwrap();
    let (second_key, second) = create_did(TRUSTEE_SEED.as_bytes()).ok().unwrap();
    assert_eq!(first_key.key_bytes(), second_key.key_bytes());
    assert_eq!(first.did(), second.did());
    assert_eq!(first.verkey_long(), second.verkey_long());
    assert_eq!(first, second);
}

#[test]
fn different_seeds_give_different_identities() {
    let (_a, first) = create_did(b"000000000000000000000000Trustee1").ok().unwrap();
    let (_b, second) = create_did(b"000000000000000000000000Steward1").ok().unwrap();
    assert_ne!(first.did(), second.did());
    assert_ne!(first.verkey_long(), second.verkey_long());
}

#[test]
fn identifier_is_the_first_sixteen_bytes_of_the_key() {
    let (key, info) = create_did(b"aaaabbbbccccddddeeeeffffgggghhhh").ok().unwrap();
    let verkey = base58::decode(info.verkey_long()).unwrap();
    assert_eq!(verkey.len(), 32);
    assert_eq!(info.did(), base58::encode(&verkey[..16]));
    assert_eq!(verkey, key.public_key());
    assert_eq!(info.verkey(), format!("~{}", base58::encode(&verkey[16..])));
}

#[test]
fn key_bytes_are_the_seed_and_then_the_public_key() {
    let key = SigningKey::from_seed(b"aaaabbbbccccddddeeeeffffgggghhhh").unwrap();
    let expected: Vec<u8> = vec![
        97, 97, 97, 97, 98, 98, 98, 98, 99, 99, 99, 99, 100, 100, 100, 100, 101, 101, 101, 101, 102,
        102, 102, 102, 103, 103, 103, 103, 104, 104, 104, 104, 113, 22, 13, 44, 71, 184, 166, 148,
        196, 234, 85, 148, 234, 22, 204, 148, 187, 247, 77, 119, 250, 28, 37, 255, 29, 31, 159, 159,
        245, 68, 107, 235,
    ];
    assert_eq!(key.key_bytes(), expected);
    assert_eq!(key.public_key(), expected[32..].to_vec());
}

#[test]
fn short_seed_is_refused() {
    let e = create_did(b"too short").err().unwrap();
    assert_eq!(e.kind(), ErrorKind::InvalidSeed);
    assert!(e.message().starts_with("Error generating DID: "));
    assert!(e.message().len() > "Error generating DID: ".len());
}

#[test]
fn long_and_empty_seeds_are_refused() {
    assert_eq!(create_did(&[7u8; 33]).err().unwrap().kind(), ErrorKind::InvalidSeed);
    assert_eq!(create_did(&[7u8; 31]).err().unwrap().kind(), ErrorKind::InvalidSeed);
    assert_eq!(create_did(b"").err().unwrap().kind(), ErrorKind::InvalidSeed);
    assert!(create_did(&[7u8; 32]).is_ok());
}

#[test]
fn signing_key_from_seed_reports_the_generator_message() {
    let e = SigningKey::from_seed(b"abc").err().unwrap();
    assert_eq!(e.kind(), ErrorKind::InvalidSeed);
    assert!(!e.message().is_empty());
    assert!(!e.message().starts_with("Error generating DID"));
}

#[test]
fn abbreviation_of_prefix_and_suffix() {
    let prefix = bytes(1, 16);
    let suffix = bytes(50, 16);
    let mut verkey = prefix.clone();
    verkey.extend_from_slice(&suffix);
    let did = base58::encode(&prefix);
    let full = base58::encode(&verkey);
    let info = set_identifier(&did, &full).unwrap();
    assert_eq!(info.did(), did);
    assert_eq!(info.verkey(), format!("~{}", base58::encode(&suffix)));
    assert_eq!(info.verkey_long(), full);
}

#[test]
fn abbreviation_with_suffixes_of_other_lengths() {
    let prefix = bytes(1, 16);
    let did = base58::encode(&prefix);
    for count in [0u8, 1, 5, 40] {
        let suffix = bytes(200, count);
        let mut verkey = prefix.clone();
        verkey.extend_from_slice(&suffix);
        let info = set_identifier(&did, &base58::encode(&verkey)).unwrap();
        assert_eq!(info.verkey(), format!("~{}", base58::encode(&suffix)));
    }
    let bare = set_identifier(&did, &base58::encode(&prefix)).unwrap();
    assert_eq!(bare.verkey(), "~");
}

#[test]
fn fallback_when_one_byte_differs() {
    let prefix = bytes(1, 16);
    let mut verkey = prefix.clone();
    verkey.extend_from_slice(&bytes(50, 16));
    let full = base58::encode(&verkey);
    for at in [0usize, 7, 15] {
        let mut other = prefix.clone();
        other[at] ^= 1;
        let info = set_identifier(&base58::encode(&other), &full).unwrap();
        assert_eq!(info.verkey(), full);
        assert_eq!(info.verkey_long(), full);
    }
}

#[test]
fn fallback_when_the_key_is_short_empty_or_not_base58() {
    let did = base58::encode(bytes(1, 16));
    let short = base58::encode(bytes(1, 15));
    assert_eq!(set_identifier(&did, &short).unwrap().verkey(), short);
    assert_eq!(set_identifier(&did, "").unwrap().verkey(), "");
    assert_eq!(set_identifier(&did, "not base58 0OIl").unwrap().verkey(), "not base58 0OIl");
    assert_eq!(set_identifier(&did, "not base58 0OIl").unwrap().verkey_long(), "not base58 0OIl");
}

#[test]
fn identifier_of_wrong_length_is_refused() {
    let full = base58::encode(bytes(1, 32));
    for count in [0u8, 1, 15, 17, 32] {
        let e = set_identifier(&base58::encode(bytes(1, count)), &full).unwrap_err();
        assert_eq!(e.kind(), ErrorKind::InvalidLength);
        assert_eq!(e.message(), "identifier must be 16 bytes");
    }
    let zeros = set_identifier(&base58::encode([0u8; 17]), &full).unwrap_err();
    assert_eq!(zeros.kind(), ErrorKind::InvalidLength);
}

#[test]
fn identifier_that_is_not_base58_is_refused() {
    let full = base58::encode(bytes(1, 32));
    for text in ["0", "O", "I", "l", "V4SGRU86Z58d6TV7PBUe6f!", "~abc", "caf\u{e9}"] {
        let e = set_identifier(text, &full).unwrap_err();
        assert_eq!(e.kind(), ErrorKind::InvalidEncoding);
        assert_eq!(e.message(), "Invalid base58 format for DID value");
    }
}

#[test]
fn tail_of_a_key() {
    let prefix = bytes(1, 16);
    let mut verkey = prefix.clone();
    verkey.extend_from_slice(&[9, 8, 7]);
    assert_eq!(verkey_tail(&prefix, &verkey), Some(vec![9, 8, 7]));
    assert_eq!(verkey_tail(&prefix, &prefix), Some(vec![]));
    assert_eq!(verkey_tail(&prefix[..15], &verkey), None);
    assert_eq!(verkey_tail(&verkey, &verkey), None);
    assert_eq!(verkey_tail(&prefix, &verkey[..15]), None);
    let mut other = prefix.clone();
    other[15] = 0;
    assert_eq!(verkey_tail(&other, &verkey), None);
}

#[test]
fn abbreviate_is_the_rule_of_set_identifier() {
    let prefix = bytes(1, 16);
    let mut verkey = prefix.clone();
    verkey.extend_from_slice(&bytes(50, 16));
    let full = base58::encode(&verkey);
    assert_eq!(abbreviate(&prefix, &full), format!("~{}", base58::encode(bytes(50, 16))));
    assert_eq!(abbreviate(&bytes(2, 16), &full), full);
    assert_eq!(abbreviate(&prefix, TRUSTEE_VERKEY), TRUSTEE_VERKEY);
    let trustee = base58::decode(TRUSTEE_DID).unwrap();
    assert_eq!(abbreviate(&trustee, TRUSTEE_VERKEY), TRUSTEE_VERKEY_SHORT);
}

#[test]
fn identity_of_a_public_key() {
    let public = base58::decode(TRUSTEE_VERKEY).unwrap();
    let info = endorser_for_key(&public);
    assert_eq!(info.did(), TRUSTEE_DID);
    assert_eq!(info.verkey(), TRUSTEE_VERKEY_SHORT);
    assert_eq!(info.verkey_long(), TRUSTEE_VERKEY);
}

#[test]
fn default_identity_is_empty() {
    let info = EndorserInfo::default();
    assert_eq!(info.did(), "");
    assert_eq!(info.verkey(), "");
    assert_eq!(info.verkey_long(), "");
    assert_eq!(info.clone(), info);
}
