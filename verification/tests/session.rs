use endorser::identity::EndorserInfo;
use endorser::session::{sign_transaction, Cmd, SessionState, Update};
use endorser::{Error, ErrorKind};

const SEED: &str = "000000000000000000000000Trustee1";
const DID: &str = "V4SGRU86Z58d6TV7PBUe6f";
const VERKEY: &str = "GJ1SzoWzavQYfNL9XkaJdrQejfztN4XqdsiV4ct3LXKL";
const VERKEY_SHORT: &str = "~CoRER63DVYnWZtK8uAzNbx";
const OTHER_DID: &str = "Th7MpTaRZVRYnPiabds81Y";
const REQUEST: &str = r#"{"operation":{"type":"1","dest":"Th7MpTaRZVRYnPiabds81Y"},"identifier":"Th7MpTaRZVRYnPiabds81Y","protocolVersion":2,"reqId":1}"#;

fn seeded() -> SessionState {
    let mut state = SessionState::default();
    state.handle(Cmd::UpdateSeed { seed: SEED.to_string() });
    state
}

fn endorser_of(update: &Update) -> (&EndorserInfo, Option<&str>) {
    match update {
        Update::SetEndorser { endorser, error } => (endorser, error.as_deref()),
        other => panic!("unexpected update: {:?}", other),
    }
}

#[test]
fn a_new_session_is_empty() {
    let state = SessionState::default();
    assert!(!state.has_key());
    assert!(state.key().is_none());
    assert_eq!(*state.endorser(), EndorserInfo::default());
}

#[test]
fn init_and_log_change_nothing() {
    let mut state = seeded();
    let before = state.endorser().clone();
    assert_eq!(state.handle(Cmd::Init), Update::NoUpdate);
    assert_eq!(state.handle(Cmd::Log { text: "hello".to_string() }), Update::NoUpdate);
    assert_eq!(*state.endorser(), before);
    assert!(state.has_key());
    let mut empty = SessionState::default();
    assert_eq!(empty.handle(Cmd::Init), Update::NoUpdate);
    assert!(!empty.has_key());
}

#[test]
fn a_seed_installs_key_and_identity() {
    let mut state = SessionState::default();
    let update = state.handle(Cmd::UpdateSeed { seed: SEED.to_string() });
    let (endorser, error) = endorser_of(&update);
    assert_eq!(error, None);
    assert_eq!(endorser.did(), DID);
    assert_eq!(endorser.verkey(), VERKEY_SHORT);
    assert_eq!(endorser.verkey_long(), VERKEY);
    assert_eq!(state.endorser(), endorser);
    assert!(state.has_key());
    assert_eq!(state.key().unwrap().key_bytes().len(), 64);
    assert_eq!(&state.key().unwrap().key_bytes()[..32], SEED.as_bytes());
}

#[test]
fn a_bad_seed_empties_the_session() {
    let mut state = seeded();
    assert!(state.has_key());
    let update = state.handle(Cmd::UpdateSeed { seed: "too short".to_string() });
    let (endorser, error) = endorser_of(&update);
    assert_eq!(*endorser, EndorserInfo::default());
    assert!(error.unwrap().starts_with("Error generating DID: "));
    assert!(!state.has_key());
    assert_eq!(*state.endorser(), EndorserInfo::default());
    assert_eq!(state.endorser().did(), "");
    assert_eq!(state.endorser().verkey(), "");
    assert_eq!(state.endorser().verkey_long(), "");
}

#[test]
fn a_seed_of_thirty_two_characters_but_more_bytes_is_bad() {
    let mut state = seeded();
    let seed = "\u{e9}".repeat(32);
    state.update_seed(&seed);
    assert!(!state.has_key());
    assert_eq!(*state.endorser(), EndorserInfo::default());
}

#[test]
fn an_identifier_changes_the_shown_key_only() {
    let mut state = seeded();
    let key = state.key().unwrap().key_bytes();
    let update = state.handle(Cmd::UpdateDid { did: OTHER_DID.to_string() });
    let (endorser, error) = endorser_of(&update);
    assert_eq!(error, None);
    assert_eq!(endorser.did(), OTHER_DID);
    assert_eq!(endorser.verkey(), VERKEY);
    assert_eq!(endorser.verkey_long(), VERKEY);
    assert_eq!(state.endorser(), endorser);
    assert_eq!(state.key().unwrap().key_bytes(), key);
    let back = state.handle(Cmd::UpdateDid { did: DID.to_string() });
    assert_eq!(endorser_of(&back).0.verkey(), VERKEY_SHORT);
    assert_eq!(state.endorser().did(), DID);
}

#[test]
fn a_bad_identifier_changes_nothing() {
    let mut state = seeded();
    let before = state.endorser().clone();
    let update = state.handle(Cmd::UpdateDid { did: "0OIl".to_string() });
    let (endorser, error) = endorser_of(&update);
    assert_eq!(*endorser, before);
    assert_eq!(error, Some("Invalid base58 format for DID value"));
    let update = state.handle(Cmd::UpdateDid { did: "abc".to_string() });
    let (endorser, error) = endorser_of(&update);
    assert_eq!(*endorser, before);
    assert_eq!(error, Some("identifier must be 16 bytes"));
    assert_eq!(*state.endorser(), before);
    assert!(state.has_key());
}

#[test]
fn an_identifier_on_an_empty_session() {
    let mut state = SessionState::default();
    let update = state.update_did(OTHER_DID);
    let (endorser, error) = endorser_of(&update);
    assert_eq!(error, None);
    assert_eq!(endorser.did(), OTHER_DID);
    assert_eq!(endorser.verkey(), "");
    assert_eq!(endorser.verkey_long(), "");
    assert!(!state.has_key());
}

#[test]
fn signing_through_the_session() {
    let mut state = seeded();
    let update = state.handle(Cmd::SignTransaction { txn: REQUEST.to_string() });
    let (txn, error) = match update {
        Update::SetSignedOutput { txn, error } => (txn, error),
        other => panic!("unexpected update: {:?}", other),
    };
    assert_eq!(error, None);
    let signed: serde_json::Value = serde_json::from_str(&txn).unwrap();
    assert_eq!(signed["signatures"].as_object().unwrap().len(), 1);
    assert!(signed["signatures"][DID].is_string());
    assert_eq!(sign_transaction(&state, REQUEST).unwrap(), txn);
    assert_eq!(state.endorser().did(), DID);
}

#[test]
fn signing_uses_the_identifier_that_was_set() {
    let mut state = seeded();
    state.update_did(OTHER_DID);
    let txn = sign_transaction(&state, REQUEST).unwrap();
    let signed: serde_json::Value = serde_json::from_str(&txn).unwrap();
    let entries = signed["signatures"].as_object().unwrap();
    assert_eq!(entries.len(), 1);
    assert!(entries.contains_key(OTHER_DID));
}

#[test]
fn a_failed_signing_clears_the_output() {
    let mut state = seeded();
    let before = state.endorser().clone();
    let update = state.handle(Cmd::SignTransaction { txn: "{}".to_string() });
    assert_eq!(
        update,
        Update::SetSignedOutput {
            txn: String::new(),
            error: Some("Invalid request JSON: protocolVersion not found".to_string()),
        }
    );
    assert_eq!(*state.endorser(), before);
    assert!(state.has_key());
    let e: Error = sign_transaction(&state, "{").unwrap_err();
    assert_eq!(e.kind(), ErrorKind::MalformedRequest);
}

#[test]
fn errors_carry_kind_and_detail() {
    let e = Error::new(ErrorKind::SigningFailure, "detail".to_string());
    assert_eq!(e.kind(), ErrorKind::SigningFailure);
    assert_eq!(e.message(), "detail");
    assert_eq!(e.clone(), e);
    assert_ne!(e, Error::new(ErrorKind::InvalidSeed, "detail".to_string()));
}
