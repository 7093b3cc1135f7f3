//! The session: one active identity with its signing key, and the commands
//! that replace it, re-label it, or sign with it.

use vstd::prelude::*;
use vstd::utf8::encode_utf8;
use crate::error::{Error, Failure};
use crate::identity::{
    create_did, derived_identity, empty_endorser, identifier_override, set_identifier, EndorserInfo,
    EndorserView,
};
use crate::keys::{SigningKey, SEED_LEN};
use crate::request::{sign_request, signed_request};

verus! {

/// A command from the front end.
#[derive(Debug, PartialEq, Eq)]
pub enum Cmd {
    /// The front end has started.
    Init,
    /// A line for the diagnostic log.
    Log { text: String },
    /// Derive a new identity from this seed.
    UpdateSeed { seed: String },
    /// Use this identifier with the current key.
    UpdateDid { did: String },
    /// Countersign this ledger request.
    SignTransaction { txn: String },
}

/// What the front end is told after a command.
#[derive(Debug, PartialEq, Eq)]
pub enum Update {
    NoUpdate,
    /// The identity as it now is, and why the command failed if it did.
    SetEndorser { endorser: EndorserInfo, error: Option<String> },
    /// The signed request, or an empty text and why signing failed.
    SetSignedOutput { txn: String, error: Option<String> },
}

/// The mathematical content of a [`Cmd`].
pub enum Command {
    Init,
    Log { text: Seq<char> },
    UpdateSeed { seed: Seq<char> },
    UpdateDid { did: Seq<char> },
    SignTransaction { txn: Seq<char> },
}

/// The mathematical content of an [`Update`].
pub enum Notice {
    NoUpdate,
    SetEndorser { endorser: EndorserView, error: Option<Seq<char>> },
    SetSignedOutput { txn: Seq<char>, error: Option<Seq<char>> },
}

/// The text of an optional string.
pub open spec fn optional_text(text: Option<String>) -> Option<Seq<char>> {
    match text {
        Some(s) => Some(s@),
        None => None,
    }
}

impl View for Cmd {
    type V = Command;

    open spec fn view(&self) -> Command {
        match self {
            Cmd::Init => Command::Init,
            Cmd::Log { text } => Command::Log { text: text@ },
            Cmd::UpdateSeed { seed } => Command::UpdateSeed { seed: seed@ },
            Cmd::UpdateDid { did } => Command::UpdateDid { did: did@ },
            Cmd::SignTransaction { txn } => Command::SignTransaction { txn: txn@ },
        }
    }
}

impl View for Update {
    type V = Notice;

    open spec fn view(&self) -> Notice {
        match self {
            Update::NoUpdate => Notice::NoUpdate,
            Update::SetEndorser { endorser, error } => Notice::SetEndorser {
                endorser: endorser@,
                error: optional_text(*error),
            },
            Update::SetSignedOutput { txn, error } => Notice::SetSignedOutput {
                txn: txn@,
                error: optional_text(*error),
            },
        }
    }
}

/// The session's register: the identity shown, and the key that signs.
pub struct SessionState {
    endorser: EndorserInfo,
    key: Option<SigningKey>,
}

/// The mathematical content of a [`SessionState`].
pub struct Session {
    pub endorser: EndorserView,
    /// The bytes of the signing key, where the session has one.
    pub key: Option<Seq<u8>>,
}

/// The session before any seed was accepted: no key, an empty identity.
pub open spec fn empty_session() -> Session {
    Session { endorser: empty_endorser(), key: None }
}

impl View for SessionState {
    type V = Session;

    closed spec fn view(&self) -> Session {
        Session {
            endorser: self.endorser@,
            key: match self.key {
                Some(key) => Some(key@),
                None => None,
            },
        }
    }
}

/// The session after a seed was offered, and what the front end is told. An
/// accepted seed replaces key and identity together; a rejected one empties
/// the session.
pub open spec fn after_seed(seed: Seq<char>) -> (Session, Notice) {
    match derived_identity(encode_utf8(seed)) {
        Ok((key, endorser)) => (
            Session { endorser, key: Some(key) },
            Notice::SetEndorser { endorser, error: None },
        ),
        Err(failure) => (
            empty_session(),
            Notice::SetEndorser { endorser: empty_endorser(), error: Some(failure.detail) },
        ),
    }
}

/// The session after an identifier was offered, and what the front end is
/// told. An accepted identifier changes the identifier and the abbreviated
/// key; a rejected one changes nothing.
pub open spec fn after_did(session: Session, did: Seq<char>) -> (Session, Notice) {
    match identifier_override(did, session.endorser.verkey_long) {
        Ok(endorser) => (
            Session { endorser, key: session.key },
            Notice::SetEndorser { endorser, error: None },
        ),
        Err(failure) => (
            session,
            Notice::SetEndorser { endorser: session.endorser, error: Some(failure.detail) },
        ),
    }
}

/// What the front end is told after a request was offered for signing with
/// the session's identifier and `key`.
pub open spec fn after_signing(session: Session, key: Seq<u8>, txn: Seq<char>) -> Notice {
    match signed_request(session.endorser.did, key, txn) {
        Ok(signed) => Notice::SetSignedOutput { txn: signed, error: None },
        Err(failure) => Notice::SetSignedOutput { txn: Seq::empty(), error: Some(failure.detail) },
    }
}

/// The session after a command, and what the front end is told. Signing
/// needs a key: without one the command has no outcome.
pub open spec fn step(session: Session, command: Command) -> (Session, Notice)
    recommends
        command is SignTransaction ==> session.key is Some,
{
    match command {
        Command::Init => (session, Notice::NoUpdate),
        Command::Log { .. } => (session, Notice::NoUpdate),
        Command::UpdateSeed { seed } => after_seed(seed),
        Command::UpdateDid { did } => after_did(session, did),
        Command::SignTransaction { txn } => (session, after_signing(session, session.key->0, txn)),
    }
}

impl Default for SessionState {
    fn default() -> (state: SessionState)
        ensures
            state@ == empty_session(),
    {
        SessionState { endorser: EndorserInfo::default(), key: None }
    }
}

impl SessionState {
    /// The identity shown.
    pub fn endorser(&self) -> (info: &EndorserInfo)
        ensures
            info@ == self@.endorser,
    {
        &self.endorser
    }

    /// The signing key, where the session has one.
    pub fn key(&self) -> (key: Option<&SigningKey>)
        ensures
            match key {
                Some(k) => self@.key == Some(k@),
                None => self@.key is None,
            },
    {
        self.key.as_ref()
    }

    /// Whether the session has a signing key.
    pub fn has_key(&self) -> (b: bool)
        ensures
            b == (self@.key is Some),
    {
        self.key.is_some()
    }

    /// Offers a seed: on success key and identity are replaced together, on
    /// failure the session is emptied.
    pub fn update_seed(&mut self, seed: &str) -> (update: Update)
        ensures
            (final(self)@, update@) == after_seed(seed@),
            final(self)@.key is Some <==> encode_utf8(seed@).len() == SEED_LEN,
            encode_utf8(seed@).len() != SEED_LEN ==> final(self)@ == empty_session(),
    {
        match create_did(seed.as_bytes()) {
            Ok((key, endorser)) => {
                self.key = Some(key);
                self.endorser = endorser.clone();
                Update::SetEndorser { endorser, error: None }
            },
            Err(e) => {
                self.key = None;
                self.endorser = EndorserInfo::default();
                Update::SetEndorser { endorser: self.endorser.clone(), error: Some(e.message()) }
            },
        }
    }

    /// Offers an identifier: on success the identifier and the abbreviated
    /// key change, the full key and the signing key stay; on failure nothing
    /// changes.
    pub fn update_did(&mut self, did: &str) -> (update: Update)
        ensures
            (final(self)@, update@) == after_did(old(self)@, did@),
            final(self)@.key == old(self)@.key,
            final(self)@.endorser.verkey_long == old(self)@.endorser.verkey_long,
    {
        match set_identifier(did, self.endorser.verkey_long()) {
            Ok(endorser) => {
                self.endorser = endorser.clone();
                Update::SetEndorser { endorser, error: None }
            },
            Err(e) => Update::SetEndorser { endorser: self.endorser.clone(), error: Some(e.message()) },
        }
    }

    /// Carries out one command. Signing needs a key; a log line changes
    /// nothing here, the caller shows it.
    pub fn handle(&mut self, cmd: Cmd) -> (update: Update)
        requires
            cmd is SignTransaction ==> old(self)@.key is Some,
        ensures
            (final(self)@, update@) == step(old(self)@, cmd@),
    {
        match cmd {
            Cmd::Init => Update::NoUpdate,
            Cmd::Log { .. } => Update::NoUpdate,
            Cmd::UpdateSeed { seed } => self.update_seed(seed.as_str()),
            Cmd::UpdateDid { did } => self.update_did(did.as_str()),
            Cmd::SignTransaction { txn } => match sign_transaction(self, txn.as_str()) {
                Ok(txn) => Update::SetSignedOutput { txn, error: None },
                Err(e) => Update::SetSignedOutput { txn: String::new(), error: Some(e.message()) },
            },
        }
    }
}

/// Countersigns a ledger request with the session's key under the session's
/// identifier. The session must have a key.
pub fn sign_transaction(data: &SessionState, txn: &str) -> (r: Result<String, Error>)
    requires
        data@.key is Some,
    ensures
        match r {
            Ok(signed) => signed_request(data@.endorser.did, data@.key->0, txn@) == Ok::<
                Seq<char>,
                Failure,
            >(signed@),
            Err(e) => signed_request(data@.endorser.did, data@.key->0, txn@) == Err::<
                Seq<char>,
                Failure,
            >(e@),
        },
{
    let key = data.key.as_ref().unwrap();
    sign_request(data.endorser.did(), key, txn)
}

/// Reset: a seed that the generator rejects empties the session, whatever
/// it held before, and the front end is shown the empty identity with the
/// reason.
pub proof fn lemma_failed_seed_resets_session(session: Session, seed: Seq<char>)
    requires
        derived_identity(encode_utf8(seed)) is Err,
    ensures
        step(session, Command::UpdateSeed { seed }).0 == empty_session(),
        step(session, Command::UpdateSeed { seed }).1 == (Notice::SetEndorser {
            endorser: empty_endorser(),
            error: Some(derived_identity(encode_utf8(seed))->Err_0.detail),
        }),
{
}

} // verus!
