//! Signing keys: derived from a seed, used to sign a payload.
//!
//! The Ed25519 arithmetic is `indy_utils::keys::PrivateKey`. Its results are
//! named here, not restated: a key is whatever the generator derives from the
//! seed, a signature whatever the signer computes from key and message.

use vstd::prelude::*;
use vstd::slice::{slice_subrange, slice_to_vec};
use crate::error::{Error, ErrorKind, Failure};

verus! {

/// Bytes in a seed that the generator accepts.
pub const SEED_LEN: usize = 32;

/// Bytes in a signing key: the secret half, then the public half.
pub const KEY_LEN: usize = 64;

/// Where the public half starts inside a signing key.
pub const PUBLIC_KEY_OFFSET: usize = 32;

/// What `indy_utils::keys::PrivateKey::from_seed` makes of a seed: the bytes
/// of the key, or the generator's message where it rejects the seed.
pub uninterp spec fn key_derivation(seed: Seq<u8>) -> Result<Seq<u8>, Seq<char>>;

/// What `indy_utils::keys::PrivateKey::sign` makes of an Ed25519 key and a
/// message: the signature, or the signer's message where it fails.
pub uninterp spec fn ed25519_signing(key: Seq<u8>, message: Seq<u8>) -> Result<Seq<u8>, Seq<char>>;

/// The outcome of deriving a key, as this library reports it.
pub open spec fn derived_key(seed: Seq<u8>) -> Result<Seq<u8>, Failure> {
    match key_derivation(seed) {
        Ok(key) => Ok(key),
        Err(message) => Err(Failure { kind: ErrorKind::InvalidSeed, detail: message }),
    }
}

/// The outcome of signing, as this library reports it.
pub open spec fn signature_outcome(key: Seq<u8>, message: Seq<u8>) -> Result<Seq<u8>, Failure> {
    match ed25519_signing(key, message) {
        Ok(signature) => Ok(signature),
        Err(message) => Err(Failure { kind: ErrorKind::SigningFailure, detail: message }),
    }
}

/// The public half of a signing key.
pub open spec fn public_half(key: Seq<u8>) -> Seq<u8> {
    key.subrange(PUBLIC_KEY_OFFSET as int, KEY_LEN as int)
}

/// Calls `PrivateKey::from_seed` and takes the key's bytes, or the error's
/// text. Trusted: the outcome is the named derivation of the seed; the
/// generator accepts exactly the seeds of thirty-two bytes; a key has
/// sixty-four bytes.
#[verifier::external_body]
fn generate(seed: &[u8]) -> (r: Result<Vec<u8>, String>)
    ensures
        match r {
            Ok(key) => key_derivation(seed@) == Ok::<Seq<u8>, Seq<char>>(key@),
            Err(message) => key_derivation(seed@) == Err::<Seq<u8>, Seq<char>>(message@),
        },
        r is Ok <==> seed@.len() == SEED_LEN,
        r matches Ok(key) ==> key@.len() == KEY_LEN,
{
    match indy_utils::keys::PrivateKey::from_seed(seed) {
        Ok(key) => Ok(key.key_bytes()),
        Err(err) => Err(err.to_string()),
    }
}

/// Calls `PrivateKey::sign` on an Ed25519 key made of `key`. The signer
/// panics on bytes that are no key pair, so `key` must have come out of the
/// generator. Trusted: the outcome is the named signing of `message`.
#[verifier::external_body]
fn sign_with(key: &[u8], message: &[u8]) -> (r: Result<Vec<u8>, String>)
    requires
        exists|seed: Seq<u8>| key_derivation(seed) == Ok::<Seq<u8>, Seq<char>>(key@),
    ensures
        match r {
            Ok(signature) => ed25519_signing(key@, message@) == Ok::<Seq<u8>, Seq<char>>(signature@),
            Err(text) => ed25519_signing(key@, message@) == Err::<Seq<u8>, Seq<char>>(text@),
        },
{
    let key = indy_utils::keys::PrivateKey::new(key, Some(indy_utils::keys::KeyType::ED25519));
    match key.sign(message) {
        Ok(signature) => Ok(signature),
        Err(err) => Err(err.to_string()),
    }
}

/// A private signing key. It can only be had from a seed, so it is always a
/// key that the generator made.
pub struct SigningKey {
    bytes: Vec<u8>,
    seed: Ghost<Seq<u8>>,
}

impl View for SigningKey {
    type V = Seq<u8>;

    closed spec fn view(&self) -> Seq<u8> {
        self.bytes@
    }
}

impl SigningKey {
    #[verifier::type_invariant]
    spec fn is_derived(self) -> bool {
        &&& key_derivation(self.seed@) == Ok::<Seq<u8>, Seq<char>>(self.bytes@)
        &&& self.bytes@.len() == KEY_LEN
    }

    /// The seed that this key was derived from.
    pub closed spec fn seed(&self) -> Seq<u8> {
        self.seed@
    }

    /// Derives the key of a seed. Succeeds on the seeds of thirty-two bytes
    /// and on no others.
    pub fn from_seed(seed: &[u8]) -> (r: Result<SigningKey, Error>)
        ensures
            match r {
                Ok(key) => derived_key(seed@) == Ok::<Seq<u8>, Failure>(key@) && key.seed() == seed@
                    && key@.len() == KEY_LEN,
                Err(e) => derived_key(seed@) == Err::<Seq<u8>, Failure>(e@),
            },
            r is Ok <==> seed@.len() == SEED_LEN,
    {
        match generate(seed) {
            Ok(bytes) => Ok(SigningKey { bytes, seed: Ghost(seed@) }),
            Err(message) => Err(Error::new(ErrorKind::InvalidSeed, message)),
        }
    }

    /// The key's bytes.
    pub fn key_bytes(&self) -> (bytes: Vec<u8>)
        ensures
            bytes@ == self@,
            bytes@.len() == KEY_LEN,
            key_derivation(self.seed()) == Ok::<Seq<u8>, Seq<char>>(self@),
    {
        proof {
            use_type_invariant(self);
        }
        self.bytes.clone()
    }

    /// The public half of the key.
    pub fn public_key(&self) -> (public: Vec<u8>)
        ensures
            public@ == public_half(self@),
            public@.len() == KEY_LEN - PUBLIC_KEY_OFFSET,
    {
        proof {
            use_type_invariant(self);
        }
        slice_to_vec(slice_subrange(self.bytes.as_slice(), PUBLIC_KEY_OFFSET, KEY_LEN))
    }

    /// Signs a message with this key.
    pub fn sign(&self, message: &[u8]) -> (r: Result<Vec<u8>, Error>)
        ensures
            match r {
                Ok(signature) => signature_outcome(self@, message@) == Ok::<Seq<u8>, Failure>(signature@),
                Err(e) => signature_outcome(self@, message@) == Err::<Seq<u8>, Failure>(e@),
            },
    {
        proof {
            use_type_invariant(self);
        }
        match sign_with(self.bytes.as_slice(), message) {
            Ok(signature) => Ok(signature),
            Err(text) => Err(Error::new(ErrorKind::SigningFailure, text)),
        }
    }
}

} // verus!
