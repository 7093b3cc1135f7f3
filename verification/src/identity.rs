//! The endorser's identity: an identifier, a verification key, and the
//! abbreviated form of that key relative to the identifier.

use vstd::prelude::*;
use vstd::slice::{slice_subrange, slice_to_vec};
use crate::base58::{base58_decoding, base58_encoding, is_base58_of};
use crate::error::{Error, ErrorKind, Failure};
use crate::keys::{key_derivation, public_half, SigningKey, SEED_LEN};

verus! {

/// Bytes in a ledger identifier.
pub const IDENTIFIER_LEN: usize = 16;

/// What the front end shows of the active identity.
#[derive(Debug, PartialEq, Eq)]
pub struct EndorserInfo {
    did: String,
    verkey: String,
    verkey_long: String,
}

/// The mathematical content of an [`EndorserInfo`].
pub struct EndorserView {
    /// The identifier, in base58.
    pub did: Seq<char>,
    /// The verification key, abbreviated where the identifier allows it.
    pub verkey: Seq<char>,
    /// The verification key in full, in base58.
    pub verkey_long: Seq<char>,
}

impl View for EndorserInfo {
    type V = EndorserView;

    closed spec fn view(&self) -> EndorserView {
        EndorserView { did: self.did@, verkey: self.verkey@, verkey_long: self.verkey_long@ }
    }
}

/// The identity of an empty session: three empty strings.
pub open spec fn empty_endorser() -> EndorserView {
    EndorserView { did: Seq::empty(), verkey: Seq::empty(), verkey_long: Seq::empty() }
}

impl Clone for EndorserInfo {
    fn clone(&self) -> (copy: EndorserInfo)
        ensures
            copy@ == self@,
    {
        EndorserInfo {
            did: self.did.clone(),
            verkey: self.verkey.clone(),
            verkey_long: self.verkey_long.clone(),
        }
    }
}

impl Default for EndorserInfo {
    fn default() -> (info: EndorserInfo)
        ensures
            info@ == empty_endorser(),
    {
        EndorserInfo { did: String::new(), verkey: String::new(), verkey_long: String::new() }
    }
}

impl EndorserInfo {
    /// An identity of the given three texts, as they are.
    pub fn new(did: String, verkey: String, verkey_long: String) -> (info: EndorserInfo)
        ensures
            info@ == (EndorserView { did: did@, verkey: verkey@, verkey_long: verkey_long@ }),
    {
        EndorserInfo { did, verkey, verkey_long }
    }

    /// The identifier, in base58.
    pub fn did(&self) -> (text: &str)
        ensures
            text@ == self@.did,
    {
        self.did.as_str()
    }

    /// The verification key as it is shown: abbreviated where the identifier
    /// is the key's own prefix, in full otherwise.
    pub fn verkey(&self) -> (text: &str)
        ensures
            text@ == self@.verkey,
    {
        self.verkey.as_str()
    }

    /// The verification key in full, in base58.
    pub fn verkey_long(&self) -> (text: &str)
        ensures
            text@ == self@.verkey_long,
    {
        self.verkey_long.as_str()
    }
}

/// The identifier is the first sixteen bytes of the key.
pub open spec fn has_prefix(verkey: Seq<u8>, identifier: Seq<u8>) -> bool {
    &&& identifier.len() == IDENTIFIER_LEN
    &&& verkey.len() >= IDENTIFIER_LEN
    &&& verkey.subrange(0, IDENTIFIER_LEN as int) == identifier
}

/// What is left of a key after its first sixteen bytes.
pub open spec fn key_suffix(verkey: Seq<u8>) -> Seq<u8> {
    verkey.subrange(IDENTIFIER_LEN as int, verkey.len() as int)
}

/// The abbreviated form of a key relative to an identifier: a tilde and the
/// base58 of the key's suffix where the identifier is the key's prefix, the
/// full text unchanged where it is not (or where the text is no base58).
pub open spec fn abbreviation(identifier: Seq<u8>, verkey_full: Seq<char>) -> Seq<char> {
    match base58_decoding(verkey_full) {
        Some(verkey) => if has_prefix(verkey, identifier) {
            "~"@ + base58_encoding(key_suffix(verkey))
        } else {
            verkey_full
        },
        None => verkey_full,
    }
}

/// The outcome of replacing the identifier by `did` while the full key stays
/// `verkey_full`.
pub open spec fn identifier_override(did: Seq<char>, verkey_full: Seq<char>) -> Result<
    EndorserView,
    Failure,
> {
    match base58_decoding(did) {
        None => Err(
            Failure {
                kind: ErrorKind::InvalidEncoding,
                detail: "Invalid base58 format for DID value"@,
            },
        ),
        Some(identifier) => if identifier.len() != IDENTIFIER_LEN {
            Err(Failure { kind: ErrorKind::InvalidLength, detail: "identifier must be 16 bytes"@ })
        } else {
            Ok(EndorserView { did, verkey: abbreviation(identifier, verkey_full), verkey_long: verkey_full })
        },
    }
}

/// The identity that belongs to a public key: the identifier is the base58
/// of its first sixteen bytes, and the key is shown abbreviated.
pub open spec fn endorser_of_key(public: Seq<u8>) -> EndorserView {
    EndorserView {
        did: base58_encoding(public.subrange(0, IDENTIFIER_LEN as int)),
        verkey: "~"@ + base58_encoding(key_suffix(public)),
        verkey_long: base58_encoding(public),
    }
}

/// The outcome of deriving an identity from a seed: the key's bytes and the
/// identity, or `InvalidSeed` with the generator's message.
pub open spec fn derived_identity(seed: Seq<u8>) -> Result<(Seq<u8>, EndorserView), Failure> {
    match key_derivation(seed) {
        Ok(key) => Ok((key, endorser_of_key(public_half(key)))),
        Err(message) => Err(
            Failure { kind: ErrorKind::InvalidSeed, detail: "Error generating DID: "@ + message },
        ),
    }
}

/// The suffix of `verkey` where `identifier` is its sixteen-byte prefix.
pub fn verkey_tail(identifier: &[u8], verkey: &[u8]) -> (tail: Option<Vec<u8>>)
    ensures
        match tail {
            Some(t) => has_prefix(verkey@, identifier@) && t@ == key_suffix(verkey@),
            None => !has_prefix(verkey@, identifier@),
        },
{
    if identifier.len() != IDENTIFIER_LEN || verkey.len() < IDENTIFIER_LEN {
        return None;
    }
    let mut i: usize = 0;
    while i < IDENTIFIER_LEN
        invariant
            i <= IDENTIFIER_LEN,
            identifier@.len() == IDENTIFIER_LEN,
            verkey@.len() >= IDENTIFIER_LEN,
            forall|j: int| 0 <= j < i ==> verkey@[j] == identifier@[j],
        decreases IDENTIFIER_LEN - i,
    {
        if verkey[i] != identifier[i] {
            assert(verkey@.subrange(0, IDENTIFIER_LEN as int)[i as int] != identifier@[i as int]);
            return None;
        }
        i = i + 1;
    }
    assert(verkey@.subrange(0, IDENTIFIER_LEN as int) =~= identifier@);
    Some(slice_to_vec(slice_subrange(verkey, IDENTIFIER_LEN, verkey.len())))
}

/// Writes the abbreviated form of a key relative to an identifier. This is
/// the one place where the rule is applied, whether the identifier was
/// derived with the key or set by the operator.
pub fn abbreviate(identifier: &[u8], verkey_full: &str) -> (text: String)
    ensures
        text@ == abbreviation(identifier@, verkey_full@),
{
    match crate::base58::decode(verkey_full) {
        Some(verkey) => match verkey_tail(identifier, verkey.as_slice()) {
            Some(tail) => String::from_str("~").concat(crate::base58::encode(tail.as_slice()).as_str()),
            None => String::from_str(verkey_full),
        },
        None => String::from_str(verkey_full),
    }
}

/// Replaces the identifier: `new_did` becomes the identifier, the abbreviated
/// key is written anew relative to it, and the full key stays as it is.
/// Fails with `InvalidEncoding` where `new_did` is no base58, and with
/// `InvalidLength` where it does not decode to sixteen bytes.
pub fn set_identifier(new_did: &str, verkey_full: &str) -> (r: Result<EndorserInfo, Error>)
    ensures
        match r {
            Ok(info) => identifier_override(new_did@, verkey_full@) == Ok::<EndorserView, Failure>(info@),
            Err(e) => identifier_override(new_did@, verkey_full@) == Err::<EndorserView, Failure>(e@),
        },
{
    match crate::base58::decode(new_did) {
        None => Err(
            Error::new(
                ErrorKind::InvalidEncoding,
                String::from_str("Invalid base58 format for DID value"),
            ),
        ),
        Some(identifier) => {
            if identifier.len() != IDENTIFIER_LEN {
                Err(Error::new(ErrorKind::InvalidLength, String::from_str("identifier must be 16 bytes")))
            } else {
                Ok(
                    EndorserInfo {
                        did: String::from_str(new_did),
                        verkey: abbreviate(identifier.as_slice(), verkey_full),
                        verkey_long: String::from_str(verkey_full),
                    },
                )
            }
        },
    }
}

/// The identity of a public key of at least sixteen bytes. The identifier is
/// taken from the key, so the key is always shown abbreviated.
pub fn endorser_for_key(public: &[u8]) -> (info: EndorserInfo)
    requires
        public@.len() >= IDENTIFIER_LEN,
    ensures
        info@ == endorser_of_key(public@),
        is_base58_of(info@.verkey_long, public@),
        is_base58_of(info@.did, public@.subrange(0, IDENTIFIER_LEN as int)),
        info@.verkey == abbreviation(public@.subrange(0, IDENTIFIER_LEN as int), info@.verkey_long),
{
    let identifier = slice_subrange(public, 0, IDENTIFIER_LEN);
    let did = crate::base58::encode(identifier);
    let verkey_long = crate::base58::encode(public);
    let verkey = abbreviate(identifier, verkey_long.as_str());
    EndorserInfo { did, verkey, verkey_long }
}

/// Derives the signing key and the identity of a seed. Succeeds on the seeds
/// of thirty-two bytes and on no others; a rejected seed gives `InvalidSeed`
/// with the generator's message.
pub fn create_did(seed: &[u8]) -> (r: Result<(SigningKey, EndorserInfo), Error>)
    ensures
        match r {
            Ok((key, info)) => {
                &&& derived_identity(seed@) == Ok::<(Seq<u8>, EndorserView), Failure>((key@, info@))
                &&& key.seed() == seed@
                &&& is_base58_of(info@.verkey_long, public_half(key@))
                &&& is_base58_of(info@.did, public_half(key@).subrange(0, IDENTIFIER_LEN as int))
                &&& base58_decoding(info@.verkey_long) matches Some(verkey) && info@.did
                    == base58_encoding(verkey.subrange(0, IDENTIFIER_LEN as int))
                &&& info@.verkey == abbreviation(
                    public_half(key@).subrange(0, IDENTIFIER_LEN as int),
                    info@.verkey_long,
                )
            },
            Err(e) => derived_identity(seed@) == Err::<(Seq<u8>, EndorserView), Failure>(e@),
        },
        r is Ok <==> seed@.len() == SEED_LEN,
{
    match SigningKey::from_seed(seed) {
        Ok(key) => {
            let public = key.public_key();
            let info = endorser_for_key(public.as_slice());
            Ok((key, info))
        },
        Err(e) => {
            let detail = String::from_str("Error generating DID: ").concat(e.message().as_str());
            Err(Error::new(ErrorKind::InvalidSeed, detail))
        },
    }
}

/// Deriving is deterministic: whatever two derivations from one seed give,
/// they give the same key bytes and the same identity, or the same failure.
pub proof fn lemma_derivation_is_deterministic(
    seed: Seq<u8>,
    first: Result<(Seq<u8>, EndorserView), Failure>,
    second: Result<(Seq<u8>, EndorserView), Failure>,
)
    requires
        first == derived_identity(seed),
        second == derived_identity(seed),
    ensures
        first == second,
{
}

/// Abbreviation: where the identifier is the base58 of sixteen bytes and the
/// full key is the base58 of those bytes followed by a suffix, setting that
/// identifier succeeds and shows the key as a tilde and the base58 of the
/// suffix.
pub proof fn lemma_abbreviation_round_trip(
    prefix: Seq<u8>,
    suffix: Seq<u8>,
    did: Seq<char>,
    verkey_full: Seq<char>,
)
    requires
        prefix.len() == IDENTIFIER_LEN,
        is_base58_of(did, prefix),
        is_base58_of(verkey_full, prefix + suffix),
    ensures
        identifier_override(did, verkey_full) == Ok::<EndorserView, Failure>(
            EndorserView { did, verkey: "~"@ + base58_encoding(suffix), verkey_long: verkey_full },
        ),
{
    let verkey = prefix + suffix;
    assert(verkey.subrange(0, IDENTIFIER_LEN as int) =~= prefix);
    assert(key_suffix(verkey) =~= suffix);
}

/// Fallback: where the identifier decodes to sixteen bytes that are not the
/// first sixteen bytes of the full key, setting it succeeds and shows the
/// full key exactly as it is.
pub proof fn lemma_abbreviation_fallback(did: Seq<char>, identifier: Seq<u8>, verkey_full: Seq<char>)
    requires
        base58_decoding(did) == Some(identifier),
        identifier.len() == IDENTIFIER_LEN,
        base58_decoding(verkey_full) matches Some(verkey) ==> !has_prefix(verkey, identifier),
    ensures
        identifier_override(did, verkey_full) == Ok::<EndorserView, Failure>(
            EndorserView { did, verkey: verkey_full, verkey_long: verkey_full },
        ),
{
}

/// Length: an identifier that decodes to anything but sixteen bytes is
/// refused with `InvalidLength`, whatever the bytes and whatever the key.
pub proof fn lemma_length_validation(did: Seq<char>, decoded: Seq<u8>, verkey_full: Seq<char>)
    requires
        base58_decoding(did) == Some(decoded),
        decoded.len() != IDENTIFIER_LEN,
    ensures
        identifier_override(did, verkey_full) matches Err(failure) && failure.kind
            == ErrorKind::InvalidLength,
{
}

} // verus!
