//! Ledger requests: reading one, computing what is signed, attaching a
//! signature under the signer's identifier, and writing the request out again.

use vstd::prelude::*;
use vstd::utf8::encode_utf8;
use crate::base58::base58_encoding;
use crate::error::{Error, ErrorKind, Failure};
use crate::json::{json_content, json_parsing, json_rendering, Json};
use crate::keys::{signature_outcome, SigningKey};

verus! {

/// The older of the two versions of the node protocol that a request may name.
pub const PROTOCOL_NODE_1_3: i64 = 1;

/// The newer of the two versions of the node protocol that a request may name.
pub const PROTOCOL_NODE_1_4: i64 = 2;

/// What `indy_utils::txn_signature::serialize_signature` makes of a request:
/// the canonical text that is signed, or the serializer's message where the
/// request has none.
pub uninterp spec fn signature_input(document: Json) -> Result<Seq<char>, Seq<char>>;

/// Calls `serialize_signature`. Trusted: the outcome is the named signature
/// input of the document's content, the error given by its text.
#[verifier::external_body]
fn serialize(value: &serde_json::Value) -> (r: Result<String, String>)
    ensures
        match r {
            Ok(payload) => signature_input(json_content(*value)) == Ok::<Seq<char>, Seq<char>>(payload@),
            Err(message) => signature_input(json_content(*value)) == Err::<Seq<char>, Seq<char>>(
                message@,
            ),
        },
{
    match indy_utils::txn_signature::serialize_signature(value) {
        Ok(payload) => Ok(payload),
        Err(err) => Err(err.to_string()),
    }
}

/// The integer member of that name, where the document has one.
pub open spec fn integer_member(document: Json, name: Seq<char>) -> Option<i64> {
    match document.member(name) {
        Some(value) => value.as_integer(),
        None => None,
    }
}

/// The document has a member of that name, and it is a string.
pub open spec fn has_text_member(document: Json, name: Seq<char>) -> bool {
    document.member(name) matches Some(value) && value is Text
}

/// What a document lacks to be a ledger request: the detail of the first
/// required field that is missing, or `None` where the request is complete.
/// A request names its protocol version (one of the two above) and its
/// request id as integers, and the identifier of its author and the type of
/// its operation as strings.
pub open spec fn request_defect(document: Json) -> Option<Seq<char>> {
    match integer_member(document, "protocolVersion"@) {
        None => Some("Invalid request JSON: protocolVersion not found"@),
        Some(version) => if version != PROTOCOL_NODE_1_3 && version != PROTOCOL_NODE_1_4 {
            Some("Invalid request JSON: unknown protocol version"@)
        } else if integer_member(document, "reqId"@) is None {
            Some("Invalid request JSON: reqId not found"@)
        } else if !has_text_member(document, "identifier"@) {
            Some("Invalid request JSON: missing identifier DID"@)
        } else if !(document.member("operation"@) matches Some(operation) && has_text_member(
            operation,
            "type"@,
        )) {
            Some("No operation type in request"@)
        } else {
            None
        },
    }
}

/// The outcome of reading a request: its content, or `MalformedRequest` with
/// the parser's message or the missing field.
pub open spec fn parsed_request(text: Seq<char>) -> Result<Json, Failure> {
    match json_parsing(text) {
        Err(message) => Err(
            Failure { kind: ErrorKind::MalformedRequest, detail: "Invalid request JSON: "@ + message },
        ),
        Ok(document) => match request_defect(document) {
            Some(detail) => Err(Failure { kind: ErrorKind::MalformedRequest, detail }),
            None => Ok(document),
        },
    }
}

/// The outcome of computing what is signed: the canonical text, or
/// `MalformedRequest` with the serializer's message.
pub open spec fn canonical_payload(document: Json) -> Result<Seq<char>, Failure> {
    match signature_input(document) {
        Ok(payload) => Ok(payload),
        Err(message) => Err(Failure { kind: ErrorKind::MalformedRequest, detail: message }),
    }
}

/// The multi-signature map of a request: its entries by identifier, where
/// the request is an object whose member `signatures` is an object.
pub open spec fn signature_entries(document: Json) -> Option<Map<Seq<char>, Json>> {
    match document.member("signatures"@) {
        Some(Json::Object(entries)) => Some(entries),
        _ => None,
    }
}

/// The request with one signature attached: the entry of `identifier` in the
/// multi-signature map is added or replaced, and nothing else changes. A
/// request without the map gets one. `None` where the request is no object,
/// or has a member `signatures` that is no object.
pub open spec fn with_signature(document: Json, identifier: Seq<char>, signature: Seq<char>) -> Option<
    Json,
> {
    match document {
        Json::Object(members) => {
            let entries = if members.contains_key("signatures"@) {
                members["signatures"@]
            } else {
                Json::Object(Map::empty())
            };
            match entries {
                Json::Object(existing) => Some(
                    Json::Object(
                        members.insert(
                            "signatures"@,
                            Json::Object(existing.insert(identifier, Json::Text(signature))),
                        ),
                    ),
                ),
                _ => None,
            }
        },
        _ => None,
    }
}

/// The outcome of attaching the base58 of a signature.
pub open spec fn attached(document: Json, identifier: Seq<char>, signature: Seq<u8>) -> Result<
    Json,
    Failure,
> {
    match with_signature(document, identifier, base58_encoding(signature)) {
        Some(signed) => Ok(signed),
        None => Err(
            Failure {
                kind: ErrorKind::MalformedRequest,
                detail: "Invalid request JSON: signatures is not a map"@,
            },
        ),
    }
}

/// The outcome of countersigning a request text: the signed request as JSON
/// text, or the failure of the first step that fails. The steps are: read the
/// request, compute what is signed, sign its UTF-8 bytes, attach the
/// signature under the identifier, write the request out.
pub open spec fn signed_request(identifier: Seq<char>, key: Seq<u8>, text: Seq<char>) -> Result<
    Seq<char>,
    Failure,
> {
    match parsed_request(text) {
        Err(failure) => Err(failure),
        Ok(document) => match canonical_payload(document) {
            Err(failure) => Err(failure),
            Ok(payload) => match signature_outcome(key, encode_utf8(payload)) {
                Err(failure) => Err(failure),
                Ok(signature) => match attached(document, identifier, signature) {
                    Err(failure) => Err(failure),
                    Ok(signed) => Ok(json_rendering(signed)),
                },
            },
        },
    }
}

fn read_integer(value: &serde_json::Value, name: &str) -> (r: Option<i64>)
    ensures
        r == integer_member(json_content(*value), name@),
{
    match crate::json::member(value, name) {
        Some(found) => crate::json::as_integer(found),
        None => None,
    }
}

fn read_has_text(value: &serde_json::Value, name: &str) -> (b: bool)
    ensures
        b == has_text_member(json_content(*value), name@),
{
    match crate::json::member(value, name) {
        Some(found) => crate::json::is_text(found),
        None => false,
    }
}

fn malformed(detail: &str) -> (e: Error)
    ensures
        e@ == (Failure { kind: ErrorKind::MalformedRequest, detail: detail@ }),
{
    Error::new(ErrorKind::MalformedRequest, String::from_str(detail))
}

/// Finds what a document lacks to be a ledger request.
pub fn check_request(value: &serde_json::Value) -> (r: Result<(), Error>)
    ensures
        match r {
            Ok(_) => request_defect(json_content(*value)) is None,
            Err(e) => request_defect(json_content(*value)) == Some(e@.detail) && e@.kind
                == ErrorKind::MalformedRequest,
        },
{
    match read_integer(value, "protocolVersion") {
        None => Err(malformed("Invalid request JSON: protocolVersion not found")),
        Some(version) => {
            if version != PROTOCOL_NODE_1_3 && version != PROTOCOL_NODE_1_4 {
                Err(malformed("Invalid request JSON: unknown protocol version"))
            } else if read_integer(value, "reqId").is_none() {
                Err(malformed("Invalid request JSON: reqId not found"))
            } else if !read_has_text(value, "identifier") {
                Err(malformed("Invalid request JSON: missing identifier DID"))
            } else {
                let typed = match crate::json::member(value, "operation") {
                    Some(operation) => read_has_text(operation, "type"),
                    None => false,
                };
                if typed {
                    Ok(())
                } else {
                    Err(malformed("No operation type in request"))
                }
            }
        },
    }
}

/// A ledger request that has been read and found complete.
pub struct PreparedRequest {
    document: serde_json::Value,
}

impl PreparedRequest {
    /// The content of the request.
    pub closed spec fn document(&self) -> Json {
        json_content(self.document)
    }

    /// Reads a request from JSON text. Fails with `MalformedRequest` where
    /// the text is no JSON or the request lacks a required field.
    pub fn from_request_json(text: &str) -> (r: Result<PreparedRequest, Error>)
        ensures
            match r {
                Ok(request) => parsed_request(text@) == Ok::<Json, Failure>(request.document()),
                Err(e) => parsed_request(text@) == Err::<Json, Failure>(e@),
            },
    {
        match crate::json::parse(text) {
            Err(message) => {
                let detail = String::from_str("Invalid request JSON: ").concat(message.as_str());
                Err(Error::new(ErrorKind::MalformedRequest, detail))
            },
            Ok(document) => match check_request(&document) {
                Err(e) => Err(e),
                Ok(_) => Ok(PreparedRequest { document }),
            },
        }
    }

    /// Computes the canonical text that is signed.
    pub fn get_signature_input(&self) -> (r: Result<String, Error>)
        ensures
            match r {
                Ok(payload) => canonical_payload(self.document()) == Ok::<Seq<char>, Failure>(payload@),
                Err(e) => canonical_payload(self.document()) == Err::<Seq<char>, Failure>(e@),
            },
    {
        match serialize(&self.document) {
            Ok(payload) => Ok(payload),
            Err(message) => Err(Error::new(ErrorKind::MalformedRequest, message)),
        }
    }

    /// Attaches a signature under an identifier: the identifier's entry in
    /// the multi-signature map becomes the base58 of the signature, and
    /// nothing else in the request changes. On failure the request is as it
    /// was.
    pub fn set_multi_signature(&mut self, identifier: &str, signature: &[u8]) -> (r: Result<(), Error>)
        ensures
            match r {
                Ok(_) => attached(old(self).document(), identifier@, signature@) == Ok::<Json, Failure>(
                    final(self).document(),
                ),
                Err(e) => attached(old(self).document(), identifier@, signature@) == Err::<
                    Json,
                    Failure,
                >(e@) && final(self).document() == old(self).document(),
            },
    {
        if !crate::json::is_object(&self.document) {
            return Err(malformed("Invalid request JSON: signatures is not a map"));
        }
        let mut entries = match crate::json::member(&self.document, "signatures") {
            Some(existing) => {
                if !crate::json::is_object(existing) {
                    return Err(malformed("Invalid request JSON: signatures is not a map"));
                }
                crate::json::copy(existing)
            },
            None => crate::json::empty_object(),
        };
        let text = crate::base58::encode(signature);
        crate::json::set_member(&mut entries, identifier, crate::json::text_value(text.as_str()));
        crate::json::set_member(&mut self.document, "signatures", entries);
        Ok(())
    }

    /// Writes the request out as JSON text.
    pub fn to_json(&self) -> (text: String)
        ensures
            text@ == json_rendering(self.document()),
    {
        crate::json::render(&self.document)
    }
}

/// Countersigns a request: reads it, signs its canonical text with `key`,
/// attaches the signature under `identifier`, and returns the whole request
/// as JSON text.
pub fn sign_request(identifier: &str, key: &SigningKey, request_json: &str) -> (r: Result<String, Error>)
    ensures
        match r {
            Ok(signed) => signed_request(identifier@, key@, request_json@) == Ok::<Seq<char>, Failure>(
                signed@,
            ),
            Err(e) => signed_request(identifier@, key@, request_json@) == Err::<Seq<char>, Failure>(e@),
        },
{
    let mut request = match PreparedRequest::from_request_json(request_json) {
        Ok(request) => request,
        Err(e) => {
            return Err(e);
        },
    };
    let payload = match request.get_signature_input() {
        Ok(payload) => payload,
        Err(e) => {
            return Err(e);
        },
    };
    let signature = match key.sign(payload.as_str().as_bytes()) {
        Ok(signature) => signature,
        Err(e) => {
            return Err(e);
        },
    };
    match request.set_multi_signature(identifier, signature.as_slice()) {
        Ok(_) => Ok(request.to_json()),
        Err(e) => Err(e),
    }
}

/// Isolation: attaching a signature under one identifier to a request that
/// already carries an entry for another identifier leaves that entry as it
/// was. The map afterwards is the map before with the signer's entry added or
/// replaced, and every other member of the request is as before.
pub proof fn lemma_multi_signature_isolation(
    document: Json,
    other: Seq<char>,
    identifier: Seq<char>,
    signature: Seq<char>,
)
    requires
        other != identifier,
        signature_entries(document) matches Some(entries) && entries.contains_key(other),
    ensures
        with_signature(document, identifier, signature) matches Some(signed) && {
            &&& signature_entries(signed) == Some(
                signature_entries(document)->0.insert(identifier, Json::Text(signature)),
            )
            &&& signature_entries(signed)->0[other] == signature_entries(document)->0[other]
            &&& forall|name: Seq<char>|
                name != "signatures"@ ==> #[trigger] signed.member(name) == document.member(name)
        },
{
}

} // verus!
