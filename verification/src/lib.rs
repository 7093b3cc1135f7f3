//! Endorser identities for a distributed ledger: deriving an identifier and
//! its keys from a seed, abbreviating a verification key relative to an
//! identifier, and countersigning a pending ledger request.

pub mod base58;
pub mod error;
pub mod keys;
pub mod identity;
pub mod json;
pub mod request;
pub mod session;

pub use crate::error::{Error, ErrorKind};
pub use crate::identity::{create_did, set_identifier, EndorserInfo};
pub use crate::keys::SigningKey;
pub use crate::request::{sign_request, PreparedRequest};
pub use crate::session::{sign_transaction, Cmd, SessionState, Update};
