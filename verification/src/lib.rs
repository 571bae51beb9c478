//! Obfuscated command verbs: each verb of a small protocol travels as a 128-bit
//! identifier derived from the verb and a shared secret token, and the nil
//! identifier is the knock of a client that holds no token yet.

pub mod identifier;
pub mod kind;
pub mod laws;
pub mod request;
pub mod tables;

pub use identifier::{derive_identifier, NIL_IDENTIFIER};
pub use kind::{RequestType, REQUEST_TYPE_VERB_MAP};
pub use request::{resolve_kind, ParseOutcome, PeerAddress, Request, SerializableRequest};
pub use tables::{identifier_for, ReverseTable};
