//! Stateless building blocks for a ledger client: text codecs for keys and
//! signatures, Ed25519 key handling, and unsigned instruction records.

pub mod bytes;
pub mod encoding;
pub mod error;
pub mod instruction;
pub mod keypair;
pub mod pubkey;
pub mod service;
pub mod signing;
