//! Public keys and their canonical base58 form.

use vstd::prelude::*;

use crate::bytes::to_array;
use crate::encoding::{
    base58_bytes, base58_decode, base58_decoded, base58_encode, encodes_base58, is_base58,
};
use crate::error::LedgerError;

verus! {

/// The number of bytes of a public key.
pub const PUBLIC_KEY_LENGTH: usize = 32;

/// A 32-byte public key.
#[derive(Clone, Copy, Debug, PartialEq, Eq)]
pub struct PublicKey {
    pub bytes: [u8; 32],
}

impl View for PublicKey {
    type V = Seq<u8>;

    open spec fn view(&self) -> Seq<u8> {
        self.bytes@
    }
}

/// What `PublicKey::from_bytes` makes of `bytes`.
pub open spec fn public_key_accepted(bytes: Seq<u8>) -> Result<Seq<u8>, LedgerError> {
    if bytes.len() == 32 {
        Ok(bytes)
    } else {
        Err(LedgerError::InvalidLength)
    }
}

/// What `PublicKey::decode` makes of `text`: the bytes that the base58 text
/// stands for, where they are exactly 32.
pub open spec fn public_key_decoded(text: Seq<char>) -> Result<Seq<u8>, LedgerError> {
    match base58_decoded(text) {
        Ok(bytes) => public_key_accepted(bytes),
        Err(e) => Err(e),
    }
}

/// The view of a result that holds a public key.
pub open spec fn key_view(r: Result<PublicKey, LedgerError>) -> Result<Seq<u8>, LedgerError> {
    match r {
        Ok(key) => Ok(key@),
        Err(e) => Err(e),
    }
}

impl PublicKey {
    /// The key made of exactly 32 bytes; any other length is an
    /// `InvalidLength`.
    pub fn from_bytes(bytes: &[u8]) -> (r: Result<PublicKey, LedgerError>)
        ensures
            key_view(r) == public_key_accepted(bytes@),
    {
        if bytes.len() != 32 {
            return Err(LedgerError::InvalidLength);
        }
        Ok(PublicKey { bytes: to_array::<32>(bytes) })
    }

    /// The key's bytes.
    pub fn to_bytes(&self) -> (bytes: [u8; 32])
        ensures
            bytes@ == self@,
    {
        self.bytes
    }

    /// Parses the base58 form of a key. Fails with `InvalidEncoding` where
    /// `text` is not base58, and with `InvalidLength` where it stands for
    /// more or fewer than 32 bytes. The key has `text` as its canonical
    /// form.
    pub fn decode(text: &str) -> (r: Result<PublicKey, LedgerError>)
        ensures
            key_view(r) == public_key_decoded(text@),
            r matches Ok(key) ==> encodes_base58(key@, text@),
    {
        match base58_decode(text) {
            Ok(bytes) => PublicKey::from_bytes(bytes.as_slice()),
            Err(e) => Err(e),
        }
    }

    /// The canonical base58 form of the key.
    pub fn encode(&self) -> (text: String)
        ensures
            encodes_base58(self@, text@),
    {
        base58_encode(self.bytes.as_slice())
    }
}

/// Decode boundary: a base58 text that stands for 31 or for 33 bytes is no
/// public key; `decode` fails on it with `InvalidLength`.
pub proof fn lemma_public_key_length_boundary(text: Seq<char>)
    requires
        is_base58(text),
        base58_bytes(text).len() == 31 || base58_bytes(text).len() == 33,
    ensures
        public_key_decoded(text) == Err::<Seq<u8>, LedgerError>(LedgerError::InvalidLength),
{
}

/// A key's canonical form is parsed back to the key: `decode` of what
/// `encode` returns for `key` gives `key`.
pub proof fn lemma_public_key_round_trip(key: PublicKey, text: Seq<char>)
    requires
        encodes_base58(key@, text),
    ensures
        public_key_decoded(text) == Ok::<Seq<u8>, LedgerError>(key@),
{
}

} // verus!
