//! Ed25519 signatures over arbitrary messages, made and checked by
//! `solana_sdk`.

use solana_sdk::signer::Signer;
use vstd::prelude::*;
use vstd::slice::slice_subrange;

use crate::bytes::to_array;
use crate::encoding::{base64_decode, base64_decoded, base64_encodable, base64_encode, encodes_base64};
use crate::error::LedgerError;
use crate::keypair::{ed25519_public_key, is_consistent, public_of, seed_of, Keypair};
use crate::pubkey::PublicKey;

verus! {

/// The number of bytes of a signature.
pub const SIGNATURE_LENGTH: usize = 64;

/// The Ed25519 signature that the key pair made from the 32 bytes `seed`
/// puts under `message`.
pub uninterp spec fn ed25519_signature(seed: Seq<u8>, message: Seq<u8>) -> Seq<u8>;

/// Whether the 64 bytes `signature` are a valid Ed25519 signature of
/// `message` under the 32 bytes `public_key`, by the strict check.
pub uninterp spec fn ed25519_valid(public_key: Seq<u8>, message: Seq<u8>, signature: Seq<u8>) -> bool;

/// Calls `Keypair::new_from_array` on the seed and `sign_message` on the
/// pair, both of `solana_sdk::signature`. Trusted: the signature is the one
/// named `ed25519_signature`, no randomness entering it; and it is valid for
/// the message under the public key derived from the seed.
#[verifier::external_body]
fn sign_with(seed: &[u8; 32], message: &[u8]) -> (signature: [u8; 64])
    ensures
        signature@ == ed25519_signature(seed@, message@),
        ed25519_valid(ed25519_public_key(seed@), message@, signature@),
{
    solana_sdk::signature::Keypair::new_from_array(*seed).sign_message(message).into()
}

/// Calls `solana_sdk::signature::Signature::verify`. Trusted: the answer is
/// the one named `ed25519_valid`; the call fails on no input.
#[verifier::external_body]
fn verify_with(public_key: &[u8; 32], message: &[u8], signature: &[u8; 64]) -> (valid: bool)
    ensures
        valid == ed25519_valid(public_key@, message@, signature@),
{
    solana_sdk::signature::Signature::from(*signature).verify(public_key, message)
}

/// A 64-byte Ed25519 signature. Its transport form is base64.
#[derive(Clone, Copy, Debug, PartialEq, Eq)]
pub struct Signature {
    pub bytes: [u8; 64],
}

impl View for Signature {
    type V = Seq<u8>;

    open spec fn view(&self) -> Seq<u8> {
        self.bytes@
    }
}

/// The view of a result that holds a signature.
pub open spec fn signature_view(r: Result<Signature, LedgerError>) -> Result<Seq<u8>, LedgerError> {
    match r {
        Ok(signature) => Ok(signature@),
        Err(e) => Err(e),
    }
}

/// What `Signature::from_bytes` makes of `bytes`.
pub open spec fn signature_accepted(bytes: Seq<u8>) -> Result<Seq<u8>, LedgerError> {
    if bytes.len() == 64 {
        Ok(bytes)
    } else {
        Err(LedgerError::InvalidLength)
    }
}

/// What `Signature::decode` makes of `text`: the bytes that the base64 text
/// stands for, where they are exactly 64.
pub open spec fn signature_decoded(text: Seq<char>) -> Result<Seq<u8>, LedgerError> {
    match base64_decoded(text) {
        Ok(bytes) => signature_accepted(bytes),
        Err(e) => Err(e),
    }
}

/// What `sign` returns for the secret material `secret` and `message`:
/// the signature by the seed, whatever the embedded public key is.
pub open spec fn signed(secret: Seq<u8>, message: Seq<u8>) -> Result<Seq<u8>, LedgerError> {
    Ok(ed25519_signature(seed_of(secret), message))
}

/// What `verify` returns.
pub open spec fn verified(public_key: Seq<u8>, message: Seq<u8>, signature: Seq<u8>) -> bool {
    signature.len() == 64 && ed25519_valid(public_key, message, signature)
}

/// Whether `signature` is what `sign` returns for the secret material
/// `secret` and `message`. It is valid under the public key derived from
/// the seed, which is the embedded one where the two halves fit together.
pub open spec fn signs(secret: Seq<u8>, message: Seq<u8>, signature: Seq<u8>) -> bool {
    &&& signed(secret, message) == Ok::<Seq<u8>, LedgerError>(signature)
    &&& signature.len() == 64
    &&& ed25519_valid(ed25519_public_key(seed_of(secret)), message, signature)
}

impl Signature {
    /// The signature made of exactly 64 bytes; any other length is an
    /// `InvalidLength`.
    pub fn from_bytes(bytes: &[u8]) -> (r: Result<Signature, LedgerError>)
        ensures
            signature_view(r) == signature_accepted(bytes@),
    {
        if bytes.len() != 64 {
            return Err(LedgerError::InvalidLength);
        }
        Ok(Signature { bytes: to_array::<64>(bytes) })
    }

    /// The signature's bytes.
    pub fn to_bytes(&self) -> (bytes: [u8; 64])
        ensures
            bytes@ == self@,
    {
        self.bytes
    }

    /// The transport form: padded standard base64.
    pub fn encode(&self) -> (text: String)
        ensures
            encodes_base64(self@, text@),
    {
        base64_encode(self.bytes.as_slice())
    }

    /// Parses the transport form. Fails with `InvalidEncoding` where `text`
    /// is not well-formed base64, and with `InvalidLength` where it stands
    /// for more or fewer than 64 bytes.
    pub fn decode(text: &str) -> (r: Result<Signature, LedgerError>)
        ensures
            signature_view(r) == signature_decoded(text@),
    {
        match base64_decode(text) {
            Ok(bytes) => Signature::from_bytes(bytes.as_slice()),
            Err(e) => Err(e),
        }
    }
}

/// Signs `message` as RFC 8032 lays down: the signature depends on the
/// pair's seed and the message alone. Every pair signs: the embedded public
/// key is not compared with the seed, and a pair whose halves do not fit
/// together gives a signature that its own public key does not accept.
pub fn sign(keypair: &Keypair, message: &[u8]) -> (r: Result<Signature, LedgerError>)
    ensures
        signature_view(r) == signed(keypair@, message@),
        r matches Ok(signature) && signs(keypair@, message@, signature@),
{
    let secret = keypair.secret_bytes();
    let seed = to_array::<32>(slice_subrange(secret.as_slice(), 0, 32));
    assert(seed@ == seed_of(keypair@));
    Ok(Signature { bytes: sign_with(&seed, message) })
}

/// Whether `signature` is a valid signature of `message` under
/// `public_key`. A signature of the wrong length, a wrong key or a changed
/// message give `false`; nothing is an error.
pub fn verify(public_key: &PublicKey, message: &[u8], signature: &[u8]) -> (valid: bool)
    ensures
        valid == verified(public_key@, message@, signature@),
{
    if signature.len() != 64 {
        return false;
    }
    let bytes = to_array::<64>(signature);
    verify_with(&public_key.bytes, message, &bytes)
}

/// The transport form of a signature has 88 characters, the last two of
/// them padding signs.
pub proof fn lemma_signature_text_shape(signature: Seq<u8>, text: Seq<char>)
    requires
        signature.len() == 64,
        encodes_base64(signature, text),
    ensures
        text.len() == 88,
        text[86] == '=',
        text[87] == '=',
        signature_decoded(text) == Ok::<Seq<u8>, LedgerError>(signature),
{
}

/// Signing correctness: a signature that `sign` returns for a pair and a
/// message is accepted by `verify` for that message under the pair's public
/// key, where the pair's two halves fit together.
pub proof fn lemma_signature_verifies(secret: Seq<u8>, message: Seq<u8>, signature: Seq<u8>)
    requires
        is_consistent(secret),
        signs(secret, message, signature),
    ensures
        verified(public_of(secret), message, signature),
{
}

/// Every pair signs: whatever 64 bytes `Keypair::from_secret` accepted,
/// `sign` returns a signature, the one of the seed.
pub proof fn lemma_every_pair_signs(secret: Seq<u8>, message: Seq<u8>)
    ensures
        signed(secret, message) == Ok::<Seq<u8>, LedgerError>(
            ed25519_signature(seed_of(secret), message),
        ),
{
}

/// Determinism: `sign` returns the same for the same pair and message,
/// however often it is called.
pub proof fn lemma_sign_deterministic(
    secret_a: Seq<u8>,
    message_a: Seq<u8>,
    secret_b: Seq<u8>,
    message_b: Seq<u8>,
)
    requires
        secret_a == secret_b,
        message_a == message_b,
    ensures
        signed(secret_a, message_a) == signed(secret_b, message_b),
{
}

/// `verify` gives the same answer for the same key, message and signature.
pub proof fn lemma_verify_deterministic(
    key_a: Seq<u8>,
    message_a: Seq<u8>,
    signature_a: Seq<u8>,
    key_b: Seq<u8>,
    message_b: Seq<u8>,
    signature_b: Seq<u8>,
)
    requires
        key_a == key_b,
        message_a == message_b,
        signature_a == signature_b,
    ensures
        verified(key_a, message_a, signature_a) == verified(key_b, message_b, signature_b),
{
}

} // verus!
