//! Ed25519 key pairs: fresh ones, and ones rebuilt from secret material.
//!
//! Secret material is 64 bytes: a 32-byte seed followed by the 32-byte public
//! key that belongs to it. Key derivation and the random source are those of
//! `solana_sdk`.

use solana_sdk::signer::Signer;
use vstd::prelude::*;
use vstd::slice::slice_subrange;

use crate::bytes::to_array;
use crate::error::LedgerError;
use crate::pubkey::PublicKey;

verus! {

/// The number of bytes of secret material.
pub const SECRET_LENGTH: usize = 64;

/// The public key that Ed25519 derives from a 32-byte seed.
pub uninterp spec fn ed25519_public_key(seed: Seq<u8>) -> Seq<u8>;

/// The seed: the first half of secret material.
pub open spec fn seed_of(secret: Seq<u8>) -> Seq<u8> {
    secret.subrange(0, 32)
}

/// The embedded public key: the second half of secret material.
pub open spec fn public_of(secret: Seq<u8>) -> Seq<u8> {
    secret.subrange(32, 64)
}

/// Whether the embedded public key of `secret` is the one that its seed
/// derives.
pub open spec fn is_consistent(secret: Seq<u8>) -> bool {
    public_of(secret) == ed25519_public_key(seed_of(secret))
}

/// Calls `solana_sdk::signature::Keypair::new` and takes the pair's bytes.
/// Trusted: whatever seed the system's random source gives, the second half
/// of the 64 bytes is the public key derived from the first.
#[verifier::external_body]
fn fresh_secret() -> (secret: [u8; 64])
    ensures
        is_consistent(secret@),
{
    solana_sdk::signature::Keypair::new().to_bytes()
}

/// Calls `solana_sdk::signature::Keypair::new_from_array` and takes the
/// pair's public key. Trusted: the result is the key named
/// `ed25519_public_key`.
#[verifier::external_body]
fn derive_public_key(seed: &[u8; 32]) -> (public: [u8; 32])
    ensures
        public@ == ed25519_public_key(seed@),
{
    solana_sdk::signature::Keypair::new_from_array(*seed).pubkey().to_bytes()
}

/// A key pair. It owns its secret material and never changes.
#[derive(Debug)]
pub struct Keypair {
    secret: [u8; 64],
}

impl View for Keypair {
    type V = Seq<u8>;

    closed spec fn view(&self) -> Seq<u8> {
        self.secret@
    }
}

/// What `Keypair::from_secret` makes of `bytes`.
pub open spec fn secret_accepted(bytes: Seq<u8>) -> Result<Seq<u8>, LedgerError> {
    if bytes.len() == 64 {
        Ok(bytes)
    } else {
        Err(LedgerError::InvalidLength)
    }
}

/// What `Keypair::from_secret_verified` makes of `bytes`.
pub open spec fn secret_verified(bytes: Seq<u8>) -> Result<Seq<u8>, LedgerError> {
    if bytes.len() != 64 {
        Err(LedgerError::InvalidLength)
    } else if !is_consistent(bytes) {
        Err(LedgerError::InvalidPubkey)
    } else {
        Ok(bytes)
    }
}

/// The view of a result that holds a key pair.
pub open spec fn keypair_view(r: Result<Keypair, LedgerError>) -> Result<Seq<u8>, LedgerError> {
    match r {
        Ok(keypair) => Ok(keypair@),
        Err(e) => Err(e),
    }
}

/// Decode boundary: 63 or 65 bytes are no secret material; `from_secret`
/// fails on them with `InvalidLength`.
pub proof fn lemma_secret_length_boundary(bytes: Seq<u8>)
    requires
        bytes.len() == 63 || bytes.len() == 65,
    ensures
        secret_accepted(bytes) == Err::<Seq<u8>, LedgerError>(LedgerError::InvalidLength),
        secret_verified(bytes) == Err::<Seq<u8>, LedgerError>(LedgerError::InvalidLength),
{
}

impl Keypair {
    /// A fresh pair: 32 random bytes from the system's secure source as
    /// seed, and the public key derived from them.
    pub fn generate() -> (keypair: Keypair)
        ensures
            keypair@.len() == 64,
            is_consistent(keypair@),
    {
        Keypair { secret: fresh_secret() }
    }

    /// Rebuilds a pair from its 64 bytes, seed first. The embedded public
    /// key is taken as it stands and not derived again from the seed: the
    /// caller answers for material that does not fit together. Fails with
    /// `InvalidLength` unless `bytes` is exactly 64 bytes long.
    pub fn from_secret(bytes: &[u8]) -> (r: Result<Keypair, LedgerError>)
        ensures
            keypair_view(r) == secret_accepted(bytes@),
    {
        if bytes.len() != 64 {
            return Err(LedgerError::InvalidLength);
        }
        Ok(Keypair { secret: to_array::<64>(bytes) })
    }

    /// Rebuilds a pair from its 64 bytes as `from_secret` does, but derives
    /// the public key from the seed and compares. Fails with `InvalidLength`
    /// unless `bytes` is exactly 64 bytes long, and with `InvalidPubkey`
    /// where the embedded public key is not the derived one.
    pub fn from_secret_verified(bytes: &[u8]) -> (r: Result<Keypair, LedgerError>)
        ensures
            keypair_view(r) == secret_verified(bytes@),
    {
        if bytes.len() != 64 {
            return Err(LedgerError::InvalidLength);
        }
        let secret = to_array::<64>(bytes);
        let seed = to_array::<32>(slice_subrange(bytes, 0, 32));
        let derived = derive_public_key(&seed);
        assert(seed@ == seed_of(bytes@));
        let mut i: usize = 0;
        while i < 32
            invariant
                i <= 32,
                secret@ == bytes@,
                bytes@.len() == 64,
                derived@ == ed25519_public_key(seed_of(bytes@)),
                forall|j: int| 0 <= j < i ==> secret@[32 + j] == derived@[j],
            decreases 32 - i,
        {
            if secret[32 + i] != derived[i] {
                assert(public_of(secret@)[i as int] != derived@[i as int]);
                return Err(LedgerError::InvalidPubkey);
            }
            i += 1;
        }
        assert(public_of(secret@) =~= derived@);
        Ok(Keypair { secret })
    }

    /// The pair's public key: the second half of its secret material.
    pub fn public_key(&self) -> (key: PublicKey)
        ensures
            key@ == public_of(self@),
    {
        PublicKey { bytes: to_array::<32>(slice_subrange(self.secret.as_slice(), 32, 64)) }
    }

    /// The pair's 64 bytes, seed first.
    pub fn secret_bytes(&self) -> (bytes: [u8; 64])
        ensures
            bytes@ == self@,
    {
        self.secret
    }
}

} // verus!
