//! Fresh ed25519 keypairs for keystore-backed accounts.

use rand::RngCore;
use vstd::prelude::*;
use crate::codec::{base58_encode, bs58_encode};

verus! {

/// The ed25519 public key that `ed25519_dalek` derives from a 32-byte secret key.
pub uninterp spec fn ed25519_public_key(secret: Seq<u8>) -> Seq<u8>;

/// Draws 32 secret-key bytes from the operating system's random source with
/// `rand::rngs::OsRng::try_fill_bytes` (the source that `ed25519_dalek::SigningKey::generate`
/// reads), or the text of its error. Nothing is claimed of the bytes: they are random.
#[verifier::external_body]
fn random_secret_key() -> (res: Result<[u8; 32], String>) {
    let mut secret = [0u8; 32];
    match rand::rngs::OsRng.try_fill_bytes(&mut secret) {
        Ok(()) => Ok(secret),
        Err(e) => Err(e.to_string()),
    }
}

/// The verifying (public) key of `ed25519_dalek::SigningKey::from_bytes(secret)`. Claimed: a
/// function of the secret alone (`ed25519_public_key`).
#[verifier::external_body]
fn verifying_key_of(secret: &[u8; 32]) -> (res: [u8; 32])
    ensures
        res@ == ed25519_public_key(secret@),
{
    ed25519_dalek::SigningKey::from_bytes(secret).verifying_key().to_bytes()
}

/// The 64-byte keypair layout: the secret key, then the public key.
pub fn assemble_keypair(secret: &[u8; 32], public: &[u8; 32]) -> (res: Vec<u8>)
    ensures
        res@ == secret@ + public@,
        res@.len() == 64,
{
    assert(public@.len() == 32);
    assert(secret@.len() == 32);
    let mut keypair_bytes: Vec<u8> = Vec::with_capacity(64);
    let mut i: usize = 0;
    while i < 32
        invariant
            i <= 32,
            secret@.len() == 32,
            keypair_bytes@ == secret@.subrange(0, i as int),
        decreases 32 - i,
    {
        keypair_bytes.push(secret[i]);
        i = i + 1;
        assert(keypair_bytes@ =~= secret@.subrange(0, i as int));
    }
    let mut j: usize = 0;
    while j < 32
        invariant
            j <= 32,
            secret@.len() == 32,
            public@.len() == 32,
            keypair_bytes@ == secret@ + public@.subrange(0, j as int),
        decreases 32 - j,
    {
        keypair_bytes.push(public[j]);
        j = j + 1;
        assert(keypair_bytes@ =~= secret@ + public@.subrange(0, j as int));
    }
    assert(public@.subrange(0, 32) =~= public@);
    keypair_bytes
}

/// The 64-byte keypair layout (secret key, then public key) and the base58 text of the public
/// key, for a given secret key.
pub fn keypair_from_secret(secret: &[u8; 32]) -> (res: (Vec<u8>, String))
    ensures
        res.0@ == secret@ + ed25519_public_key(secret@),
        res.1@ == base58_encode(ed25519_public_key(secret@)),
        secret@.len() == 32,
        ed25519_public_key(secret@).len() == 32,
{
    let public = verifying_key_of(secret);
    assert(public@.len() == 32);
    assert(secret@.len() == 32);
    let keypair_bytes = assemble_keypair(secret, &public);
    let pubkey_b58 = bs58_encode(&public);
    (keypair_bytes, pubkey_b58)
}

/// Generates a fresh keypair: the 64 keypair bytes (random secret key followed by its public
/// key) and the base58 text of the public key; or the error of the random source, when it
/// could not be read.
pub fn generate_keypair() -> (res: Result<(Vec<u8>, String), String>)
    ensures
        res matches Ok(pair) ==> pair.0@.len() == 64
            && pair.0@.subrange(32, 64) == ed25519_public_key(pair.0@.subrange(0, 32))
            && pair.1@ == base58_encode(pair.0@.subrange(32, 64)),
{
    let secret = match random_secret_key() {
        Ok(secret) => secret,
        Err(e) => return Err(e),
    };
    let res = keypair_from_secret(&secret);
    assert(res.0@.subrange(0, 32) =~= secret@);
    assert(res.0@.subrange(32, 64) =~= ed25519_public_key(secret@));
    Ok(res)
}

} // verus!
