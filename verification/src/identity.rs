//! Per-worker signing identities.
//!
//! Each worker slot receives a fresh Ed25519 keypair of its own. The key
//! type and its generation belong to `ed25519_dalek`; they are declared
//! here so slots can carry a key, and nothing is assumed about the random
//! key material itself.

use vstd::prelude::*;

verus! {

/// Declares `ed25519_dalek::SigningKey` so worker slots can hold one; the
/// key is opaque to the coordinator, which never reads it.
#[verifier::external_type_specification]
#[verifier::external_body]
pub struct ExSigningKey(ed25519_dalek::SigningKey);

/// Relies on `ed25519_dalek::SigningKey::generate` with the operating
/// system's secure random source `rand_core::OsRng`. The key is random,
/// so nothing is promised of its value.
#[verifier::external_body]
pub(crate) fn generate_signing_key() -> (key: ed25519_dalek::SigningKey) {
    let mut csprng = rand_core::OsRng;
    ed25519_dalek::SigningKey::generate(&mut csprng)
}

} // verus!
