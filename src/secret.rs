//! Secret keys drawn from a ChaCha20 generator seeded by the operating system.
use vstd::prelude::*;

use rand::rngs::OsRng;
use rand::{RngCore, SeedableRng};
use rand_chacha::ChaCha20Rng;


verus! {

#[verifier::external_type_specification]
#[verifier::external_body]
pub struct ExChaCha20Rng(rand_chacha::ChaCha20Rng);

/// Relies on SeedableRng::from_rng with OsRng: a ChaCha20 generator seeded
/// from the operating system's entropy source, or `None` where that source
/// reported an error.
#[verifier::external_body]
fn seeded_generator() -> (r: Option<ChaCha20Rng>) {
    ChaCha20Rng::from_rng(OsRng).ok()
}

/// Relies on RngCore::try_fill_bytes of ChaCha20Rng: fills `buffer` with the
/// generator's output; `false` where it reported an error.
#[verifier::external_body]
fn fill_from(generator: &mut ChaCha20Rng, buffer: &mut [u8; 32]) -> (r: bool) {
    generator.try_fill_bytes(buffer).is_ok()
}

/// A fresh 32-byte secret. When the entropy source fails, no key material
/// is handed out: the result is `RandomBytesError`.
pub fn generate_secret_key() -> (r: Result<[u8; 32], crate::error::Error>)
    ensures
        match r {
            Ok(_) => true,
            Err(e) => e == crate::error::Error::RandomBytesError,
        },
{
    let mut generator = match seeded_generator() {
        Some(g) => g,
        None => return Err(crate::error::Error::RandomBytesError),
    };
    let mut secret_key: [u8; 32] = [0; 32];
    if fill_from(&mut generator, &mut secret_key) {
        Ok(secret_key)
    } else {
        Err(crate::error::Error::RandomBytesError)
    }
}

} // verus!
