//! Code generation: the keyed hash of a counter, truncated.
use vstd::prelude::*;

use crate::truncation::{code_of, truncate, CODE_MODULUS};

verus! {

/// The 32-byte BLAKE3 digest of `message` in keyed mode under `key`.
pub uninterp spec fn keyed_hash_of(key: Seq<u8>, message: Seq<u8>) -> Seq<u8>;

/// Relies on blake3::keyed_hash: the keyed-mode digest of `message` under
/// `key`, which depends on these two values alone.
#[verifier::external_body]
fn keyed_digest(key: &[u8; 32], message: &[u8; 8]) -> (r: [u8; 32])
    ensures
        r@ == keyed_hash_of(key@, message@),
{
    *blake3::keyed_hash(key, message).as_bytes()
}

/// `counter` as eight bytes, most significant first.
pub open spec fn be_bytes(counter: u64) -> Seq<u8> {
    seq![
        (counter / 0x100_0000_0000_0000) as u8,
        (counter / 0x1_0000_0000_0000 % 0x100) as u8,
        (counter / 0x100_0000_0000 % 0x100) as u8,
        (counter / 0x1_0000_0000 % 0x100) as u8,
        (counter / 0x100_0000 % 0x100) as u8,
        (counter / 0x1_0000 % 0x100) as u8,
        (counter / 0x100 % 0x100) as u8,
        (counter % 0x100) as u8,
    ]
}

/// The code for `counter` under `secret`.
pub open spec fn botp_code(counter: u64, secret: Seq<u8>) -> nat {
    code_of(keyed_hash_of(secret, be_bytes(counter)))
}

/// Serialises `counter` big-endian.
pub fn counter_bytes(counter: u64) -> (r: [u8; 8])
    ensures
        r@ == be_bytes(counter),
{
    let r: [u8; 8] = [
        (counter / 0x100_0000_0000_0000) as u8,
        (counter / 0x1_0000_0000_0000 % 0x100) as u8,
        (counter / 0x100_0000_0000 % 0x100) as u8,
        (counter / 0x1_0000_0000 % 0x100) as u8,
        (counter / 0x100_0000 % 0x100) as u8,
        (counter / 0x1_0000 % 0x100) as u8,
        (counter / 0x100 % 0x100) as u8,
        (counter % 0x100) as u8,
    ];
    assert(r@ =~= be_bytes(counter));
    r
}

/// The eleven-digit code for `counter` under `secret`.
pub fn botp(counter: u64, secret: [u8; 32]) -> (code: u64)
    ensures
        code as nat == botp_code(counter, secret@),
        code < CODE_MODULUS,
{
    let message = counter_bytes(counter);
    let digest = keyed_digest(&secret, &message);
    truncate(&digest)
}

/// Generation is a function of the counter and the secret: two codes
/// obtained for the same pair are the same code.
pub proof fn lemma_botp_deterministic(counter: u64, secret: [u8; 32], first: u64, second: u64)
    requires
        first as nat == botp_code(counter, secret@),
        second as nat == botp_code(counter, secret@),
    ensures
        first == second,
{
}

/// Every code lies below `CODE_MODULUS`, so it has at most eleven digits.
pub proof fn lemma_botp_in_range(counter: u64, secret: [u8; 32])
    ensures
        botp_code(counter, secret@) < CODE_MODULUS,
{
}

} // verus!
