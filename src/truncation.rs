//! Dynamic truncation of a 32-byte digest into an eleven-digit code.
use vstd::prelude::*;

verus! {

/// Number of bytes in a digest.
pub const DIGEST_LEN: usize = 32;

/// The offset of the selection window is the last digest byte modulo this.
pub const OFFSET_BOUND: u8 = 28;

/// Codes are reduced modulo this, leaving eleven decimal digits.
pub const CODE_MODULUS: u64 = 100_000_000_000;

/// Position, within a digest, of the `k`-th byte of a window that starts at `offset`.
pub open spec fn window_index(offset: int, k: int) -> int {
    (offset + k) % (DIGEST_LEN as int)
}

/// Start of the selection window: the last digest byte modulo `OFFSET_BOUND`.
pub open spec fn offset_of(digest: Seq<u8>) -> int {
    (digest[DIGEST_LEN - 1] % OFFSET_BOUND) as int
}

/// The `k`-th selected byte after masking: the first loses its top bit.
pub open spec fn selected_byte(digest: Seq<u8>, k: int) -> u8 {
    let b = digest[window_index(offset_of(digest), k)];
    if k == 0 {
        b & 0x7f
    } else {
        b
    }
}

/// The eight selected bytes read as a big-endian integer.
pub open spec fn binned_value(digest: Seq<u8>) -> nat {
    selected_byte(digest, 0) as nat * 0x100_0000_0000_0000
        + selected_byte(digest, 1) as nat * 0x1_0000_0000_0000
        + selected_byte(digest, 2) as nat * 0x100_0000_0000
        + selected_byte(digest, 3) as nat * 0x1_0000_0000
        + selected_byte(digest, 4) as nat * 0x100_0000
        + selected_byte(digest, 5) as nat * 0x1_0000
        + selected_byte(digest, 6) as nat * 0x100
        + selected_byte(digest, 7) as nat
}

/// The code a digest truncates to.
pub open spec fn code_of(digest: Seq<u8>) -> nat {
    binned_value(digest) % (CODE_MODULUS as nat)
}

/// Reads `buffer` as a cycle: the byte at `index` modulo the length.
pub fn wrapped_index(buffer: &[u8], index: usize) -> (r: u8)
    requires
        buffer@.len() > 0,
    ensures
        r == buffer@[index as int % buffer@.len() as int],
{
    buffer[index % buffer.len()]
}

/// The start of the selection window of `digest`.
pub fn selection_offset(digest: &[u8; 32]) -> (offset: usize)
    ensures
        offset as int == offset_of(digest@),
        offset < OFFSET_BOUND,
{
    (digest[DIGEST_LEN - 1] % OFFSET_BOUND) as usize
}

/// The eight bytes of the selection window, first one masked to seven bits,
/// assembled most significant first.
pub fn binned_code(digest: &[u8; 32]) -> (r: u64)
    ensures
        r as nat == binned_value(digest@),
        r < 0x8000_0000_0000_0000u64,
{
    let offset = selection_offset(digest);
    let b0 = wrapped_index(digest, offset) & 0x7f;
    proof {
        lemma_masked_below_128(digest@[window_index(offset as int, 0)]);
    }
    let b1 = wrapped_index(digest, offset + 1);
    let b2 = wrapped_index(digest, offset + 2);
    let b3 = wrapped_index(digest, offset + 3);
    let b4 = wrapped_index(digest, offset + 4);
    let b5 = wrapped_index(digest, offset + 5);
    let b6 = wrapped_index(digest, offset + 6);
    let b7 = wrapped_index(digest, offset + 7);
    (b0 as u64) * 0x100_0000_0000_0000 + (b1 as u64) * 0x1_0000_0000_0000 + (b2 as u64)
        * 0x100_0000_0000 + (b3 as u64) * 0x1_0000_0000 + (b4 as u64) * 0x100_0000 + (b5 as u64)
        * 0x1_0000 + (b6 as u64) * 0x100 + (b7 as u64)
}

/// The eleven-digit code of `digest`.
pub fn truncate(digest: &[u8; 32]) -> (code: u64)
    ensures
        code as nat == code_of(digest@),
        code < CODE_MODULUS,
{
    binned_code(digest) % CODE_MODULUS
}

/// Every index of the selection window lies in the digest: a window that
/// runs past the last byte continues from the first one.
pub proof fn lemma_window_wraps(offset: int, k: int)
    requires
        0 <= offset < OFFSET_BOUND,
        0 <= k < 8,
    ensures
        0 <= window_index(offset, k) < DIGEST_LEN,
        offset + k < DIGEST_LEN ==> window_index(offset, k) == offset + k,
        offset + k >= DIGEST_LEN ==> window_index(offset, k) == offset + k - DIGEST_LEN,
{
}

/// The assembled value always has the top bit of its most significant byte
/// clear, since the first selected byte is masked to seven bits.
pub proof fn lemma_top_bit_clear(digest: Seq<u8>)
    requires
        digest.len() == DIGEST_LEN,
    ensures
        binned_value(digest) < 0x8000_0000_0000_0000,
        binned_value(digest) / 0x100_0000_0000_0000 < 0x80,
{
    lemma_masked_below_128(digest[window_index(offset_of(digest), 0)]);
}

proof fn lemma_masked_below_128(b: u8)
    ensures
        b & 0x7f < 128,
{
    assert(b & 0x7f < 128) by (bit_vector);
}

} // verus!
