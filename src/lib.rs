//! One-time authentication codes from a keyed BLAKE3 hash.
//!
//! A code is derived from a time-step counter and a 32-byte secret: the
//! counter is hashed under the secret, eight bytes are picked from the digest
//! at an offset the digest itself selects (wrapping round its end), and the
//! big-endian integer they form is reduced to eleven decimal digits.
pub mod code;
pub mod counter;
pub mod error;
pub mod secret;
pub mod truncation;

pub use code::{botp, counter_bytes};
pub use counter::{counter_from_elapsed, get_counter};
pub use error::Error;
pub use secret::generate_secret_key;
pub use truncation::{binned_code, selection_offset, truncate, wrapped_index};
