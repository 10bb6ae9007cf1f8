use botp::{binned_code, botp, counter_bytes, selection_offset, truncate, wrapped_index};

fn wrapping_digest() -> [u8; 32] {
    let mut d = [0u8; 32];
    for i in 0..31 {
        d[i] = 0x80 + i as u8;
    }
    // 55 % 28 == 27: the window starts four bytes before the end.
    d[31] = 55;
    d
}

#[test]
fn golden_vector_zero_secret_counter_zero() {
    assert_eq!(botp(0, [0u8; 32]), 47921266960);
}

#[test]
fn golden_vector_zero_secret_counter_one() {
    assert_eq!(botp(1, [0u8; 32]), 64645646992);
}

#[test]
fn repeated_generation_is_identical() {
    let secret = [7u8; 32];
    for counter in [0u64, 1, 59, 1_000_000, u64::MAX] {
        assert_eq!(botp(counter, secret), botp(counter, secret));
    }
}

#[test]
fn codes_stay_below_eleven_digits() {
    let mut secret = [0u8; 32];
    for counter in 0u64..200 {
        secret[(counter % 32) as usize] ^= counter as u8;
        let code = botp(counter, secret);
        assert!(code < 100_000_000_000);
        assert_eq!(format!("{:011}", code).len(), 11);
    }
}

#[test]
fn code_matches_keyed_hash_truncated() {
    let secret = [0x42u8; 32];
    for counter in [0u64, 3, 56_666_666] {
        let digest = *blake3::keyed_hash(&secret, &counter.to_be_bytes()).as_bytes();
        assert_eq!(botp(counter, secret), truncate(&digest));
    }
}

#[test]
fn different_counters_give_different_codes() {
    assert_ne!(botp(0, [0u8; 32]), botp(1, [0u8; 32]));
    assert_ne!(botp(0, [0u8; 32]), botp(0, [1u8; 32]));
}

#[test]
fn counter_serialised_big_endian() {
    assert_eq!(
        counter_bytes(0x0102_0304_0506_0708),
        [1, 2, 3, 4, 5, 6, 7, 8]
    );
    assert_eq!(counter_bytes(0), [0u8; 8]);
    assert_eq!(counter_bytes(u64::MAX), [0xffu8; 8]);
}

#[test]
fn wrapped_index_wraps_past_end() {
    let x = [1u8, 2, 3, 4];
    assert_eq!(wrapped_index(&x, 5), 2);
    assert_eq!(wrapped_index(&x, 4), 1);
    assert_eq!(wrapped_index(&x, 3), 4);
}

#[test]
fn window_at_offset_27_wraps_to_start() {
    let d = wrapping_digest();
    assert_eq!(selection_offset(&d), 27);
    // Indices 27, 28, 29, 30, 31, 0, 1, 2; the first byte loses its top bit.
    assert_eq!(binned_code(&d), 0x1b9c_9d9e_3780_8182);
    assert_eq!(truncate(&d), 38252478850);
}

#[test]
fn first_selected_byte_is_masked() {
    let d = [0xffu8; 32];
    assert_eq!(selection_offset(&d), 3);
    assert_eq!(binned_code(&d), 0x7fff_ffff_ffff_ffff);
    assert_eq!(truncate(&d), 36854775807);
}

#[test]
fn assembled_value_top_bit_always_clear() {
    for seed in 0u8..=255 {
        let mut d = [0u8; 32];
        for i in 0..32 {
            d[i] = seed.wrapping_mul(31).wrapping_add(i as u8 * 97) | 0x80;
        }
        assert!(binned_code(&d) >> 56 < 0x80);
    }
}

#[test]
fn zero_digest_gives_zero_code() {
    let d = [0u8; 32];
    assert_eq!(selection_offset(&d), 0);
    assert_eq!(binned_code(&d), 0);
    assert_eq!(truncate(&d), 0);
}
