use tplink_hs110::cipher::{deobfuscate, obfuscate, INITIAL_KEY};

#[test]
fn cipher_round_trip_restores_the_plaintext() {
    let plain = b"{\"system\":{\"get_sysinfo\":{}}}".to_vec();
    let cipher = obfuscate(INITIAL_KEY, &plain);
    assert_eq!(cipher.len(), plain.len());
    assert_ne!(cipher, plain);
    assert_eq!(deobfuscate(INITIAL_KEY, &cipher), plain);
}

#[test]
fn cipher_round_trip_holds_for_every_single_byte() {
    for byte in 0..=255u8 {
        let cipher = obfuscate(INITIAL_KEY, &[byte]);
        assert_eq!(cipher, vec![INITIAL_KEY ^ byte]);
        assert_eq!(deobfuscate(INITIAL_KEY, &cipher), vec![byte]);
    }
}

#[test]
fn cipher_seed_is_171() {
    assert_eq!(INITIAL_KEY, 171);
    assert_eq!(obfuscate(INITIAL_KEY, &[0]), vec![171]);
}

#[test]
fn cipher_matches_a_known_vector() {
    assert_eq!(obfuscate(INITIAL_KEY, b"abc"), vec![202, 168, 203]);
    assert_eq!(deobfuscate(INITIAL_KEY, &[202, 168, 203]), b"abc".to_vec());
}

#[test]
fn cipher_of_nothing_is_nothing() {
    assert_eq!(obfuscate(INITIAL_KEY, &[]), Vec::<u8>::new());
    assert_eq!(deobfuscate(INITIAL_KEY, &[]), Vec::<u8>::new());
}

#[test]
fn cipher_chains_the_key_off_the_ciphertext() {
    // Enciphering zeros repeats the running key, which is the last output.
    assert_eq!(obfuscate(7, &[0, 0, 0]), vec![7, 7, 7]);
    assert_eq!(obfuscate(7, &[1, 0, 2]), vec![6, 6, 4]);
    // Deciphering takes the key from the input, not from its own output.
    assert_eq!(deobfuscate(7, &[7, 7, 7]), vec![0, 0, 0]);
    assert_eq!(deobfuscate(7, &[6, 6, 4]), vec![1, 0, 2]);
    // The two passes differ: neither is its own inverse.
    assert_eq!(obfuscate(7, &[6, 6, 4]), vec![1, 7, 3]);
}

#[test]
fn cipher_inverts_in_both_orders() {
    let bytes: Vec<u8> = (0..=255u8).rev().collect();
    assert_eq!(deobfuscate(99, &obfuscate(99, &bytes)), bytes);
    assert_eq!(obfuscate(99, &deobfuscate(99, &bytes)), bytes);
}

#[test]
fn cipher_of_a_prefix_is_a_prefix_of_the_cipher() {
    let plain = b"emeter get_realtime".to_vec();
    let whole = obfuscate(INITIAL_KEY, &plain);
    for n in 0..=plain.len() {
        assert_eq!(obfuscate(INITIAL_KEY, &plain[..n]), whole[..n].to_vec());
    }
}

#[test]
fn cipher_depends_on_the_seed() {
    assert_ne!(obfuscate(1, b"x"), obfuscate(2, b"x"));
    assert_ne!(deobfuscate(1, &obfuscate(2, b"x")), b"x".to_vec());
}
