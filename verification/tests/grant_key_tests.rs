use grant_relay::grant_key::grant_key;
use grant_relay::values::ProgramId;

#[test]
fn key_of_zero_id() {
    let id = ProgramId::new([0u8; 32]);
    let expected = format!("_grants_{}", "00".repeat(32));
    assert_eq!(grant_key(&id), expected);
}

#[test]
fn key_renders_bytes_as_lowercase_hex() {
    let mut bytes = [0u8; 32];
    for (i, b) in bytes.iter_mut().enumerate() {
        *b = i as u8;
    }
    let id = ProgramId::new(bytes);
    assert_eq!(
        grant_key(&id),
        "_grants_000102030405060708090a0b0c0d0e0f101112131415161718191a1b1c1d1e1f"
    );
}

#[test]
fn key_high_nibble_comes_first() {
    let mut bytes = [0xabu8; 32];
    bytes[0] = 0xf0;
    bytes[31] = 0x0f;
    let id = ProgramId::new(bytes);
    let expected = format!("_grants_f0{}0f", "ab".repeat(30));
    assert_eq!(grant_key(&id), expected);
}

#[test]
fn distinct_ids_get_distinct_keys() {
    let a = ProgramId::new([1u8; 32]);
    let b = ProgramId::new([2u8; 32]);
    assert_ne!(grant_key(&a), grant_key(&b));
}
