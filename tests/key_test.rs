use aesculap::key::{AES128Key, AES192Key, AES256Key, GenericKey, Key};

#[test]
fn aes128_key_schedule() {
    let original_key = b"0123456789abcdef";
    let key = AES128Key::from_bytes(*original_key);

    let round_keys = key.generate_round_keys();

    let expected_round_keys = [
        0x30313233343536373839616263646566,
        0x727c01c8464937ff7e70569d1d1433fb,
        0x8abf0e6cccf63993b2866f0eaf925cf5,
        0xc1f5e8150d03d186bf85be881017e27d,
        0x396d17df346ec6598beb78d19bfc9aac,
        0x99d586cbadbb409226503843bdaca2ef,
        0x28ef59b185541923a30421601ea8838f,
        0xaa032ac32f5733e08c53128092fb910f,
        0x25825c8c0ad56f6c86867dec147dece3,
        0xc14c4d76cb99221a4d1f5ff65962b315,
        0x5d2114bd96b836a7dba7695182c5da44,
    ];

    assert_eq!(round_keys, expected_round_keys);
}

#[test]
fn key_schedule_is_deterministic() {
    let a = AES128Key::from_bytes(*b"0123456789abcdef");
    let b = AES128Key::from_bytes(*b"0123456789abcdef");
    assert_eq!(a.generate_round_keys(), b.generate_round_keys());
    assert_eq!(a.generate_round_keys(), a.generate_round_keys());
}

#[test]
fn round_key_counts() {
    let k128 = AES128Key::from_bytes([1; 16]);
    let k192 = AES192Key::from_bytes([1; 24]);
    let k256 = AES256Key::from_bytes([1; 32]);
    assert_eq!(k128.round_keys().len(), 11);
    assert_eq!(k192.round_keys().len(), 13);
    assert_eq!(k256.round_keys().len(), 15);
}

#[test]
fn first_round_key_is_the_raw_key() {
    let k192 = AES192Key::from_bytes(*b"0123456789abcdef01234567");
    assert_eq!(k192.round_keys()[0], 0x30313233343536373839616263646566);
    let k256 = AES256Key::from_bytes(*b"0123456789abcdef0123456789abcdef");
    let keys = k256.round_keys();
    assert_eq!(keys[0], 0x30313233343536373839616263646566);
    assert_eq!(keys[1], 0x30313233343536373839616263646566);
}

#[test]
fn generic_key_from_words() {
    let words: [u32; 4] = [0x30313233, 0x34353637, 0x38396162, 0x63646566];
    let key: GenericKey<4, 11> = GenericKey::new(words);
    let from_bytes = AES128Key::from_bytes(*b"0123456789abcdef");
    assert_eq!(key.generate_round_keys(), from_bytes.generate_round_keys());
    assert_eq!(key.generate_round_keys()[1], 0x727c01c8464937ff7e70569d1d1433fb);
}

#[test]
fn fips197_key_expansion_last_words() {
    // the AES-128 example key of FIPS-197, appendix A.1
    let key = AES128Key::from_bytes([
        0x2b, 0x7e, 0x15, 0x16, 0x28, 0xae, 0xd2, 0xa6, 0xab, 0xf7, 0x15, 0x88, 0x09, 0xcf, 0x4f,
        0x3c,
    ]);
    let keys = key.generate_round_keys();
    assert_eq!(keys[1], 0xa0fafe1788542cb123a339392a6c7605);
    assert_eq!(keys[10], 0xd014f9a8c9ee2589e13f0cc8b6630ca6);
}
