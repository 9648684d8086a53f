use aesculap::block::Block;
use aesculap::decryption::{decrypt_block, decrypt_bytes};
use aesculap::encryption::{encrypt_block, encrypt_bytes};
use aesculap::key::{AES128Key, AES192Key, AES256Key};
use aesculap::padding::Padding;
use aesculap::{EncryptionMode, InitializationVector};

const NIST_KEY: [u8; 16] = [
    0x2b, 0x7e, 0x15, 0x16, 0x28, 0xae, 0xd2, 0xa6, 0xab, 0xf7, 0x15, 0x88, 0x09, 0xcf, 0x4f, 0x3c,
];

const NIST_PLAIN: [u8; 32] = [
    0x6b, 0xc1, 0xbe, 0xe2, 0x2e, 0x40, 0x9f, 0x96, 0xe9, 0x3d, 0x7e, 0x11, 0x73, 0x93, 0x17, 0x2a,
    0xae, 0x2d, 0x8a, 0x57, 0x1e, 0x03, 0xac, 0x9c, 0x9e, 0xb7, 0x6f, 0xac, 0x45, 0xaf, 0x8e, 0x51,
];

fn nist_iv() -> InitializationVector {
    InitializationVector::from_bytes([
        0x00, 0x01, 0x02, 0x03, 0x04, 0x05, 0x06, 0x07, 0x08, 0x09, 0x0a, 0x0b, 0x0c, 0x0d, 0x0e,
        0x0f,
    ])
}

#[test]
fn known_answer_ecb_single_block() {
    let key = AES128Key::from_bytes(*b"This is a test12");
    let out = encrypt_bytes(b"I use Rust btw<3", &key, &Padding::ZeroPadding, EncryptionMode::ECB);
    let expected = vec![
        0x65, 0xdd, 0x99, 0xdf, 0x25, 0xb9, 0xaa, 0x5a, 0x16, 0xb9, 0x40, 0x6f, 0x96, 0xf3, 0x7e,
        0xb1,
    ];
    assert_eq!(out, expected);
}

#[test]
fn nist_ecb_aes128() {
    let key = AES128Key::from_bytes(NIST_KEY);
    let out = encrypt_bytes(&NIST_PLAIN[..16], &key, &Padding::ZeroPadding, EncryptionMode::ECB);
    let expected = vec![
        0x3a, 0xd7, 0x7b, 0xb4, 0x0d, 0x7a, 0x36, 0x60, 0xa8, 0x9e, 0xca, 0xf3, 0x24, 0x66, 0xef,
        0x97,
    ];
    assert_eq!(out, expected);
}

#[test]
fn nist_cbc_aes128() {
    let key = AES128Key::from_bytes(NIST_KEY);
    let out = encrypt_bytes(&NIST_PLAIN, &key, &Padding::ZeroPadding, EncryptionMode::CBC(nist_iv()));
    let expected = vec![
        0x76, 0x49, 0xab, 0xac, 0x81, 0x19, 0xb2, 0x46, 0xce, 0xe9, 0x8e, 0x9b, 0x12, 0xe9, 0x19,
        0x7d, 0x50, 0x86, 0xcb, 0x9b, 0x50, 0x72, 0x19, 0xee, 0x95, 0xdb, 0x11, 0x3a, 0x91, 0x76,
        0x78, 0xb2,
    ];
    assert_eq!(out, expected);
    let back = decrypt_bytes(&out, &key, None, EncryptionMode::CBC(nist_iv())).unwrap();
    assert_eq!(back, NIST_PLAIN.to_vec());
}

#[test]
fn decrypt_block_inverts_encrypt_block() {
    let key = AES256Key::from_bytes([0x42; 32]);
    let original = Block::from_bytes(*b"sixteen byte msg");
    let mut block = original;
    encrypt_block(&mut block, &key);
    assert_ne!(block, original);
    decrypt_block(&mut block, &key);
    assert_eq!(block, original);
}

#[test]
fn round_trip_all_key_sizes_and_modes() {
    let plain: Vec<u8> = (0..64u8).map(|i| i.wrapping_mul(37)).collect();
    let k128 = AES128Key::from_bytes([3; 16]);
    let k192 = AES192Key::from_bytes([4; 24]);
    let k256 = AES256Key::from_bytes([5; 32]);
    let iv = InitializationVector::from_bytes([9; 16]);
    for mode in [EncryptionMode::ECB, EncryptionMode::CBC(iv)] {
        let c = encrypt_bytes(&plain, &k128, &Padding::ZeroPadding, mode);
        assert_eq!(c.len(), 64);
        assert_eq!(decrypt_bytes(&c, &k128, None, mode).unwrap(), plain);
        let c = encrypt_bytes(&plain, &k192, &Padding::ZeroPadding, mode);
        assert_eq!(decrypt_bytes(&c, &k192, None, mode).unwrap(), plain);
        let c = encrypt_bytes(&plain, &k256, &Padding::ZeroPadding, mode);
        assert_eq!(decrypt_bytes(&c, &k256, None, mode).unwrap(), plain);
    }
}

#[test]
fn round_trip_with_pkcs7_padding() {
    let key = AES128Key::from_bytes(*b"0123456789abcdef");
    let iv = InitializationVector::from_bytes([0x11; 16]);
    for len in [0usize, 1, 15, 16, 17, 40] {
        let plain: Vec<u8> = (0..len).map(|i| i as u8).collect();
        for mode in [EncryptionMode::ECB, EncryptionMode::CBC(iv)] {
            let c = encrypt_bytes(&plain, &key, &Padding::Pkcs, mode);
            assert_eq!(c.len(), (len / 16 + 1) * 16);
            assert_eq!(decrypt_bytes(&c, &key, Some(Padding::Pkcs), mode).unwrap(), plain);
        }
    }
}

#[test]
fn empty_plaintext_pkcs7_gives_one_block() {
    let key = AES128Key::from_bytes(*b"0123456789abcdef");
    let c = encrypt_bytes(&[], &key, &Padding::Pkcs, EncryptionMode::ECB);
    let expected = vec![
        0x37, 0x72, 0x22, 0xe0, 0x61, 0xa9, 0x24, 0xc5, 0x91, 0xcd, 0x9c, 0x27, 0xea, 0x16, 0x3e,
        0xd4,
    ];
    assert_eq!(c, expected);
    let blocks = Block::load(&[], Padding::Pkcs);
    assert_eq!(blocks.len(), 1);
    assert_eq!(blocks[0].dump_bytes(), [16u8; 16]);
}

#[test]
fn empty_ciphertext_decrypts_to_empty() {
    let key = AES128Key::from_bytes(*b"0123456789abcdef");
    let iv = InitializationVector::from_bytes([0; 16]);
    for mode in [EncryptionMode::ECB, EncryptionMode::CBC(iv)] {
        assert_eq!(decrypt_bytes(&[], &key, None, mode).unwrap(), Vec::<u8>::new());
        assert_eq!(decrypt_bytes(&[], &key, Some(Padding::Pkcs), mode).unwrap(), Vec::<u8>::new());
        assert_eq!(encrypt_bytes(&[], &key, &Padding::ZeroPadding, mode), Vec::<u8>::new());
    }
}

#[test]
fn decrypt_rejects_unaligned_input() {
    let key = AES128Key::from_bytes(*b"0123456789abcdef");
    let r = decrypt_bytes(&[0u8; 17], &key, Some(Padding::Pkcs), EncryptionMode::ECB);
    assert_eq!(r, Err("Number of bytes not divisible by 16"));
    let r = decrypt_bytes(&[0u8; 5], &key, None, EncryptionMode::ECB);
    assert!(r.is_err());
}

#[test]
fn ecb_repeats_equal_blocks_cbc_does_not() {
    let key = AES128Key::from_bytes(*b"0123456789abcdef");
    let plain = [0x55u8; 32];
    let ecb = encrypt_bytes(&plain, &key, &Padding::ZeroPadding, EncryptionMode::ECB);
    assert_eq!(ecb[..16], ecb[16..]);
    let iv = InitializationVector::from_bytes([1; 16]);
    let cbc = encrypt_bytes(&plain, &key, &Padding::ZeroPadding, EncryptionMode::CBC(iv));
    assert_ne!(cbc[..16], cbc[16..]);
}

#[test]
fn initialization_vector_bytes() {
    let bytes = [0xabu8; 16];
    let iv = InitializationVector::from_bytes(bytes);
    assert_eq!(iv.into_bytes(), bytes);
    assert_eq!(iv.block().dump_bytes(), bytes);
    let random = InitializationVector::random();
    assert_eq!(random.into_bytes().len(), 16);
}
