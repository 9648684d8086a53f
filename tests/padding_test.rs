use aesculap::padding::{BytePadding, Padding, Pkcs7Padding, ZeroPadding};

#[test]
fn pkcs7_pad() {
    let bytes = [
        0xf1, 0x4a, 0xdb, 0xda, 0x01, 0x9d, 0x6d, 0xb7, 0xef, 0xd9, 0x15, 0x46, 0xe3, 0xff, 0x84,
        0x44, 0x9b, 0xcb,
    ];

    let expected = vec![
        [
            0xf1, 0x4a, 0xdb, 0xda, 0x01, 0x9d, 0x6d, 0xb7, 0xef, 0xd9, 0x15, 0x46, 0xe3, 0xff,
            0x84, 0x44,
        ],
        [
            0x9b, 0xcb, 0x0e, 0x0e, 0x0e, 0x0e, 0x0e, 0x0e, 0x0e, 0x0e, 0x0e, 0x0e, 0x0e, 0x0e,
            0x0e, 0x0e,
        ],
    ];

    let padding = Pkcs7Padding;
    let padded_bytes: Vec<[u8; 16]> = padding.pad(&bytes);

    assert_eq!(padded_bytes, expected);
}

#[test]
fn pkcs7_unpad() {
    let padded = vec![
        [
            0xf1, 0x4a, 0xdb, 0xda, 0x01, 0x9d, 0x6d, 0xb7, 0xef, 0xd9, 0x15, 0x46, 0xe3, 0xff,
            0x84, 0x44,
        ],
        [
            0x9b, 0xcb, 0x0e, 0x0e, 0x0e, 0x0e, 0x0e, 0x0e, 0x0e, 0x0e, 0x0e, 0x0e, 0x0e, 0x0e,
            0x0e, 0x0e,
        ],
    ];

    let expected = vec![
        0xf1, 0x4a, 0xdb, 0xda, 0x01, 0x9d, 0x6d, 0xb7, 0xef, 0xd9, 0x15, 0x46, 0xe3, 0xff, 0x84,
        0x44, 0x9b, 0xcb,
    ];

    let padding = Pkcs7Padding;
    let unpadded = padding.unpad(&padded);

    assert_eq!(unpadded, expected);
}

#[test]
fn pkcs7_pad_empty_is_one_full_block() {
    let padded = Padding::Pkcs.pad(&[]);
    assert_eq!(padded, vec![[16u8; 16]]);
}

#[test]
fn pkcs7_pad_aligned_adds_a_block() {
    let bytes = [0xaa; 16];
    let padded = Pkcs7Padding.pad(&bytes);
    assert_eq!(padded, vec![[0xaa; 16], [16u8; 16]]);
    assert_eq!(Pkcs7Padding.unpad(&padded), bytes.to_vec());
}

#[test]
fn pkcs7_unpad_oversized_count_is_empty() {
    let mut chunk = [1u8; 16];
    chunk[15] = 200;
    assert_eq!(Padding::Pkcs.unpad(&[chunk]), Vec::<u8>::new());
    assert_eq!(Padding::Pkcs.unpad(&[]), Vec::<u8>::new());
}

#[test]
fn byte_padding_fills_to_block() {
    let bytes = [1u8, 2, 3];
    let padded = BytePadding(0x69).pad(&bytes);
    let mut expected = [0x69u8; 16];
    expected[0] = 1;
    expected[1] = 2;
    expected[2] = 3;
    assert_eq!(padded, vec![expected]);
    assert_eq!(BytePadding(0x69).unpad(&padded), bytes.to_vec());
}

#[test]
fn byte_padding_aligned_adds_nothing() {
    let bytes = [5u8; 32];
    let padded = Padding::BytePadding(7).pad(&bytes);
    assert_eq!(padded, vec![[5u8; 16], [5u8; 16]]);
}

#[test]
fn byte_padding_loses_trailing_fill_bytes() {
    let bytes = [1u8, 0x69, 0x69];
    let padded = Padding::BytePadding(0x69).pad(&bytes);
    assert_eq!(Padding::BytePadding(0x69).unpad(&padded), vec![1u8]);
    let all_fill = [0x69u8; 16];
    assert_eq!(Padding::BytePadding(0x69).unpad(&[all_fill]), Vec::<u8>::new());
}

#[test]
fn zero_padding_round_trip() {
    let bytes: Vec<u8> = (1u8..=20).collect();
    let padded = ZeroPadding.pad(&bytes);
    assert_eq!(padded.len(), 2);
    assert_eq!(padded[1][4..], [0u8; 12]);
    assert_eq!(ZeroPadding.unpad(&padded), bytes);
    assert_eq!(Padding::ZeroPadding.unpad(&padded), bytes);
}

#[test]
fn padding_round_trip_all_lengths() {
    for len in 0..40usize {
        let bytes: Vec<u8> = (0..len).map(|i| (i as u8) + 1).collect();
        for padding in [Padding::Pkcs, Padding::BytePadding(0xee), Padding::ZeroPadding] {
            let padded = padding.pad(&bytes);
            assert_eq!(padded.len() * 16 >= bytes.len(), true);
            assert_eq!(padding.unpad(&padded), bytes);
        }
    }
}
