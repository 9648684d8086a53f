use aesculap::block::Block;

#[test]
fn sub_bytes_step() {
    let state = [
        [0x0, 0x1, 0x2, 0x3],
        [0x4, 0x5, 0x6, 0x7],
        [0x8, 0x9, 0xa, 0xb],
        [0xc, 0xd, 0xe, 0xf],
    ];

    let sboxed_state = [
        [0x63, 0x7c, 0x77, 0x7b],
        [0xf2, 0x6b, 0x6f, 0xc5],
        [0x30, 0x01, 0x67, 0x2b],
        [0xfe, 0xd7, 0xab, 0x76],
    ];

    let mut block = Block::new(state);
    block.sub_bytes();

    let expected_block = Block::new(sboxed_state);

    assert_eq!(block, expected_block);
}

#[test]
fn sub_bytes_inv_step() {
    let state = [
        [0x0, 0x1, 0x2, 0x3],
        [0x4, 0x5, 0x6, 0x7],
        [0x8, 0x9, 0xa, 0xb],
        [0xc, 0xd, 0xe, 0xf],
    ];

    let sboxed_state = [
        [0x63, 0x7c, 0x77, 0x7b],
        [0xf2, 0x6b, 0x6f, 0xc5],
        [0x30, 0x01, 0x67, 0x2b],
        [0xfe, 0xd7, 0xab, 0x76],
    ];

    let mut block = Block::new(sboxed_state);
    block.sub_bytes_inv();

    let expected_block = Block::new(state);

    assert_eq!(block, expected_block);
}

#[test]
fn shift_rows_step() {
    let state = [
        [0x0, 0x1, 0x2, 0x3],
        [0x4, 0x5, 0x6, 0x7],
        [0x8, 0x9, 0xa, 0xb],
        [0xc, 0xd, 0xe, 0xf],
    ];

    let shifted_state = [
        [0x0, 0x5, 0xa, 0xf],
        [0x4, 0x9, 0xe, 0x3],
        [0x8, 0xd, 0x2, 0x7],
        [0xc, 0x1, 0x6, 0xb],
    ];

    let mut block = Block::new(state);
    block.shift_rows();

    let expected_block = Block::new(shifted_state);

    assert_eq!(block, expected_block);
}

#[test]
fn shift_rows_inv_step() {
    let state = [
        [0x0, 0x1, 0x2, 0x3],
        [0x4, 0x5, 0x6, 0x7],
        [0x8, 0x9, 0xa, 0xb],
        [0xc, 0xd, 0xe, 0xf],
    ];

    let shifted_state = [
        [0x0, 0x5, 0xa, 0xf],
        [0x4, 0x9, 0xe, 0x3],
        [0x8, 0xd, 0x2, 0x7],
        [0xc, 0x1, 0x6, 0xb],
    ];

    let mut block = Block::new(shifted_state);
    block.shift_rows_inv();

    let expected_block = Block::new(state);

    assert_eq!(block, expected_block);
}

#[test]
fn mix_columns_step() {
    let state = [
        [0xdb, 0x13, 0x53, 0x45],
        [0xf2, 0x0a, 0x22, 0x5c],
        [0xc6, 0xc6, 0xc6, 0xc6],
        [0xd4, 0xd4, 0xd4, 0xd5],
    ];

    let mixed_state = [
        [0x8e, 0x4d, 0xa1, 0xbc],
        [0x9f, 0xdc, 0x58, 0x9d],
        [0xc6, 0xc6, 0xc6, 0xc6],
        [0xd5, 0xd5, 0xd7, 0xd6],
    ];

    let mut block = Block::new(state);
    block.mix_columns();

    let expected_block = Block::new(mixed_state);

    assert_eq!(block, expected_block);
}

#[test]
fn mix_columns_inv_step() {
    let state = [
        [0xdb, 0x13, 0x53, 0x45],
        [0xf2, 0x0a, 0x22, 0x5c],
        [0xc6, 0xc6, 0xc6, 0xc6],
        [0xd4, 0xd4, 0xd4, 0xd5],
    ];

    let mixed_state = [
        [0x8e, 0x4d, 0xa1, 0xbc],
        [0x9f, 0xdc, 0x58, 0x9d],
        [0xc6, 0xc6, 0xc6, 0xc6],
        [0xd5, 0xd5, 0xd7, 0xd6],
    ];

    let mut block = Block::new(mixed_state);
    block.mix_columns_inv();

    let expected_block = Block::new(state);

    assert_eq!(block, expected_block);
}

#[test]
fn add_round_key_step() {
    let state = [
        [0x59, 0x1c, 0xee, 0xa1],
        [0xc2, 0x86, 0x36, 0xd1],
        [0xca, 0xdd, 0xaf, 0x02],
        [0x4a, 0x27, 0xdc, 0xa2],
    ];

    let subkey = 0x62636363626363636263636362636363;

    let added_state = [
        [0x3b, 0x7f, 0x8d, 0xc2],
        [0xa0, 0xe5, 0x55, 0xb2],
        [0xa8, 0xbe, 0xcc, 0x61],
        [0x28, 0x44, 0xbf, 0xc1],
    ];

    let mut block = Block::new(state);
    block.add_round_key(subkey);

    let expected_block = Block::new(added_state);

    assert_eq!(block, expected_block);
}

#[test]
fn from_bytes_is_column_major() {
    let bytes: [u8; 16] = [
        0x0, 0x1, 0x2, 0x3, 0x4, 0x5, 0x6, 0x7, 0x8, 0x9, 0xa, 0xb, 0xc, 0xd, 0xe, 0xf,
    ];
    let block = Block::from_bytes(bytes);
    let expected = Block::new([
        [0x0, 0x1, 0x2, 0x3],
        [0x4, 0x5, 0x6, 0x7],
        [0x8, 0x9, 0xa, 0xb],
        [0xc, 0xd, 0xe, 0xf],
    ]);
    assert_eq!(block, expected);
    assert_eq!(block.dump_bytes(), bytes);
}

#[test]
fn mix_columns_then_inverse_is_identity() {
    let bytes: [u8; 16] = [
        0x01, 0x23, 0x45, 0x67, 0x89, 0xab, 0xcd, 0xef, 0xfe, 0xdc, 0xba, 0x98, 0x76, 0x54, 0x32,
        0x10,
    ];
    let mut block = Block::from_bytes(bytes);
    block.mix_columns();
    assert_ne!(block.dump_bytes(), bytes);
    block.mix_columns_inv();
    assert_eq!(block.dump_bytes(), bytes);
}

#[test]
fn single_column_mix_vector() {
    let mut block = Block::new([
        [0xdb, 0x13, 0x53, 0x45],
        [0x01, 0x01, 0x01, 0x01],
        [0x2d, 0x26, 0x31, 0x4c],
        [0xd4, 0xd4, 0xd4, 0xd5],
    ]);
    block.mix_columns();
    let bytes = block.dump_bytes();
    assert_eq!(&bytes[0..4], &[0x8e, 0x4d, 0xa1, 0xbc]);
    assert_eq!(&bytes[4..8], &[0x01, 0x01, 0x01, 0x01]);
    assert_eq!(&bytes[8..12], &[0x4d, 0x7e, 0xbd, 0xf8]);
}

#[test]
fn add_round_key_twice_is_identity() {
    let bytes: [u8; 16] = [7; 16];
    let mut block = Block::from_bytes(bytes);
    block.add_round_key(0x0102030405060708090a0b0c0d0e0f10);
    assert_eq!(block.dump_bytes()[0], 7 ^ 0x01);
    assert_eq!(block.dump_bytes()[15], 7 ^ 0x10);
    block.add_round_key(0x0102030405060708090a0b0c0d0e0f10);
    assert_eq!(block.dump_bytes(), bytes);
}

#[test]
fn xor_of_blocks() {
    let a = Block::from_bytes([0xff; 16]);
    let b = Block::from_bytes([0x0f; 16]);
    assert_eq!(a.xor(b).dump_bytes(), [0xf0; 16]);
    let mut c = a;
    c.xor_assign(b);
    assert_eq!(c, a.xor(b));
}
