//! Encryption module
//!
//! This module provides functions to encrypt [Block]s and bytes slices.

use vstd::prelude::*;

use crate::block::{
    add_round_key_spec, chunks, mix_columns_spec, shift_rows_spec, sub_bytes_spec, unchunk, views,
    xor_spec, Block,
};
use crate::init_vec::InitializationVector;
use crate::key::Key;
use crate::padding::Padding;
use crate::EncryptionMode;

verus! {

/// Encryption round `i` of `r` on state `s` with round key `key`.
pub open spec fn encrypt_round(s: Seq<u8>, key: u128, i: int, r: int) -> Seq<u8> {
    if i == 0 {
        add_round_key_spec(s, key)
    } else if i <= r - 2 {
        add_round_key_spec(mix_columns_spec(shift_rows_spec(sub_bytes_spec(s))), key)
    } else {
        add_round_key_spec(shift_rows_spec(sub_bytes_spec(s)), key)
    }
}

/// The state after the first `n` encryption rounds.
pub open spec fn encrypt_rounds(s: Seq<u8>, keys: Seq<u128>, n: nat) -> Seq<u8>
    decreases n,
{
    if n == 0 {
        s
    } else {
        encrypt_round(
            encrypt_rounds(s, keys, (n - 1) as nat),
            keys[n - 1],
            n - 1,
            keys.len() as int,
        )
    }
}

/// One block encrypted with the round keys `keys`, one round per key.
pub open spec fn encrypt_block_spec(s: Seq<u8>, keys: Seq<u128>) -> Seq<u8> {
    encrypt_rounds(s, keys, keys.len())
}

/// Ciphertext block `k` in CBC mode: plaintext block `k` XORed with the
/// previous ciphertext block (the IV for the first), then encrypted.
pub open spec fn cbc_cipher_block(blocks: Seq<Seq<u8>>, keys: Seq<u128>, iv: Seq<u8>, k: nat) -> Seq<
    u8,
>
    decreases k,
{
    let prev = if k == 0 {
        iv
    } else {
        cbc_cipher_block(blocks, keys, iv, (k - 1) as nat)
    };
    encrypt_block_spec(xor_spec(blocks[k as int], prev), keys)
}

/// The blocks encrypted in the given mode.
pub open spec fn encrypt_blocks_spec(blocks: Seq<Seq<u8>>, keys: Seq<u128>, mode: EncryptionMode) -> Seq<
    Seq<u8>,
> {
    match mode {
        EncryptionMode::ECB => Seq::new(blocks.len(), |k: int| encrypt_block_spec(blocks[k], keys)),
        EncryptionMode::CBC(iv) => Seq::new(
            blocks.len(),
            |k: int| cbc_cipher_block(blocks, keys, iv@, k as nat),
        ),
    }
}

/// Block-aligned bytes encrypted in the given mode.
pub open spec fn encrypt_message(p: Seq<u8>, keys: Seq<u128>, mode: EncryptionMode) -> Seq<u8> {
    unchunk(encrypt_blocks_spec(chunks(p), keys, mode))
}

/// Encrypt a [Block] using a [Key] type
pub fn encrypt_block<const R: usize, K>(block: &mut Block, key: &K) where K: Key<R>
    ensures
        final(block)@ == encrypt_block_spec(old(block)@, key.round_key_seq()),
{
    let round_keys = key.round_keys();
    let ghost keys = round_keys@;
    let ghost s0 = block@;
    let mut i: usize = 0;
    while i < R
        invariant
            0 <= i <= R,
            keys == round_keys@,
            keys.len() == R,
            block@ == encrypt_rounds(s0, keys, i as nat),
        decreases R - i,
    {
        let round_key = round_keys[i];
        if i == 0 {
            block.add_round_key(round_key);
        } else if i + 1 < R {
            block.sub_bytes();
            block.shift_rows();
            block.mix_columns();
            block.add_round_key(round_key);
        } else {
            block.sub_bytes();
            block.shift_rows();
            block.add_round_key(round_key);
        }
        i += 1;
    }
}

/// The bytes of a sequence of blocks, block after block.
fn dump_blocks(blocks: &Vec<Block>) -> (r: Vec<u8>)
    ensures
        r@ == unchunk(views(blocks@)),
{
    let mut out: Vec<u8> = Vec::new();
    let mut k: usize = 0;
    while k < blocks.len()
        invariant
            0 <= k <= blocks@.len(),
            out.len() == 16 * k,
            forall|i: int| 0 <= i < 16 * k ==> #[trigger] out[i] == blocks@[i / 16]@[i % 16],
        decreases blocks@.len() - k,
    {
        let bytes = blocks[k].dump_bytes();
        let mut j: usize = 0;
        while j < 16
            invariant
                0 <= j <= 16,
                0 <= k < blocks@.len(),
                bytes@ == blocks@[k as int]@,
                out.len() == 16 * k + j,
                forall|i: int| 0 <= i < 16 * k + j ==> #[trigger] out[i] == blocks@[i / 16]@[i % 16],
            decreases 16 - j,
        {
            out.push(bytes[j]);
            j += 1;
        }
        k += 1;
    }
    assert(out@ =~= unchunk(views(blocks@)));
    out
}

/// Encrypt a byte slice using a [Key] type
///
/// # Parameters
/// - `bytes`: byte slice to encrypt
/// - `key`: [Key] used for encryption
/// - `padding`: how the bytes are padded before encryption
/// - `mode`: [EncryptionMode] that is used for encryption
pub fn encrypt_bytes<const R: usize, K>(
    bytes: &[u8],
    key: &K,
    padding: &Padding,
    mode: EncryptionMode,
) -> (r: Vec<u8>) where K: Key<R>
    ensures
        r@ == encrypt_message(padding.pad_spec(bytes@), key.round_key_seq(), mode),
{
    let mut blocks = Block::load(bytes, *padding);
    match mode {
        EncryptionMode::ECB => ecb(&mut blocks, key),
        EncryptionMode::CBC(iv) => cbc(&mut blocks, key, iv),
    }
    dump_blocks(&blocks)
}

/// Implementation of [ECB](EncryptionMode) encryption
fn ecb<const R: usize, K>(blocks: &mut Vec<Block>, key: &K) where K: Key<R>
    ensures
        views(final(blocks)@) == encrypt_blocks_spec(
            views(old(blocks)@),
            key.round_key_seq(),
            EncryptionMode::ECB,
        ),
{
    let ghost orig = views(blocks@);
    let ghost keys = key.round_key_seq();
    let mut i: usize = 0;
    while i < blocks.len()
        invariant
            0 <= i <= blocks@.len(),
            blocks@.len() == orig.len(),
            keys == key.round_key_seq(),
            forall|k: int| 0 <= k < i ==> #[trigger] blocks@[k]@ == encrypt_block_spec(orig[k], keys),
            forall|k: int| i <= k < blocks@.len() ==> #[trigger] blocks@[k]@ == orig[k],
        decreases blocks@.len() - i,
    {
        let mut block = blocks[i];
        encrypt_block::<R, K>(&mut block, key);
        blocks.set(i, block);
        i += 1;
    }
    assert(views(blocks@) =~= encrypt_blocks_spec(orig, keys, EncryptionMode::ECB));
}

/// Implementation of [CBC](EncryptionMode) encryption
fn cbc<const R: usize, K>(blocks: &mut Vec<Block>, key: &K, iv: InitializationVector) where
    K: Key<R>,
    ensures
        views(final(blocks)@) == encrypt_blocks_spec(
            views(old(blocks)@),
            key.round_key_seq(),
            EncryptionMode::CBC(iv),
        ),
{
    let ghost orig = views(blocks@);
    let ghost keys = key.round_key_seq();
    let mut prev: Block = iv.block();
    let mut i: usize = 0;
    while i < blocks.len()
        invariant
            0 <= i <= blocks@.len(),
            blocks@.len() == orig.len(),
            keys == key.round_key_seq(),
            forall|k: int|
                0 <= k < i ==> #[trigger] blocks@[k]@ == cbc_cipher_block(
                    orig,
                    keys,
                    iv@,
                    k as nat,
                ),
            forall|k: int| i <= k < blocks@.len() ==> #[trigger] blocks@[k]@ == orig[k],
            prev@ == if i == 0 {
                iv@
            } else {
                cbc_cipher_block(orig, keys, iv@, (i - 1) as nat)
            },
        decreases blocks@.len() - i,
    {
        let mut block = blocks[i];
        block.xor_assign(prev);
        encrypt_block::<R, K>(&mut block, key);
        blocks.set(i, block);
        prev = block;
        i += 1;
    }
    assert(views(blocks@) =~= encrypt_blocks_spec(orig, keys, EncryptionMode::CBC(iv)));
}

} // verus!
