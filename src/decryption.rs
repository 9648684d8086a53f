//! Decryption module
//!
//! This module provides functions to decrypt [Block]s and byte slices.

use vstd::prelude::*;

use crate::block::{
    add_round_key_spec, chunks, inv_mix_columns_spec, inv_shift_rows_spec, inv_sub_bytes_spec,
    lemma_add_round_key_twice, lemma_chunks_unchunk, lemma_mix_columns_inverse,
    lemma_shift_rows_inverse, lemma_sub_bytes_inverse, lemma_unchunk_chunks, lemma_xor_twice,
    mix_columns_spec, shift_rows_spec, sub_bytes_spec, unchunk, views, xor_spec, Block,
};
use crate::encryption::{
    cbc_cipher_block, encrypt_block_spec, encrypt_blocks_spec, encrypt_message, encrypt_round,
    encrypt_rounds,
};
use crate::init_vec::InitializationVector;
use crate::key::Key;
use crate::padding::{
    blocks_bytes, flatten_blocks, lemma_padded_len, lemma_padding_round_trip, Padding,
};
use crate::EncryptionMode;

verus! {

/// Decryption round `j` of `r` on state `s` with round key `key`.
pub open spec fn decrypt_round(s: Seq<u8>, key: u128, j: int, r: int) -> Seq<u8> {
    if j == 0 {
        add_round_key_spec(s, key)
    } else if j <= r - 2 {
        inv_mix_columns_spec(add_round_key_spec(inv_sub_bytes_spec(inv_shift_rows_spec(s)), key))
    } else {
        add_round_key_spec(inv_sub_bytes_spec(inv_shift_rows_spec(s)), key)
    }
}

/// The state after the first `n` decryption rounds, which take the round
/// keys from the last one down.
pub open spec fn decrypt_rounds(s: Seq<u8>, keys: Seq<u128>, n: nat) -> Seq<u8>
    decreases n,
{
    if n == 0 {
        s
    } else {
        decrypt_round(
            decrypt_rounds(s, keys, (n - 1) as nat),
            keys[keys.len() - n],
            n - 1,
            keys.len() as int,
        )
    }
}

/// One block decrypted with the round keys `keys`, one round per key.
pub open spec fn decrypt_block_spec(s: Seq<u8>, keys: Seq<u128>) -> Seq<u8> {
    decrypt_rounds(s, keys, keys.len())
}

/// The blocks decrypted in the given mode. In CBC mode each decrypted block
/// is XORed with the previous ciphertext block (the IV for the first).
pub open spec fn decrypt_blocks_spec(blocks: Seq<Seq<u8>>, keys: Seq<u128>, mode: EncryptionMode) -> Seq<
    Seq<u8>,
> {
    match mode {
        EncryptionMode::ECB => Seq::new(blocks.len(), |k: int| decrypt_block_spec(blocks[k], keys)),
        EncryptionMode::CBC(iv) => Seq::new(
            blocks.len(),
            |k: int|
                xor_spec(
                    decrypt_block_spec(blocks[k], keys),
                    if k == 0 {
                        iv@
                    } else {
                        blocks[k - 1]
                    },
                ),
        ),
    }
}

/// Block-aligned bytes decrypted in the given mode.
pub open spec fn decrypt_message(c: Seq<u8>, keys: Seq<u128>, mode: EncryptionMode) -> Seq<u8> {
    unchunk(decrypt_blocks_spec(chunks(c), keys, mode))
}

/// The state after some encryption rounds has 16 bytes.
proof fn lemma_encrypt_rounds_len(b: Seq<u8>, keys: Seq<u128>, n: nat)
    requires
        b.len() == 16,
    ensures
        encrypt_rounds(b, keys, n).len() == 16,
{
    if n > 0 {
        assert(encrypt_rounds(b, keys, n) == encrypt_round(
            encrypt_rounds(b, keys, (n - 1) as nat),
            keys[n - 1],
            n - 1,
            keys.len() as int,
        ));
    }
}

/// After `j` decryption rounds of a ciphertext block, the state is the
/// state before encryption round `R - j`, substituted and row-shifted.
proof fn lemma_decrypt_prefix(b: Seq<u8>, keys: Seq<u128>, j: nat)
    requires
        b.len() == 16,
        1 <= j < keys.len(),
    ensures
        decrypt_rounds(encrypt_block_spec(b, keys), keys, j) == shift_rows_spec(
            sub_bytes_spec(encrypt_rounds(b, keys, (keys.len() - j) as nat)),
        ),
    decreases j,
{
    let r = keys.len();
    let c = encrypt_block_spec(b, keys);
    if j == 1 {
        reveal_with_fuel(decrypt_rounds, 2);
        let prev = encrypt_rounds(b, keys, (r - 1) as nat);
        lemma_encrypt_rounds_len(b, keys, (r - 1) as nat);
        lemma_add_round_key_twice(shift_rows_spec(sub_bytes_spec(prev)), keys[r - 1]);
    } else {
        lemma_decrypt_prefix(b, keys, (j - 1) as nat);
        let before = encrypt_rounds(b, keys, (r - j) as nat);
        let after = encrypt_rounds(b, keys, (r - j + 1) as nat);
        lemma_encrypt_rounds_len(b, keys, (r - j) as nat);
        lemma_encrypt_rounds_len(b, keys, (r - j + 1) as nat);
        assert(after == encrypt_round(before, keys[r - j], r - j, r as int));
        lemma_shift_rows_inverse(sub_bytes_spec(after));
        lemma_sub_bytes_inverse(after);
        let mixed = mix_columns_spec(shift_rows_spec(sub_bytes_spec(before)));
        lemma_add_round_key_twice(mixed, keys[r - j]);
        lemma_mix_columns_inverse(shift_rows_spec(sub_bytes_spec(before)));
    }
}

/// Decrypting an encrypted block with the same round keys gives the block back.
pub proof fn lemma_block_round_trip(b: Seq<u8>, keys: Seq<u128>)
    requires
        b.len() == 16,
    ensures
        decrypt_block_spec(encrypt_block_spec(b, keys), keys) == b,
{
    let r = keys.len();
    reveal_with_fuel(encrypt_rounds, 2);
    if r == 1 {
        reveal_with_fuel(decrypt_rounds, 2);
        lemma_add_round_key_twice(b, keys[0]);
    } else if r >= 2 {
        lemma_decrypt_prefix(b, keys, (r - 1) as nat);
        let first = encrypt_rounds(b, keys, 1);
        assert(first == add_round_key_spec(b, keys[0]));
        lemma_shift_rows_inverse(sub_bytes_spec(first));
        lemma_sub_bytes_inverse(first);
        lemma_add_round_key_twice(b, keys[0]);
    }
}

/// Decryption undoes encryption: for block-aligned bytes `p`, any round
/// keys and either mode, `decrypt(encrypt(p)) == p`.
pub proof fn lemma_round_trip(p: Seq<u8>, keys: Seq<u128>, mode: EncryptionMode)
    requires
        p.len() % 16 == 0,
    ensures
        decrypt_message(encrypt_message(p, keys, mode), keys, mode) == p,
{
    let blocks = chunks(p);
    let enc = encrypt_blocks_spec(blocks, keys, mode);
    assert forall|k: int| 0 <= k < enc.len() implies (#[trigger] enc[k]).len() == 16 by {
        match mode {
            EncryptionMode::ECB => {
                lemma_encrypt_rounds_len(blocks[k], keys, keys.len());
            },
            EncryptionMode::CBC(iv) => {
                lemma_encrypt_rounds_len(
                    xor_spec(blocks[k], if k == 0 { iv@ } else { enc[k - 1] }),
                    keys,
                    keys.len(),
                );
            },
        }
    }
    lemma_chunks_unchunk(enc);
    let dec = decrypt_blocks_spec(enc, keys, mode);
    assert forall|k: int| 0 <= k < blocks.len() implies #[trigger] dec[k] == blocks[k] by {
        match mode {
            EncryptionMode::ECB => {
                lemma_block_round_trip(blocks[k], keys);
            },
            EncryptionMode::CBC(iv) => {
                iv.lemma_view_len();
                let prev = if k == 0 {
                    iv@
                } else {
                    enc[k - 1]
                };
                assert(enc[k] == cbc_cipher_block(blocks, keys, iv@, k as nat));
                lemma_block_round_trip(xor_spec(blocks[k], prev), keys);
                lemma_xor_twice(blocks[k], prev);
            },
        }
    }
    assert(dec =~= blocks);
    lemma_unchunk_chunks(p);
}

/// Encrypting padded bytes and decrypting and unpadding the result gives
/// the bytes back, with the same exception for byte and zero padding as
/// [`lemma_padding_round_trip`].
pub proof fn lemma_padded_round_trip(
    padding: Padding,
    b: Seq<u8>,
    keys: Seq<u128>,
    mode: EncryptionMode,
)
    requires
        padding matches Padding::BytePadding(v) ==> b.len() == 0 || b.last() != v,
        padding matches Padding::ZeroPadding ==> b.len() == 0 || b.last() != 0,
    ensures
        padding.unpad_spec(
            decrypt_message(encrypt_message(padding.pad_spec(b), keys, mode), keys, mode),
        ) == b,
{
    lemma_padded_len(padding, b);
    lemma_round_trip(padding.pad_spec(b), keys, mode);
    lemma_padding_round_trip(padding, b);
}

/// No ciphertext decrypts to no plaintext, in either mode and with or
/// without PKCS #7 unpadding.
pub proof fn lemma_empty_ciphertext(keys: Seq<u128>, mode: EncryptionMode)
    ensures
        decrypt_message(Seq::empty(), keys, mode) == Seq::<u8>::empty(),
        Padding::Pkcs.unpad_spec(decrypt_message(Seq::empty(), keys, mode)) == Seq::<u8>::empty(),
{
    assert(decrypt_message(Seq::empty(), keys, mode) =~= Seq::<u8>::empty());
}

/// Decrypt a [Block] using a [Key] type
pub fn decrypt_block<const R: usize, K>(block: &mut Block, key: &K) where K: Key<R>
    ensures
        final(block)@ == decrypt_block_spec(old(block)@, key.round_key_seq()),
{
    let round_keys = key.round_keys();
    let ghost keys = round_keys@;
    let ghost s0 = block@;
    let mut j: usize = 0;
    while j < R
        invariant
            0 <= j <= R,
            keys == round_keys@,
            keys.len() == R,
            block@ == decrypt_rounds(s0, keys, j as nat),
        decreases R - j,
    {
        let round_key = round_keys[R - 1 - j];
        if j == 0 {
            block.add_round_key(round_key);
        } else if j + 1 < R {
            block.shift_rows_inv();
            block.sub_bytes_inv();
            block.add_round_key(round_key);
            block.mix_columns_inv();
        } else {
            block.shift_rows_inv();
            block.sub_bytes_inv();
            block.add_round_key(round_key);
        }
        j += 1;
    }
}

/// Decrypt a byte slice using a [Key] type
///
/// # Parameters
/// - `bytes`: byte slice to decrypt
/// - `key`: [Key] used for decryption
/// - `padding`: how the decrypted bytes should be unpadded
/// - `mode`: [EncryptionMode] that was used for encryption
///
/// # Return value
/// The decryption fails if the number of encrypted bytes is not a multiple of `16`.
pub fn decrypt_bytes<const R: usize, K>(
    bytes: &[u8],
    key: &K,
    padding: Option<Padding>,
    mode: EncryptionMode,
) -> (r: Result<Vec<u8>, &'static str>) where K: Key<R>
    ensures
        r is Err <==> bytes@.len() % 16 != 0,
        r matches Ok(v) ==> v@ == match padding {
            None => decrypt_message(bytes@, key.round_key_seq(), mode),
            Some(p) => p.unpad_spec(decrypt_message(bytes@, key.round_key_seq(), mode)),
        },
{
    if bytes.len() % 16 != 0 {
        return Err("Number of bytes not divisible by 16");
    }
    let mut blocks = Block::load(bytes, Padding::ZeroPadding);
    assert(Padding::ZeroPadding.pad_spec(bytes@) =~= bytes@);
    match mode {
        EncryptionMode::ECB => ecb(&mut blocks, key),
        EncryptionMode::CBC(iv) => cbc(&mut blocks, key, iv),
    }
    let ghost plain = decrypt_message(bytes@, key.round_key_seq(), mode);
    let mut padded_bytes: Vec<[u8; 16]> = Vec::new();
    let mut k: usize = 0;
    while k < blocks.len()
        invariant
            0 <= k <= blocks@.len(),
            padded_bytes.len() == k,
            forall|j: int| 0 <= j < k ==> #[trigger] padded_bytes@[j]@ == blocks@[j]@,
        decreases blocks@.len() - k,
    {
        padded_bytes.push(blocks[k].dump_bytes());
        k += 1;
    }
    assert(blocks_bytes(padded_bytes@) =~= plain) by {
        assert(plain == unchunk(views(blocks@)));
    }
    match padding {
        Some(p) => Ok(p.unpad(&padded_bytes)),
        None => Ok(flatten_blocks(&padded_bytes)),
    }
}

/// Implementation of [ECB](EncryptionMode) decryption
fn ecb<const R: usize, K>(blocks: &mut Vec<Block>, key: &K) where K: Key<R>
    ensures
        views(final(blocks)@) == decrypt_blocks_spec(
            views(old(blocks)@),
            key.round_key_seq(),
            EncryptionMode::ECB,
        ),
{
    let ghost orig = views(blocks@);
    let ghost keys = key.round_key_seq();
    let mut i: usize = 0;
    while i < blocks.len()
        invariant
            0 <= i <= blocks@.len(),
            blocks@.len() == orig.len(),
            keys == key.round_key_seq(),
            forall|k: int| 0 <= k < i ==> #[trigger] blocks@[k]@ == decrypt_block_spec(orig[k], keys),
            forall|k: int| i <= k < blocks@.len() ==> #[trigger] blocks@[k]@ == orig[k],
        decreases blocks@.len() - i,
    {
        let mut block = blocks[i];
        decrypt_block::<R, K>(&mut block, key);
        blocks.set(i, block);
        i += 1;
    }
    assert(views(blocks@) =~= decrypt_blocks_spec(orig, keys, EncryptionMode::ECB));
}

/// Implementation of [CBC](EncryptionMode) decryption
fn cbc<const R: usize, K>(blocks: &mut Vec<Block>, key: &K, iv: InitializationVector) where
    K: Key<R>,
    ensures
        views(final(blocks)@) == decrypt_blocks_spec(
            views(old(blocks)@),
            key.round_key_seq(),
            EncryptionMode::CBC(iv),
        ),
{
    let ghost orig = views(blocks@);
    let ghost keys = key.round_key_seq();
    let mut prev: Block = iv.block();
    let mut i: usize = 0;
    while i < blocks.len()
        invariant
            0 <= i <= blocks@.len(),
            blocks@.len() == orig.len(),
            keys == key.round_key_seq(),
            forall|k: int|
                0 <= k < i ==> #[trigger] blocks@[k]@ == xor_spec(
                    decrypt_block_spec(orig[k], keys),
                    if k == 0 {
                        iv@
                    } else {
                        orig[k - 1]
                    },
                ),
            forall|k: int| i <= k < blocks@.len() ==> #[trigger] blocks@[k]@ == orig[k],
            prev@ == if i == 0 {
                iv@
            } else {
                orig[i - 1]
            },
        decreases blocks@.len() - i,
    {
        let mut block = blocks[i];
        let copy = block;
        decrypt_block::<R, K>(&mut block, key);
        block.xor_assign(prev);
        blocks.set(i, block);
        prev = copy;
        i += 1;
    }
    assert(views(blocks@) =~= decrypt_blocks_spec(orig, keys, EncryptionMode::CBC(iv)));
}

} // verus!
