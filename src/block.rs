//! AES block module
//!
//! This module provides the AES [Block] abstraction
//! that defines how to operate on the 4x4 byte chunks (-> blocks) that AES uses to encrypt data.

use vstd::prelude::*;

use crate::lookups::gmul::{gf_mul, lemma_gf_mul_xor, lemma_mix_coefficient_0,
    lemma_mix_coefficient_1, lemma_mix_coefficient_2, lemma_mix_coefficient_3, mul11, mul13, mul14, mul2, mul3, mul9};
use crate::lookups::sbox::{inv_sub_byte, lemma_sbox_inverse, sub_byte, INVERSE_SBOX, SBOX};
use crate::padding::{blocks_bytes, Padding};
use crate::util;

verus! {

/// Size of the payload of a [Block] (in bytes)
pub const BLOCK_SIZE: usize = 16;

/// The bytes of a 4x4 matrix of columns, column after column.
pub open spec fn matrix_bytes(m: [[u8; 4]; 4]) -> Seq<u8> {
    Seq::new(16, |i: int| m[i / 4][i % 4])
}

/// Every byte replaced through the S-box.
pub open spec fn sub_bytes_spec(s: Seq<u8>) -> Seq<u8> {
    Seq::new(16, |i: int| sub_byte(s[i]))
}

/// Every byte replaced through the inverse S-box.
pub open spec fn inv_sub_bytes_spec(s: Seq<u8>) -> Seq<u8> {
    Seq::new(16, |i: int| inv_sub_byte(s[i]))
}

/// Row `r` rotated left by `r` positions: the byte in column `c` of row `r`
/// comes from column `c + r`.
pub open spec fn shift_rows_spec(s: Seq<u8>) -> Seq<u8> {
    Seq::new(16, |i: int| s[4 * ((i / 4 + i % 4) % 4) + i % 4])
}

/// Row `r` rotated right by `r` positions: the byte in column `c` of row `r`
/// comes from column `c - r`.
pub open spec fn inv_shift_rows_spec(s: Seq<u8>) -> Seq<u8> {
    Seq::new(16, |i: int| s[4 * ((i / 4 + 4 - i % 4) % 4) + i % 4])
}

/// Row `r` of column `c` after mixing: the column multiplied by the
/// circulant matrix with first row (2, 3, 1, 1) over GF(2^8).
pub open spec fn mix_column_byte(s: Seq<u8>, c: int, r: int) -> u8 {
    gf_mul(s[4 * c + r], 2) ^ gf_mul(s[4 * c + (r + 1) % 4], 3) ^ s[4 * c + (r + 2) % 4] ^ s[4 * c
        + (r + 3) % 4]
}

/// Row `r` of column `c` after inverse mixing: the column multiplied by the
/// circulant matrix with first row (14, 11, 13, 9) over GF(2^8).
pub open spec fn inv_mix_column_byte(s: Seq<u8>, c: int, r: int) -> u8 {
    gf_mul(s[4 * c + r], 14) ^ gf_mul(s[4 * c + (r + 1) % 4], 11) ^ gf_mul(
        s[4 * c + (r + 2) % 4],
        13,
    ) ^ gf_mul(s[4 * c + (r + 3) % 4], 9)
}

pub open spec fn mix_columns_spec(s: Seq<u8>) -> Seq<u8> {
    Seq::new(16, |i: int| mix_column_byte(s, i / 4, i % 4))
}

pub open spec fn inv_mix_columns_spec(s: Seq<u8>) -> Seq<u8> {
    Seq::new(16, |i: int| inv_mix_column_byte(s, i / 4, i % 4))
}

/// Byte `i` of the big-endian representation of a round key.
pub open spec fn round_key_byte(key: u128, i: int) -> u8 {
    (key >> ((8 * (15 - i)) as u128)) as u8
}

/// The block XORed, byte for byte, with the big-endian bytes of a round key.
pub open spec fn add_round_key_spec(s: Seq<u8>, key: u128) -> Seq<u8> {
    Seq::new(16, |i: int| s[i] ^ round_key_byte(key, i))
}

/// Two blocks XORed byte for byte.
pub open spec fn xor_spec(a: Seq<u8>, b: Seq<u8>) -> Seq<u8> {
    Seq::new(16, |i: int| a[i] ^ b[i])
}

/// Shifting the rows back undoes shifting them.
pub proof fn lemma_shift_rows_inverse(s: Seq<u8>)
    requires
        s.len() == 16,
    ensures
        inv_shift_rows_spec(shift_rows_spec(s)) == s,
{
    assert(inv_shift_rows_spec(shift_rows_spec(s)) =~= s);
}

/// Substituting through the inverse S-box undoes substituting through the S-box.
pub proof fn lemma_sub_bytes_inverse(s: Seq<u8>)
    requires
        s.len() == 16,
    ensures
        inv_sub_bytes_spec(sub_bytes_spec(s)) == s,
{
    lemma_sbox_inverse();
    assert(inv_sub_bytes_spec(sub_bytes_spec(s)) =~= s);
}

/// Adding the same round key twice changes nothing.
pub proof fn lemma_add_round_key_twice(s: Seq<u8>, key: u128)
    requires
        s.len() == 16,
    ensures
        add_round_key_spec(add_round_key_spec(s, key), key) == s,
{
    assert forall|i: int| 0 <= i < 16 implies #[trigger] add_round_key_spec(
        add_round_key_spec(s, key),
        key,
    )[i] == s[i] by {
        let (x, y) = (s[i], round_key_byte(key, i));
        assert(x ^ y ^ y == x) by (bit_vector);
    }
    assert(add_round_key_spec(add_round_key_spec(s, key), key) =~= s);
}

/// XORing the same block twice changes nothing.
pub proof fn lemma_xor_twice(a: Seq<u8>, b: Seq<u8>)
    requires
        a.len() == 16,
    ensures
        xor_spec(xor_spec(a, b), b) == a,
{
    assert forall|i: int| 0 <= i < 16 implies #[trigger] xor_spec(xor_spec(a, b), b)[i] == a[i] by {
        let (x, y) = (a[i], b[i]);
        assert(x ^ y ^ y == x) by (bit_vector);
    }
    assert(xor_spec(xor_spec(a, b), b) =~= a);
}

/// A row of the mixing matrix applied to four bytes.
spec fn mix_row(p: u8, q: u8, r: u8, t: u8) -> u8 {
    gf_mul(p, 2) ^ gf_mul(q, 3) ^ r ^ t
}

/// The first row of the inverse mixing matrix, applied to the mixed
/// column, gives back the first byte.
proof fn lemma_inv_mix_row(v0: u8, v1: u8, v2: u8, v3: u8)
    ensures
        gf_mul(mix_row(v0, v1, v2, v3), 14) ^ gf_mul(mix_row(v1, v2, v3, v0), 11) ^ gf_mul(
            mix_row(v2, v3, v0, v1),
            13,
        ) ^ gf_mul(mix_row(v3, v0, v1, v2), 9) == v0,
{
    let (p0, q0) = (gf_mul(v0, 2), gf_mul(v0, 3));
    let (p1, q1) = (gf_mul(v1, 2), gf_mul(v1, 3));
    let (p2, q2) = (gf_mul(v2, 2), gf_mul(v2, 3));
    let (p3, q3) = (gf_mul(v3, 2), gf_mul(v3, 3));
    lemma_gf_mul_xor(p0 ^ q1 ^ v2, v3, 14);
    lemma_gf_mul_xor(p0 ^ q1, v2, 14);
    lemma_gf_mul_xor(p0, q1, 14);
    lemma_gf_mul_xor(p1 ^ q2 ^ v3, v0, 11);
    lemma_gf_mul_xor(p1 ^ q2, v3, 11);
    lemma_gf_mul_xor(p1, q2, 11);
    lemma_gf_mul_xor(p2 ^ q3 ^ v0, v1, 13);
    lemma_gf_mul_xor(p2 ^ q3, v0, 13);
    lemma_gf_mul_xor(p2, q3, 13);
    lemma_gf_mul_xor(p3 ^ q0 ^ v1, v2, 9);
    lemma_gf_mul_xor(p3 ^ q0, v1, 9);
    lemma_gf_mul_xor(p3, q0, 9);
    let (a1, a2, a3, a4) = (gf_mul(p0, 14), gf_mul(q1, 14), gf_mul(v2, 14), gf_mul(v3, 14));
    let (b1, b2, b3, b4) = (gf_mul(p1, 11), gf_mul(q2, 11), gf_mul(v3, 11), gf_mul(v0, 11));
    let (c1, c2, c3, c4) = (gf_mul(p2, 13), gf_mul(q3, 13), gf_mul(v0, 13), gf_mul(v1, 13));
    let (d1, d2, d3, d4) = (gf_mul(p3, 9), gf_mul(q0, 9), gf_mul(v1, 9), gf_mul(v2, 9));
    assert((a1 ^ a2 ^ a3 ^ a4) ^ (b1 ^ b2 ^ b3 ^ b4) ^ (c1 ^ c2 ^ c3 ^ c4) ^ (d1 ^ d2 ^ d3 ^ d4)
        == (a1 ^ b4 ^ c3 ^ d2) ^ (a2 ^ b1 ^ c4 ^ d3) ^ (a3 ^ b2 ^ c1 ^ d4) ^ (a4 ^ b3 ^ c2 ^ d1))
        by (bit_vector);
    lemma_mix_coefficient_0(v0);
    lemma_mix_coefficient_1(v1);
    lemma_mix_coefficient_2(v2);
    lemma_mix_coefficient_3(v3);
    assert(v0 ^ 0u8 ^ 0u8 ^ 0u8 == v0) by (bit_vector);
}

/// Mixing a column and then inverse mixing it gives the column back.
proof fn lemma_mix_column_inverse(s: Seq<u8>, c: int)
    requires
        s.len() == 16,
        0 <= c < 4,
    ensures
        forall|r: int|
            0 <= r < 4 ==> #[trigger] inv_mix_column_byte(mix_columns_spec(s), c, r) == s[4 * c
                + r],
{
    let m = mix_columns_spec(s);
    let (v0, v1, v2, v3) = (s[4 * c], s[4 * c + 1], s[4 * c + 2], s[4 * c + 3]);
    assert(m[4 * c] == mix_row(v0, v1, v2, v3));
    assert(m[4 * c + 1] == mix_row(v1, v2, v3, v0));
    assert(m[4 * c + 2] == mix_row(v2, v3, v0, v1));
    assert(m[4 * c + 3] == mix_row(v3, v0, v1, v2));
    lemma_inv_mix_row(v0, v1, v2, v3);
    lemma_inv_mix_row(v1, v2, v3, v0);
    lemma_inv_mix_row(v2, v3, v0, v1);
    lemma_inv_mix_row(v3, v0, v1, v2);
    assert(inv_mix_column_byte(m, c, 0) == v0);
    assert(inv_mix_column_byte(m, c, 1) == v1);
    assert(inv_mix_column_byte(m, c, 2) == v2);
    assert(inv_mix_column_byte(m, c, 3) == v3);
}

/// Inverse mixing undoes mixing: for every block state `s`,
/// `inv_mix_columns(mix_columns(s)) == s`.
pub proof fn lemma_mix_columns_inverse(s: Seq<u8>)
    requires
        s.len() == 16,
    ensures
        inv_mix_columns_spec(mix_columns_spec(s)) == s,
{
    let m = mix_columns_spec(s);
    assert forall|i: int| 0 <= i < 16 implies #[trigger] inv_mix_columns_spec(m)[i] == s[i] by {
        lemma_mix_column_inverse(s, i / 4);
    }
    assert(inv_mix_columns_spec(m) =~= s);
}

/// The 16-byte chunks of a byte sequence (a shorter tail is left out).
pub open spec fn chunks(p: Seq<u8>) -> Seq<Seq<u8>> {
    Seq::new(p.len() / 16, |k: int| p.subrange(16 * k, 16 * k + 16))
}

/// The bytes of a sequence of 16-byte chunks, chunk after chunk.
pub open spec fn unchunk(blocks: Seq<Seq<u8>>) -> Seq<u8> {
    Seq::new(16 * blocks.len(), |i: int| blocks[i / 16][i % 16])
}

/// The views of a sequence of blocks.
pub open spec fn views(blocks: Seq<Block>) -> Seq<Seq<u8>> {
    blocks.map_values(|b: Block| b@)
}

/// Joining the chunks of bytes whose length is a multiple of 16 gives the
/// bytes back.
pub proof fn lemma_unchunk_chunks(p: Seq<u8>)
    requires
        p.len() % 16 == 0,
    ensures
        unchunk(chunks(p)) == p,
{
    assert(unchunk(chunks(p)) =~= p);
}

/// Cutting joined 16-byte chunks gives the chunks back.
pub proof fn lemma_chunks_unchunk(blocks: Seq<Seq<u8>>)
    requires
        forall|k: int| 0 <= k < blocks.len() ==> (#[trigger] blocks[k]).len() == 16,
    ensures
        chunks(unchunk(blocks)) == blocks,
        unchunk(blocks).len() == 16 * blocks.len(),
{
    let p = unchunk(blocks);
    assert forall|k: int| 0 <= k < blocks.len() implies #[trigger] chunks(p)[k] == blocks[k] by {
        assert(chunks(p)[k] =~= blocks[k]);
    }
    assert(chunks(p) =~= blocks);
}

/// The AES block abstraction
///
/// Internally a block is just 4x4 bytes, stored column by column.
/// AES defines a set of instructions that operate on this matrix.
/// These instructions are implemented as methods of this struct.
///
/// - [Substitute bytes](Self::sub_bytes) and its [inverse](Self::sub_bytes_inv)
/// - [Shift rows](Self::shift_rows) and its [inverse](Self::shift_rows_inv)
/// - [Mix columns](Self::mix_columns) and its [inverse](Self::mix_columns_inv)
/// - [Add round key](Self::add_round_key)
#[derive(Debug, PartialEq, Eq, Clone, Copy)]
pub struct Block {
    state: [[u8; 4]; 4],
}

impl View for Block {
    type V = Seq<u8>;

    /// The 16 bytes of the block: byte `4 * c + r` is row `r` of column `c`.
    closed spec fn view(&self) -> Seq<u8> {
        matrix_bytes(self.state)
    }
}

impl Block {
    /// Constructor that takes a 4x4 byte matrix, given column by column
    pub fn new(state: [[u8; 4]; 4]) -> (r: Self)
        ensures
            r@ == matrix_bytes(state),
    {
        Self { state }
    }

    /// The view of a block always has 16 bytes.
    pub proof fn lemma_view_len(&self)
        ensures
            self@.len() == 16,
    {
    }

    /// Constructor that takes a continuous 16 byte array
    pub fn from_bytes(bytes: [u8; BLOCK_SIZE]) -> (r: Self)
        ensures
            r@ == bytes@,
    {
        let mut state: [[u8; 4]; 4] = [[0u8; 4]; 4];
        let mut c: usize = 0;
        while c < 4
            invariant
                0 <= c <= 4,
                forall|a: int, b: int|
                    0 <= a < c && 0 <= b < 4 ==> #[trigger] state[a][b] == bytes[4 * a + b],
            decreases 4 - c,
        {
            let col: [u8; 4] = [
                bytes[4 * c],
                bytes[4 * c + 1],
                bytes[4 * c + 2],
                bytes[4 * c + 3],
            ];
            state[c] = col;
            c += 1;
        }
        let r = Self { state };
        assert(r@ =~= bytes@);
        r
    }

    /// Load a set of [Block]s from a byte slice and a [Padding] mode
    pub fn load(bytes: &[u8], padding: Padding) -> (r: Vec<Self>)
        ensures
            views(r@) == chunks(padding.pad_spec(bytes@)),
    {
        let padded = padding.pad(bytes);
        let ghost p = padding.pad_spec(bytes@);
        let mut blocks: Vec<Block> = Vec::new();
        let mut k: usize = 0;
        while k < padded.len()
            invariant
                0 <= k <= padded@.len(),
                blocks_bytes(padded@) == p,
                blocks.len() == k,
                forall|j: int| 0 <= j < k ==> #[trigger] blocks[j]@ == padded@[j]@,
            decreases padded@.len() - k,
        {
            blocks.push(Self::from_bytes(padded[k]));
            k += 1;
        }
        assert forall|j: int| 0 <= j < blocks.len() implies #[trigger] views(blocks@)[j] == chunks(
            p,
        )[j] by {
            assert(padded@[j]@ =~= p.subrange(16 * j, 16 * j + 16));
        }
        assert(views(blocks@) =~= chunks(p));
        blocks
    }

    /// Dump the inner bytes from the [Block] as continuous byte array
    pub fn dump_bytes(&self) -> (r: [u8; BLOCK_SIZE])
        ensures
            r@ == self@,
    {
        let mut dump: [u8; 16] = [0u8; 16];
        let mut i: usize = 0;
        while i < 16
            invariant
                0 <= i <= 16,
                forall|j: int| 0 <= j < i ==> #[trigger] dump[j] == self.state[j / 4][j % 4],
            decreases 16 - i,
        {
            dump[i] = self.state[i / 4][i % 4];
            i += 1;
        }
        assert(dump@ =~= self@);
        dump
    }

    /// Substitute bytes
    ///
    /// Substitutes every single byte using the AES [SBOX].
    pub fn sub_bytes(&mut self)
        ensures
            final(self)@ == sub_bytes_spec(old(self)@),
    {
        let ghost s0 = self.state;
        let mut c: usize = 0;
        while c < 4
            invariant
                0 <= c <= 4,
                forall|a: int, b: int|
                    0 <= a < c && 0 <= b < 4 ==> #[trigger] self.state[a][b] == sub_byte(s0[a][b]),
                forall|a: int| c <= a < 4 ==> #[trigger] self.state[a] == s0[a],
            decreases 4 - c,
        {
            self.state[c] = util::apply_sbox(self.state[c], SBOX);
            c += 1;
        }
        assert(self@ =~= sub_bytes_spec(old(self)@));
    }

    /// Substitute bytes (inverse)
    ///
    /// Substitutes every single byte using the AES [INVERSE_SBOX].
    pub fn sub_bytes_inv(&mut self)
        ensures
            final(self)@ == inv_sub_bytes_spec(old(self)@),
    {
        let ghost s0 = self.state;
        let mut c: usize = 0;
        while c < 4
            invariant
                0 <= c <= 4,
                forall|a: int, b: int|
                    0 <= a < c && 0 <= b < 4 ==> #[trigger] self.state[a][b] == inv_sub_byte(
                        s0[a][b],
                    ),
                forall|a: int| c <= a < 4 ==> #[trigger] self.state[a] == s0[a],
            decreases 4 - c,
        {
            self.state[c] = util::apply_sbox(self.state[c], INVERSE_SBOX);
            c += 1;
        }
        assert(self@ =~= inv_sub_bytes_spec(old(self)@));
    }
    /// Shift rows
    ///
    /// Cyclically shift the bytes of row `r` to the left by `r` positions.
    pub fn shift_rows(&mut self)
        ensures
            final(self)@ == shift_rows_spec(old(self)@),
    {
        let ghost s0 = self.state;
        let mut transposed = util::transpose_array2d(&self.state);
        let mut i: usize = 0;
        while i < 4
            invariant
                0 <= i <= 4,
                forall|a: int, b: int|
                    0 <= a < i && 0 <= b < 4 ==> #[trigger] transposed[a][b] == s0[(b + a) % 4][a],
                forall|a: int, b: int|
                    i <= a < 4 && 0 <= b < 4 ==> #[trigger] transposed[a][b] == s0[b][a],
            decreases 4 - i,
        {
            transposed[i] = util::rot_left(transposed[i], i as isize);
            i += 1;
        }
        self.state = util::transpose_array2d(&transposed);
        assert(self@ =~= shift_rows_spec(old(self)@));
    }

    /// Shift rows (inverse)
    ///
    /// Cyclically shift the bytes of row `r` back, to the right by `r` positions.
    pub fn shift_rows_inv(&mut self)
        ensures
            final(self)@ == inv_shift_rows_spec(old(self)@),
    {
        let ghost s0 = self.state;
        let mut transposed = util::transpose_array2d(&self.state);
        let mut i: usize = 0;
        while i < 4
            invariant
                0 <= i <= 4,
                forall|a: int, b: int|
                    0 <= a < i && 0 <= b < 4 ==> #[trigger] transposed[a][b] == s0[(b - a) % 4][a],
                forall|a: int, b: int|
                    i <= a < 4 && 0 <= b < 4 ==> #[trigger] transposed[a][b] == s0[b][a],
            decreases 4 - i,
        {
            transposed[i] = util::rot_left(transposed[i], -(i as isize));
            i += 1;
        }
        self.state = util::transpose_array2d(&transposed);
        assert(self@ =~= inv_shift_rows_spec(old(self)@));
    }

    /// Mix columns
    ///
    /// Combine the four bytes of each column using an invertible linear transformation.
    pub fn mix_columns(&mut self)
        ensures
            final(self)@ == mix_columns_spec(old(self)@),
    {
        let ghost s = self@;
        let copy = self.state;
        let mut c: usize = 0;
        while c < 4
            invariant
                0 <= c <= 4,
                s == matrix_bytes(copy),
                forall|a: int, b: int|
                    0 <= a < c && 0 <= b < 4 ==> #[trigger] self.state[a][b] == mix_column_byte(
                        s,
                        a,
                        b,
                    ),
            decreases 4 - c,
        {
            let col = copy[c];
            let (x0, x1, x2, x3) = (col[0], col[1], col[2], col[3]);
            assert(s[4 * c + 0] == x0 && s[4 * c + 1] == x1 && s[4 * c + 2] == x2 && s[4 * c + 3]
                == x3);
            self.state[c] = [
                mul2(x0) ^ mul3(x1) ^ x2 ^ x3,
                mul2(x1) ^ mul3(x2) ^ x3 ^ x0,
                mul2(x2) ^ mul3(x3) ^ x0 ^ x1,
                mul2(x3) ^ mul3(x0) ^ x1 ^ x2,
            ];
            c += 1;
        }
        assert(self@ =~= mix_columns_spec(s));
    }

    /// Mix columns (inverse)
    ///
    /// Invert the [mix columns step](Self::mix_columns).
    pub fn mix_columns_inv(&mut self)
        ensures
            final(self)@ == inv_mix_columns_spec(old(self)@),
    {
        let ghost s = self@;
        let copy = self.state;
        let mut c: usize = 0;
        while c < 4
            invariant
                0 <= c <= 4,
                s == matrix_bytes(copy),
                forall|a: int, b: int|
                    0 <= a < c && 0 <= b < 4 ==> #[trigger] self.state[a][b]
                        == inv_mix_column_byte(s, a, b),
            decreases 4 - c,
        {
            let col = copy[c];
            let new_col = inv_mix_column(col);
            assert forall|k: int| 0 <= k < 4 implies #[trigger] s[4 * c + k] == col[k] by {}
            assert(new_col[0] == inv_mix_column_byte(s, c as int, 0));
            assert(new_col[1] == inv_mix_column_byte(s, c as int, 1));
            assert(new_col[2] == inv_mix_column_byte(s, c as int, 2));
            assert(new_col[3] == inv_mix_column_byte(s, c as int, 3));
            self.state[c] = new_col;
            c += 1;
        }
        assert(self@ =~= inv_mix_columns_spec(s));
    }

    /// Combine the round's subkey with the state
    ///
    /// Each byte is XORed with the byte at the same position of the
    /// big-endian representation of `round_key`.
    pub fn add_round_key(&mut self, round_key: u128)
        ensures
            final(self)@ == add_round_key_spec(old(self)@, round_key),
    {
        let ghost s = self@;
        let copy = self.state;
        let mut c: usize = 0;
        while c < 4
            invariant
                0 <= c <= 4,
                s == matrix_bytes(copy),
                forall|a: int, b: int|
                    0 <= a < c && 0 <= b < 4 ==> #[trigger] self.state[a][b] == s[4 * a + b]
                        ^ round_key_byte(round_key, 4 * a + b),
            decreases 4 - c,
        {
            let col = copy[c];
            let i = 4 * c;
            assert(s[i + 0] == col[0] && s[i + 1] == col[1] && s[i + 2] == col[2] && s[i + 3]
                == col[3]);
            self.state[c] = [
                col[0] ^ key_byte(round_key, i),
                col[1] ^ key_byte(round_key, i + 1),
                col[2] ^ key_byte(round_key, i + 2),
                col[3] ^ key_byte(round_key, i + 3),
            ];
            c += 1;
        }
        assert(self@ =~= add_round_key_spec(s, round_key));
    }

    /// XOR another block into this one, byte for byte.
    pub fn xor_assign(&mut self, rhs: Block)
        ensures
            final(self)@ == xor_spec(old(self)@, rhs@),
    {
        let ghost s = self@;
        let copy = self.state;
        let mut c: usize = 0;
        while c < 4
            invariant
                0 <= c <= 4,
                s == matrix_bytes(copy),
                forall|a: int, b: int|
                    0 <= a < c && 0 <= b < 4 ==> #[trigger] self.state[a][b] == s[4 * a + b]
                        ^ rhs@[4 * a + b],
            decreases 4 - c,
        {
            let col = copy[c];
            let other = rhs.state[c];
            let i = 4 * c;
            assert(s[i + 0] == col[0] && s[i + 1] == col[1] && s[i + 2] == col[2] && s[i + 3]
                == col[3]);
            assert(rhs@[i + 0] == other[0] && rhs@[i + 1] == other[1] && rhs@[i + 2] == other[2]
                && rhs@[i + 3] == other[3]);
            self.state[c] = [col[0] ^ other[0], col[1] ^ other[1], col[2] ^ other[2], col[3] ^ other[3]];
            c += 1;
        }
        assert(self@ =~= xor_spec(s, rhs@));
    }

    /// The byte-wise XOR of two blocks.
    pub fn xor(&self, rhs: Block) -> (r: Block)
        ensures
            r@ == xor_spec(self@, rhs@),
    {
        let mut r = *self;
        r.xor_assign(rhs);
        r
    }
}

/// One column multiplied by the inverse mixing matrix, with the products
/// read from the multiplication tables.
fn inv_mix_column(col: [u8; 4]) -> (r: [u8; 4])
    ensures
        r[0] == inv_mix_column_byte(col@, 0, 0),
        r[1] == inv_mix_column_byte(col@, 0, 1),
        r[2] == inv_mix_column_byte(col@, 0, 2),
        r[3] == inv_mix_column_byte(col@, 0, 3),
{
    let (x0, x1, x2, x3) = (col[0], col[1], col[2], col[3]);
    [
        mul14(x0) ^ mul11(x1) ^ mul13(x2) ^ mul9(x3),
        mul14(x1) ^ mul11(x2) ^ mul13(x3) ^ mul9(x0),
        mul14(x2) ^ mul11(x3) ^ mul13(x0) ^ mul9(x1),
        mul14(x3) ^ mul11(x0) ^ mul13(x1) ^ mul9(x2),
    ]
}

/// Byte `i` of the big-endian representation of a round key.
fn key_byte(key: u128, i: usize) -> (b: u8)
    requires
        i < 16,
    ensures
        b == round_key_byte(key, i as int),
{
    (key >> ((8 * (15 - i)) as u128)) as u8
}

} // verus!
