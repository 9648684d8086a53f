//! Small helpers on byte arrays and words.

use vstd::arithmetic::div_mod::{
    lemma_add_mod_noop_right, lemma_fundamental_div_mod, lemma_mod_multiples_vanish,
    lemma_mod_sub_multiples_vanish, lemma_small_mod,
};
use vstd::prelude::*;

verus! {

/// The big-endian value of four bytes.
pub open spec fn be_word(b0: u8, b1: u8, b2: u8, b3: u8) -> int {
    b0 * 0x100_0000 + b1 * 0x1_0000 + b2 * 0x100 + b3
}

/// Transpose a square byte matrix by exchanging rows and columns.
pub fn transpose_array2d<const N: usize>(inp: &[[u8; N]; N]) -> (out: [[u8; N]; N])
    ensures
        forall|i: int, j: int| 0 <= i < N && 0 <= j < N ==> #[trigger] out[i][j] == inp[j][i],
{
    let mut out: [[u8; N]; N] = *inp;
    let mut i: usize = 0;
    while i < N
        invariant
            0 <= i <= N,
            forall|a: int, b: int| 0 <= a < i && 0 <= b < N ==> #[trigger] out[a][b] == inp[b][a],
        decreases N - i,
    {
        let mut row: [u8; N] = out[i];
        let mut j: usize = 0;
        while j < N
            invariant
                0 <= i < N,
                0 <= j <= N,
                forall|b: int| 0 <= b < j ==> #[trigger] row[b] == inp[b][i as int],
            decreases N - j,
        {
            row[j] = inp[j][i];
            j += 1;
        }
        out[i] = row;
        i += 1;
    }
    out
}

/// Cyclically rotate a byte array to the left by `shift` positions
/// (to the right for a negative `shift`).
pub fn rot_left<const N: usize>(bytes: [u8; N], shift: isize) -> (r: [u8; N])
    ensures
        forall|i: int| 0 <= i < N ==> #[trigger] r[i] == bytes[(i + shift) % (N as int)],
{
    let ghost n = N as int;
    if N == 0 {
        return bytes;
    }
    let offset: usize = if shift >= 0 {
        (shift as usize) % N
    } else {
        let a: usize = (-(shift + 1)) as usize;
        let m: usize = a % N;
        proof {
            lemma_fundamental_div_mod(a as int, n);
            let q = (a as int) / n;
            assert(n - 1 - m == n * (q + 1) + shift) by (nonlinear_arith)
                requires
                    a as int == n * q + m,
                    a as int == -(shift + 1),
            ;
            lemma_mod_multiples_vanish(q + 1, shift as int, n);
            lemma_small_mod((n - 1 - m) as nat, n as nat);
        }
        N - 1 - m
    };
    assert(offset as int == (shift as int) % n);
    let mut out: [u8; N] = bytes;
    let mut i: usize = 0;
    while i < N
        invariant
            0 <= offset < N,
            n == N,
            0 <= i <= N,
            forall|j: int| 0 <= j < i ==> #[trigger] out[j] == bytes[(j + offset) % n],
        decreases N - i,
    {
        let idx: usize = if i < N - offset {
            proof {
                lemma_small_mod((i + offset) as nat, n as nat);
            }
            i + offset
        } else {
            proof {
                lemma_mod_sub_multiples_vanish((i + offset) as int, n);
                lemma_small_mod((i + offset - n) as nat, n as nat);
            }
            i - (N - offset)
        };
        out[i] = bytes[idx];
        i += 1;
    }
    assert forall|i: int| 0 <= i < N implies #[trigger] out[i] == bytes[(i + shift) % n] by {
        lemma_add_mod_noop_right(i, shift as int, n);
    }
    out
}

/// Substitute each byte of an array using a given S-box.
pub fn apply_sbox<const N: usize>(bytes: [u8; N], sbox: [u8; 256]) -> (r: [u8; N])
    ensures
        forall|i: int| 0 <= i < N ==> #[trigger] r[i] == sbox[bytes[i] as int],
{
    let mut out: [u8; N] = bytes;
    let mut i: usize = 0;
    while i < N
        invariant
            0 <= i <= N,
            forall|j: int| 0 <= j < i ==> #[trigger] out[j] == sbox[bytes[j] as int],
            forall|j: int| i <= j < N ==> #[trigger] out[j] == bytes[j],
        decreases N - i,
    {
        out[i] = sbox[out[i] as usize];
        i += 1;
    }
    out
}

/// Interpret four bytes as a big-endian `u32`.
pub fn bytes_as_u32(bytes: [u8; 4]) -> (r: u32)
    ensures
        r as int == be_word(bytes[0], bytes[1], bytes[2], bytes[3]),
{
    let b0 = bytes[0];
    let b1 = bytes[1];
    let b2 = bytes[2];
    let b3 = bytes[3];
    let r = (b3 as u32) | ((b2 as u32) << 8) | ((b1 as u32) << 16) | ((b0 as u32) << 24);
    assert(r as int == b0 * 0x100_0000 + b1 * 0x1_0000 + b2 * 0x100 + b3) by (bit_vector)
        requires
            r == (b3 as u32) | ((b2 as u32) << 8) | ((b1 as u32) << 16) | ((b0 as u32) << 24),
    ;
    r
}

} // verus!
