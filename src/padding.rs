//! Padding module
//!
//! This module provides the ways to pad bytes into whole 16-byte chunks to
//! prepare them for encryption, and to undo that padding after decryption.
//!
//! Possible padding modes:
//! - [PKCS7](Padding::Pkcs) (recommended)
//! - [Byte padding](Padding::BytePadding)
//! - [Zeroes](Padding::ZeroPadding)

use vstd::prelude::*;

verus! {

/// The bytes of a sequence of 16-byte chunks, chunk after chunk.
pub open spec fn blocks_bytes(blocks: Seq<[u8; 16]>) -> Seq<u8> {
    Seq::new(16 * blocks.len(), |i: int| blocks[i / 16][i % 16])
}

/// `b` followed by `n` bytes of value `n`, where `n` (1 to 16) brings the
/// length to the next multiple of 16.
pub open spec fn pkcs7_pad_spec(b: Seq<u8>) -> Seq<u8> {
    let n = 16 - b.len() % 16;
    b + Seq::new(n as nat, |_i: int| n as u8)
}

/// `b` followed by as many copies of `v` (0 to 15) as bring the length to a
/// multiple of 16.
pub open spec fn fill_pad_spec(b: Seq<u8>, v: u8) -> Seq<u8> {
    let n = (16 - b.len() % 16) % 16;
    b + Seq::new(n as nat, |_i: int| v)
}

/// `b` without as many trailing bytes as its last byte says; empty when
/// `b` is empty or shorter than that.
pub open spec fn pkcs7_unpad_spec(b: Seq<u8>) -> Seq<u8> {
    if b.len() == 0 {
        b
    } else if b.last() <= b.len() {
        b.subrange(0, b.len() - b.last())
    } else {
        Seq::empty()
    }
}

/// `b` without its trailing bytes equal to `v`.
pub open spec fn strip_trailing(b: Seq<u8>, v: u8) -> Seq<u8>
    decreases b.len(),
{
    if b.len() > 0 && b.last() == v {
        strip_trailing(b.drop_last(), v)
    } else {
        b
    }
}

/// Appending copies of `v` does not change what stripping `v` leaves.
proof fn lemma_strip_fill(b: Seq<u8>, v: u8, m: nat)
    ensures
        strip_trailing(b + Seq::new(m, |_i: int| v), v) == strip_trailing(b, v),
    decreases m,
{
    let padded = b + Seq::new(m, |_i: int| v);
    if m == 0 {
        assert(padded =~= b);
    } else {
        let shorter = b + Seq::new((m - 1) as nat, |_i: int| v);
        assert(padded.drop_last() =~= shorter);
        lemma_strip_fill(b, v, (m - 1) as nat);
    }
}

/// Removing the padding gives back the padded bytes, for every padding.
/// Byte and zero padding cannot tell their own fill bytes from trailing
/// bytes of equal value, so for them the bytes must not end in the fill
/// byte.
pub proof fn lemma_padding_round_trip(p: Padding, b: Seq<u8>)
    requires
        p matches Padding::BytePadding(v) ==> b.len() == 0 || b.last() != v,
        p matches Padding::ZeroPadding ==> b.len() == 0 || b.last() != 0,
    ensures
        p.unpad_spec(p.pad_spec(b)) == b,
{
    match p {
        Padding::Pkcs => {
            let padded = pkcs7_pad_spec(b);
            assert(padded.subrange(0, b.len() as int) =~= b);
        },
        Padding::BytePadding(v) => {
            lemma_strip_fill(b, v, ((16 - b.len() % 16) % 16) as nat);
        },
        Padding::ZeroPadding => {
            lemma_strip_fill(b, 0, ((16 - b.len() % 16) % 16) as nat);
        },
    }
}

/// PKCS #7 padding of no bytes is one whole chunk of sixteen 16s.
pub proof fn lemma_pkcs7_pad_empty()
    ensures
        pkcs7_pad_spec(Seq::empty()) == Seq::new(16, |_i: int| 16u8),
{
    assert(pkcs7_pad_spec(Seq::empty()) =~= Seq::new(16, |_i: int| 16u8));
}

/// Padded bytes always fill whole chunks of 16.
pub proof fn lemma_padded_len(p: Padding, b: Seq<u8>)
    ensures
        p.pad_spec(b).len() % 16 == 0,
        p matches Padding::Pkcs ==> p.pad_spec(b).len() > b.len(),
{
}

/// How bytes are padded to whole chunks of 16
#[derive(Debug, Clone, Copy, PartialEq, Eq)]
pub enum Padding {
    /// PKCS #7: `n` bytes of value `n`, at least one and at most 16
    Pkcs,
    /// Copies of the given byte, as few as needed
    BytePadding(u8),
    /// Zeroes, as few as needed
    ZeroPadding,
}

impl Padding {
    /// The padded bytes.
    pub open spec fn pad_spec(self, b: Seq<u8>) -> Seq<u8> {
        match self {
            Padding::Pkcs => pkcs7_pad_spec(b),
            Padding::BytePadding(v) => fill_pad_spec(b, v),
            Padding::ZeroPadding => fill_pad_spec(b, 0),
        }
    }

    /// The bytes with the padding removed.
    pub open spec fn unpad_spec(self, b: Seq<u8>) -> Seq<u8> {
        match self {
            Padding::Pkcs => pkcs7_unpad_spec(b),
            Padding::BytePadding(v) => strip_trailing(b, v),
            Padding::ZeroPadding => strip_trailing(b, 0),
        }
    }

    /// Pad the given bytes so they fit in equal-sized chunks
    pub fn pad(&self, bytes: &[u8]) -> (r: Vec<[u8; 16]>)
        ensures
            blocks_bytes(r@) == self.pad_spec(bytes@),
    {
        let len = bytes.len();
        let full = len / 16;
        let rem = len % 16;
        let (fill, n_chunks): (u8, usize) = match self {
            Padding::Pkcs => ((16 - rem) as u8, full + 1),
            Padding::BytePadding(v) => (*v, if rem == 0 { full } else { full + 1 }),
            Padding::ZeroPadding => (0u8, if rem == 0 { full } else { full + 1 }),
        };
        let ghost padded = self.pad_spec(bytes@);
        assert(padded.len() == 16 * n_chunks);
        assert forall|i: int| 0 <= i < padded.len() implies #[trigger] padded[i] == (if i < len {
            bytes@[i]
        } else {
            fill
        }) by {}
        let mut chunks: Vec<[u8; 16]> = Vec::new();
        let mut k: usize = 0;
        while k < n_chunks
            invariant
                0 <= k <= n_chunks,
                len == bytes@.len(),
                full == len / 16,
                rem == len % 16,
                n_chunks == full || n_chunks == full + 1,
                n_chunks == full ==> rem == 0,
                padded.len() == 16 * n_chunks,
                forall|i: int|
                    0 <= i < padded.len() ==> #[trigger] padded[i] == (if i < len {
                        bytes@[i]
                    } else {
                        fill
                    }),
                chunks.len() == k,
                forall|a: int, b: int|
                    0 <= a < k && 0 <= b < 16 ==> #[trigger] chunks[a][b] == padded[16 * a + b],
            decreases n_chunks - k,
        {
            let mut chunk: [u8; 16] = [fill; 16];
            let mut j: usize = 0;
            while j < 16
                invariant
                    0 <= j <= 16,
                    0 <= k < n_chunks,
                    len == bytes@.len(),
                    full == len / 16,
                    rem == len % 16,
                    n_chunks == full || n_chunks == full + 1,
                    n_chunks == full ==> rem == 0,
                    padded.len() == 16 * n_chunks,
                    forall|i: int|
                        0 <= i < padded.len() ==> #[trigger] padded[i] == (if i < len {
                            bytes@[i]
                        } else {
                            fill
                        }),
                    forall|b: int| 0 <= b < j ==> #[trigger] chunk[b] == padded[16 * k + b],
                    forall|b: int| j <= b < 16 ==> #[trigger] chunk[b] == fill,
                decreases 16 - j,
            {
                if k < full || j < rem {
                    chunk[j] = bytes[16 * k + j];
                }
                j += 1;
            }
            chunks.push(chunk);
            k += 1;
        }
        assert(blocks_bytes(chunks@) =~= padded);
        chunks
    }

    /// Undo the padding
    pub fn unpad(&self, padded_bytes: &[[u8; 16]]) -> (r: Vec<u8>)
        ensures
            r@ == self.unpad_spec(blocks_bytes(padded_bytes@)),
    {
        let mut bytes = flatten_blocks(padded_bytes);
        match self {
            Padding::Pkcs => {
                if bytes.len() == 0 {
                    return bytes;
                }
                let last = bytes[bytes.len() - 1] as usize;
                let keep = if last <= bytes.len() {
                    bytes.len() - last
                } else {
                    0
                };
                bytes.truncate(keep);
                assert(bytes@ =~= pkcs7_unpad_spec(blocks_bytes(padded_bytes@)));
                bytes
            },
            Padding::BytePadding(v) => strip(bytes, *v),
            Padding::ZeroPadding => strip(bytes, 0),
        }
    }
}

/// The bytes of a sequence of 16-byte chunks, chunk after chunk.
pub(crate) fn flatten_blocks(blocks: &[[u8; 16]]) -> (r: Vec<u8>)
    ensures
        r@ == blocks_bytes(blocks@),
{
    let mut out: Vec<u8> = Vec::new();
    let mut k: usize = 0;
    while k < blocks.len()
        invariant
            0 <= k <= blocks@.len(),
            out.len() == 16 * k,
            forall|i: int| 0 <= i < 16 * k ==> #[trigger] out[i] == blocks@[i / 16][i % 16],
        decreases blocks@.len() - k,
    {
        let chunk = blocks[k];
        let mut j: usize = 0;
        while j < 16
            invariant
                0 <= j <= 16,
                0 <= k < blocks@.len(),
                chunk == blocks@[k as int],
                out.len() == 16 * k + j,
                forall|i: int| 0 <= i < 16 * k + j ==> #[trigger] out[i] == blocks@[i / 16][i % 16],
            decreases 16 - j,
        {
            out.push(chunk[j]);
            j += 1;
        }
        k += 1;
    }
    assert(out@ =~= blocks_bytes(blocks@));
    out
}

/// Remove the trailing bytes equal to `v`.
fn strip(bytes: Vec<u8>, v: u8) -> (r: Vec<u8>)
    ensures
        r@ == strip_trailing(bytes@, v),
{
    let mut bytes = bytes;
    let ghost orig = bytes@;
    while bytes.len() > 0 && bytes[bytes.len() - 1] == v
        invariant
            strip_trailing(bytes@, v) == strip_trailing(orig, v),
        decreases bytes.len(),
    {
        let ghost before = bytes@;
        bytes.pop();
        assert(bytes@ =~= before.drop_last());
    }
    bytes
}

/// PKCS #7 padding standard
#[derive(Debug)]
pub struct Pkcs7Padding;

impl Pkcs7Padding {
    /// Pad the given bytes so they fit in equal-sized chunks
    pub fn pad(&self, bytes: &[u8]) -> (r: Vec<[u8; 16]>)
        ensures
            blocks_bytes(r@) == pkcs7_pad_spec(bytes@),
    {
        Padding::Pkcs.pad(bytes)
    }

    /// Undo the padding
    pub fn unpad(&self, padded_bytes: &[[u8; 16]]) -> (r: Vec<u8>)
        ensures
            r@ == pkcs7_unpad_spec(blocks_bytes(padded_bytes@)),
    {
        Padding::Pkcs.unpad(padded_bytes)
    }
}

/// Fill empty chunk space with a given byte
#[derive(Debug)]
pub struct BytePadding(pub u8);

impl BytePadding {
    /// Pad the given bytes so they fit in equal-sized chunks
    pub fn pad(&self, bytes: &[u8]) -> (r: Vec<[u8; 16]>)
        ensures
            blocks_bytes(r@) == fill_pad_spec(bytes@, self.0),
    {
        Padding::BytePadding(self.0).pad(bytes)
    }

    /// Undo the padding
    pub fn unpad(&self, padded_bytes: &[[u8; 16]]) -> (r: Vec<u8>)
        ensures
            r@ == strip_trailing(blocks_bytes(padded_bytes@), self.0),
    {
        Padding::BytePadding(self.0).unpad(padded_bytes)
    }
}

/// Fill empty chunk space with zeroes
#[derive(Debug)]
pub struct ZeroPadding;

impl ZeroPadding {
    /// Pad the given bytes so they fit in equal-sized chunks
    pub fn pad(&self, bytes: &[u8]) -> (r: Vec<[u8; 16]>)
        ensures
            blocks_bytes(r@) == fill_pad_spec(bytes@, 0),
    {
        Padding::ZeroPadding.pad(bytes)
    }

    /// Undo the padding
    pub fn unpad(&self, padded_bytes: &[[u8; 16]]) -> (r: Vec<u8>)
        ensures
            r@ == strip_trailing(blocks_bytes(padded_bytes@), 0),
    {
        Padding::ZeroPadding.unpad(padded_bytes)
    }
}

} // verus!
