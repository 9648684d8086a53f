//! AES keys

use vstd::prelude::*;

use super::{round_key_schedule, GenericKey, Key, Subkey, Word};
use crate::util::{self, be_word};

verus! {

/// A Rijndael key consisting of 128 bits (16 bytes)
pub type AES128Key = GenericKey<4, 11>;

/// A Rijndael key consisting of 192 bits (24 bytes)
pub type AES192Key = GenericKey<6, 13>;

/// A Rijndael key consisting of 256 bits (32 bytes)
pub type AES256Key = GenericKey<8, 15>;

/// The key words of raw key bytes: each group of four bytes read as a
/// big-endian word.
pub open spec fn key_words(bytes: Seq<u8>) -> Seq<Word> {
    Seq::new(
        bytes.len() / 4,
        |k: int| be_word(bytes[4 * k], bytes[4 * k + 1], bytes[4 * k + 2], bytes[4 * k + 3]) as Word,
    )
}

/// Read `N` big-endian words from `4 * N` bytes.
fn words_from_bytes<const N: usize, const B: usize>(bytes: [u8; B]) -> (r: [Word; N])
    requires
        B == 4 * N,
    ensures
        r@ == key_words(bytes@),
{
    let mut words: [Word; N] = [0u32; N];
    let mut k: usize = 0;
    while k < N
        invariant
            0 <= k <= N,
            B == 4 * N,
            forall|j: int|
                0 <= j < k ==> #[trigger] words[j] == be_word(
                    bytes[4 * j],
                    bytes[4 * j + 1],
                    bytes[4 * j + 2],
                    bytes[4 * j + 3],
                ) as Word,
        decreases N - k,
    {
        let chunk = [bytes[4 * k], bytes[4 * k + 1], bytes[4 * k + 2], bytes[4 * k + 3]];
        words[k] = util::bytes_as_u32(chunk);
        k += 1;
    }
    assert(words@ =~= key_words(bytes@));
    words
}

impl Key<11> for AES128Key {
    open spec fn round_key_seq(&self) -> Seq<Subkey> {
        round_key_schedule(self@, 11)
    }

    fn round_keys(&self) -> (r: [Subkey; 11]) {
        self.generate_round_keys()
    }
}

impl Key<13> for AES192Key {
    open spec fn round_key_seq(&self) -> Seq<Subkey> {
        round_key_schedule(self@, 13)
    }

    fn round_keys(&self) -> (r: [Subkey; 13]) {
        self.generate_round_keys()
    }
}

impl Key<15> for AES256Key {
    open spec fn round_key_seq(&self) -> Seq<Subkey> {
        round_key_schedule(self@, 15)
    }

    fn round_keys(&self) -> (r: [Subkey; 15]) {
        self.generate_round_keys()
    }
}

impl AES128Key {
    /// Constructor that takes the 16 raw key bytes
    pub fn from_bytes(bytes: [u8; 16]) -> (r: Self)
        ensures
            r@ == key_words(bytes@),
    {
        Self::new(words_from_bytes(bytes))
    }
}

impl AES192Key {
    /// Constructor that takes the 24 raw key bytes
    pub fn from_bytes(bytes: [u8; 24]) -> (r: Self)
        ensures
            r@ == key_words(bytes@),
    {
        Self::new(words_from_bytes(bytes))
    }
}

impl AES256Key {
    /// Constructor that takes the 32 raw key bytes
    pub fn from_bytes(bytes: [u8; 32]) -> (r: Self)
        ensures
            r@ == key_words(bytes@),
    {
        Self::new(words_from_bytes(bytes))
    }
}

} // verus!
