//! Generic Rijndael key

use vstd::prelude::*;

use super::{
    join_words, rcon_word, rot_sub_word, round_key_schedule, schedule_word, sub_word,
    valid_key_size, word_byte, Subkey, Word, RCON,
};
use crate::lookups::sbox::SBOX;
use crate::util;

verus! {

/// A generic Rijndael key type with `N` key words and `R` round keys
#[derive(Debug)]
pub struct GenericKey<const N: usize, const R: usize> {
    words: [Word; N],
}

impl<const N: usize, const R: usize> View for GenericKey<N, R> {
    type V = Seq<Word>;

    closed spec fn view(&self) -> Seq<Word> {
        self.words@
    }
}

/// The bytes of a word, most significant first.
fn word_to_bytes(w: Word) -> (r: [u8; 4])
    ensures
        forall|k: int| 0 <= k < 4 ==> #[trigger] r[k] == word_byte(w, k),
{
    let r = [(w >> 24u32) as u8, (w >> 16u32) as u8, (w >> 8u32) as u8, w as u8];
    assert(r[3] == word_byte(w, 3)) by {
        assert((w >> 0u32) == w) by (bit_vector);
    }
    r
}

impl<const N: usize, const R: usize> GenericKey<N, R> {
    #[verifier::type_invariant]
    spec fn inv(&self) -> bool {
        valid_key_size(N as int, R as int)
    }

    /// Constructor that takes the raw key words
    pub fn new(raw_key: [Word; N]) -> (r: Self)
        requires
            valid_key_size(N as int, R as int),
        ensures
            r@ == raw_key@,
    {
        Self { words: raw_key }
    }

    /// AES key expansion: the `4 * R` words of the expanded key
    fn key_schedule(&self) -> (r: Vec<Word>)
        ensures
            r.len() == 4 * R,
            forall|i: int| 0 <= i < 4 * R ==> #[trigger] r[i] == schedule_word(self@, i as nat),
    {
        proof {
            use_type_invariant(self);
        }
        let mut words: Vec<Word> = Vec::with_capacity(R * 4);
        let mut i: usize = 0;
        while i < N
            invariant
                0 <= i <= N,
                valid_key_size(N as int, R as int),
                self@.len() == N,
                words.len() == i,
                forall|j: int| 0 <= j < i ==> #[trigger] words[j] == schedule_word(self@, j as nat),
            decreases N - i,
        {
            words.push(self.words[i]);
            i += 1;
        }
        while i < R * 4
            invariant
                N <= i <= 4 * R,
                valid_key_size(N as int, R as int),
                self@.len() == N,
                words.len() == i,
                forall|j: int| 0 <= j < i ==> #[trigger] words[j] == schedule_word(self@, j as nat),
            decreases 4 * R - i,
        {
            let prev_round = words[i - N];
            let prev = words[i - 1];
            let ghost expected = schedule_word(self@, i as nat);
            let word = if i % N == 0 {
                let bytes = util::apply_sbox(util::rot_left(word_to_bytes(prev), 1), SBOX);
                assert(i / N <= 10) by {
                    assert(N == 4 ==> i / N <= 10);
                    assert(N == 6 ==> i / N <= 10);
                    assert(N == 8 ==> i / N <= 10);
                }
                let rcon = util::bytes_as_u32([RCON[i / N], 0, 0, 0]);
                let sub = util::bytes_as_u32(bytes);
                assert(sub == rot_sub_word(prev));
                prev_round ^ sub ^ rcon
            } else if N > 6 && i % N == 4 {
                let bytes = util::apply_sbox(word_to_bytes(prev), SBOX);
                let sub = util::bytes_as_u32(bytes);
                assert(sub == sub_word(prev));
                prev_round ^ sub
            } else {
                prev_round ^ prev
            };
            assert(word == expected);
            words.push(word);
            i += 1;
        }
        words
    }

    /// Generate a subkey for each round
    pub fn generate_round_keys(&self) -> (r: [Subkey; R])
        ensures
            r@ == round_key_schedule(self@, R as nat),
    {
        proof {
            use_type_invariant(self);
        }
        let words = self.key_schedule();
        let mut round_keys: [Subkey; R] = [0u128; R];
        let mut j: usize = 0;
        while j < R
            invariant
                0 <= j <= R,
                valid_key_size(N as int, R as int),
                words.len() == 4 * R,
                forall|i: int| 0 <= i < 4 * R ==> #[trigger] words[i] == schedule_word(self@, i as nat),
                forall|k: int|
                    0 <= k < j ==> #[trigger] round_keys[k] == round_key_schedule(self@, R as nat)[k],
            decreases R - j,
        {
            let (w0, w1, w2, w3) = (words[4 * j], words[4 * j + 1], words[4 * j + 2], words[4 * j + 3]);
            let key = ((w0 as u128) << 96u32) | ((w1 as u128) << 64u32) | ((w2 as u128) << 32u32) | (
            w3 as u128);
            assert(key == join_words(w0, w1, w2, w3)) by (bit_vector)
                requires
                    key == ((w0 as u128) << 96u32) | ((w1 as u128) << 64u32) | ((w2 as u128) << 32u32)
                        | (w3 as u128),
            ;
            round_keys[j] = key;
            j += 1;
        }
        assert(round_keys@ =~= round_key_schedule(self@, R as nat));
        round_keys
    }
}

} // verus!
