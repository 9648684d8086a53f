//! Rijndael keys and their round key schedule

use vstd::prelude::*;

use crate::lookups::gmul::{gf_mul, lemma_gf_mul_2, xtime};
use crate::lookups::sbox::sub_byte;
use crate::util::be_word;

mod aes;
mod generic;

pub use aes::{key_words, AES128Key, AES192Key, AES256Key};
pub use generic::GenericKey;

verus! {

/// A 32-bit word of the key schedule
pub type Word = u32;

/// A 128-bit round key
pub type Subkey = u128;

/// Round constants: the successive powers of 2 in GF(2^8), from index 1 on
pub const RCON: [u8; 11] = [0x00, 0x01, 0x02, 0x04, 0x08, 0x10, 0x20, 0x40, 0x80, 0x1b, 0x36];

/// A key type that yields `R` round keys
pub trait Key<const R: usize> {
    /// The round keys, in the order in which encryption uses them.
    spec fn round_key_seq(&self) -> Seq<Subkey>;

    /// Generate a subkey for each round.
    fn round_keys(&self) -> (r: [Subkey; R])
        ensures
            r@ == self.round_key_seq(),
    ;
}

/// Whether `N` key words and `R` round keys form one of the Rijndael
/// variants (128, 192 or 256 bits).
pub open spec fn valid_key_size(n: int, r: int) -> bool {
    (n == 4 || n == 6 || n == 8) && r == n + 7
}

/// Byte `k` (0 is the most significant) of a word.
pub open spec fn word_byte(w: Word, k: int) -> u8 {
    (w >> ((8 * (3 - k)) as u32)) as u8
}

/// Each byte of a word substituted through the S-box.
pub open spec fn sub_word(w: Word) -> Word {
    be_word(
        sub_byte(word_byte(w, 0)),
        sub_byte(word_byte(w, 1)),
        sub_byte(word_byte(w, 2)),
        sub_byte(word_byte(w, 3)),
    ) as Word
}

/// The bytes of a word rotated left by one, then substituted through the S-box.
pub open spec fn rot_sub_word(w: Word) -> Word {
    be_word(
        sub_byte(word_byte(w, 1)),
        sub_byte(word_byte(w, 2)),
        sub_byte(word_byte(w, 3)),
        sub_byte(word_byte(w, 0)),
    ) as Word
}

/// Round constant `j` in the most significant byte of a word.
pub open spec fn rcon_word(j: int) -> Word {
    be_word(RCON[j], 0, 0, 0) as Word
}

/// Word `i` of the expanded key of the raw key words `key`.
pub open spec fn schedule_word(key: Seq<Word>, i: nat) -> Word
    decreases i,
{
    let n = key.len();
    if i < n {
        key[i as int]
    } else if n == 0 {
        0
    } else {
        let prev = schedule_word(key, (i - 1) as nat);
        let prev_round = schedule_word(key, (i - n) as nat);
        if i % n == 0 {
            prev_round ^ rot_sub_word(prev) ^ rcon_word((i / n) as int)
        } else if n > 6 && i % n == 4 {
            prev_round ^ sub_word(prev)
        } else {
            prev_round ^ prev
        }
    }
}

/// Four words joined into a 128-bit value, the first word most significant.
pub open spec fn join_words(w0: Word, w1: Word, w2: Word, w3: Word) -> Subkey {
    (w0 * 0x1_0000_0000_0000_0000_0000_0000 + w1 * 0x1_0000_0000_0000_0000 + w2 * 0x1_0000_0000
        + w3) as Subkey
}

/// The `r` round keys of the raw key words `key`: round key `j` joins the
/// expanded key words `4 * j` to `4 * j + 3`.
pub open spec fn round_key_schedule(key: Seq<Word>, r: nat) -> Seq<Subkey> {
    Seq::new(
        r,
        |j: int|
            join_words(
                schedule_word(key, (4 * j) as nat),
                schedule_word(key, (4 * j + 1) as nat),
                schedule_word(key, (4 * j + 2) as nat),
                schedule_word(key, (4 * j + 3) as nat),
            ),
    )
}

/// The round key schedule is a function of the raw key alone: equal keys
/// give equal schedules, and there are exactly `r` round keys.
pub proof fn lemma_round_key_schedule_deterministic(k1: Seq<Word>, k2: Seq<Word>, r: nat)
    requires
        k1 == k2,
    ensures
        round_key_schedule(k1, r) == round_key_schedule(k2, r),
        round_key_schedule(k1, r).len() == r,
{
}

/// The first round key is the raw key itself: for a key of at least four
/// words, round key 0 joins the first four raw key words.
pub proof fn lemma_first_round_key(key: Seq<Word>, r: nat)
    requires
        key.len() >= 4,
        r >= 1,
    ensures
        round_key_schedule(key, r)[0] == join_words(key[0], key[1], key[2], key[3]),
{
}

/// The round constants from index 1 on are the successive powers of 2 in
/// GF(2^8): 1, then each the double of the one before.
pub proof fn lemma_rcon_doubling()
    ensures
        RCON[1] == 1,
        forall|k: int| 1 <= k < 10 ==> #[trigger] RCON[k + 1] == gf_mul(RCON[k], 2),
{
    reveal(xtime);
    assert(xtime(1u8) == 2u8 && xtime(2u8) == 4u8 && xtime(4u8) == 8u8 && xtime(8u8) == 0x10u8
        && xtime(0x10u8) == 0x20u8 && xtime(0x20u8) == 0x40u8 && xtime(0x40u8) == 0x80u8 && xtime(
        0x80u8,
    ) == 0x1bu8 && xtime(0x1bu8) == 0x36u8) by (bit_vector);
    assert forall|k: int| 1 <= k < 10 implies #[trigger] RCON[k + 1] == gf_mul(RCON[k], 2) by {
        lemma_gf_mul_2(RCON[k]);
        assert(k == 1 || k == 2 || k == 3 || k == 4 || k == 5 || k == 6 || k == 7 || k == 8 || k
            == 9);
    }
}

} // verus!
