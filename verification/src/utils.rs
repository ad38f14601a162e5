//! Bit primitives on 32-bit words, and the reader that assembles words from bytes.

use crate::error::ErrorKind;
use std::ops::Range;
use vstd::arithmetic::div_mod::lemma_fundamental_div_mod_converse;
use vstd::arithmetic::power2::{lemma2_to64, lemma_pow2_adds, lemma_pow2_pos, pow2};
use vstd::bits::{
    lemma_u32_low_bits_mask_is_mod, lemma_u32_pow2_no_overflow, lemma_u32_shr_is_div,
    low_bits_mask,
};
use vstd::prelude::*;

verus! {

/// Width of an instruction word in bits.
pub const WORD_BITS: u8 = 32;

/// A half-open bit range `[start, end)` that names at least one bit of a word.
/// Bit 0 is the least significant bit.
pub open spec fn valid_range(range: Range<u8>) -> bool {
    range.start < range.end <= WORD_BITS
}

/// Number of bits in a range.
pub open spec fn width(range: Range<u8>) -> nat {
    (range.end - range.start) as nat
}

/// The bits of `word` in `range`, right-aligned: `word / 2^start mod 2^width`.
pub open spec fn extract(word: u32, range: Range<u8>) -> u32 {
    ((word as nat / pow2(range.start as nat)) % pow2(width(range))) as u32
}

/// The word whose low `n` bits are set and whose other bits are clear, for `1 <= n <= 32`.
pub open spec fn low_mask(n: nat) -> u32 {
    0xffff_ffffu32 >> ((32 - n) as u32)
}

/// `word` and `value` agree on every bit that is set in `mask`.
pub open spec fn masked_equal(word: u32, value: u32, mask: u32) -> bool {
    word & mask == value & mask
}

/// Shifting left and then right leaves the bits between, right-aligned.
proof fn lemma_shift_pair(word: u32, s: u32, l: u32, t: u32)
    by (bit_vector)
    requires
        t == s + l,
        t < 32,
    ensures
        (word << l) >> t == (word >> s) & (0xffff_ffffu32 >> t),
        t == 0 ==> (word << l) >> t == word,
{
}

/// The mask of the low `n` bits is `2^n - 1`.
pub proof fn lemma_low_mask_value(n: nat)
    requires
        1 <= n <= 32,
    ensures
        low_mask(n) == pow2(n) - 1,
{
    let t = (32 - n) as nat;
    lemma2_to64();
    lemma_u32_shr_is_div(0xffff_ffffu32, t as u32);
    lemma_pow2_adds(n, t);
    lemma_pow2_pos(n);
    lemma_pow2_pos(t);
    assert(pow2(32) == pow2(n) * pow2(t));
    assert(0xffff_ffff == (pow2(n) - 1) * pow2(t) + (pow2(t) - 1)) by (nonlinear_arith)
        requires
            0x1_0000_0000 == pow2(n) * pow2(t),
    ;
    lemma_fundamental_div_mod_converse(
        0xffff_ffff,
        pow2(t) as int,
        pow2(n) - 1,
        pow2(t) - 1,
    );
}

/// Extraction, stated with a shift and a mask.
pub proof fn lemma_extract_bitwise(word: u32, range: Range<u8>)
    requires
        valid_range(range),
    ensures
        extract(word, range) == (word >> range.start) & low_mask(width(range)),
        extract(word, range) < pow2(width(range)),
{
    let s = range.start as u32;
    let n = width(range);
    lemma_pow2_pos(n);
    lemma_low_mask_value(n);
    lemma_u32_shr_is_div(word, s);
    let shifted = word >> s;
    assert(shifted == word >> range.start);
    assert(shifted as nat == word as nat / pow2(s as nat));
    if n < 32 {
        lemma_u32_low_bits_mask_is_mod(shifted, n);
        lemma_u32_pow2_no_overflow(n);
        assert(low_bits_mask(n) as u32 == low_mask(n));
    } else {
        lemma2_to64();
        assert(shifted & 0xffff_ffffu32 == shifted) by (bit_vector);
        assert(shifted as nat % pow2(32) == shifted);
    }
}

/// Reading a bit field out of a word.
pub trait GetBits {
    /// The word that the field is read from.
    spec fn word(&self) -> u32;

    /// Returns the bits of the word in `range`, right-aligned to bit 0.
    fn get_bits(&self, range: &Range<u8>) -> (field: u32)
        requires
            valid_range(*range),
        ensures
            field == extract(self.word(), *range),
    ;
}

impl GetBits for u32 {
    open spec fn word(&self) -> u32 {
        *self
    }

    fn get_bits(&self, range: &Range<u8>) -> (field: u32) {
        let lshift: u8 = 32 - range.end;
        let left_shifted: u32 = *self << lshift;
        proof {
            lemma_shift_pair(
                *self,
                range.start as u32,
                lshift as u32,
                (range.start + lshift) as u32,
            );
            lemma_extract_bitwise(*self, *range);
        }
        left_shifted >> (range.start + lshift)
    }
}

/// Comparing a word with a value under a mask.
pub trait TestBits: Sized {
    /// The word that is compared.
    spec fn bits(&self) -> u32;

    /// Returns whether the word agrees with `pattern` on every bit set in `target_mask`.
    fn test_bits(&self, pattern: Self, target_mask: Self) -> (agree: bool)
        ensures
            agree == masked_equal(self.bits(), pattern.bits(), target_mask.bits()),
    ;
}

impl TestBits for u32 {
    open spec fn bits(&self) -> u32 {
        *self
    }

    fn test_bits(&self, pattern: Self, target_mask: Self) -> (agree: bool) {
        let word: u32 = *self;
        assert(((!(word ^ pattern) & target_mask) == target_mask) <==> (word & target_mask
            == pattern & target_mask)) by (bit_vector);
        (!(word ^ pattern) & target_mask) == target_mask
    }
}

/// Tells whether `range` names at least one bit and stays inside the word.
pub fn check_range(range: &Range<u8>) -> (checked: Result<(), ErrorKind>)
    ensures
        checked is Ok <==> valid_range(*range),
        checked is Err ==> checked == Err::<(), ErrorKind>(ErrorKind::InvalidRange),
{
    if range.start < range.end && range.end <= WORD_BITS {
        Ok(())
    } else {
        Err(ErrorKind::InvalidRange)
    }
}

/// The word that four bytes hold, the first byte being the least significant.
pub open spec fn le_word(b0: u8, b1: u8, b2: u8, b3: u8) -> u32 {
    (b0 + b1 * 0x100 + b2 * 0x1_0000 + b3 * 0x100_0000) as u32
}

/// Joining four bytes by shifts gives the sum of their place values.
proof fn lemma_le_word(b0: u8, b1: u8, b2: u8, b3: u8)
    by (bit_vector)
    ensures
        (b0 as u32) | ((b1 as u32) << 8) | ((b2 as u32) << 16) | ((b3 as u32) << 24) == b0 + b1
            * 0x100 + b2 * 0x1_0000 + b3 * 0x100_0000,
{
}

/// Assembles a word from four bytes, the first being the least significant.
pub fn word_from_le_bytes(b0: u8, b1: u8, b2: u8, b3: u8) -> (word: u32)
    ensures
        word == le_word(b0, b1, b2, b3),
{
    proof {
        lemma_le_word(b0, b1, b2, b3);
    }
    (b0 as u32) | ((b1 as u32) << 8) | ((b2 as u32) << 16) | ((b3 as u32) << 24)
}

/// Reads instruction words from bytes: each four bytes in turn give one
/// word, least significant byte first.
pub struct InstReader {
    bytes: Vec<u8>,
    pos: usize,
}

impl InstReader {
    #[verifier::type_invariant]
    spec fn inv(&self) -> bool {
        self.pos <= self.bytes@.len()
    }

    /// The bytes that have not been read yet.
    pub closed spec fn remaining(&self) -> Seq<u8> {
        self.bytes@.skip(self.pos as int)
    }

    /// Starts reading at the first of `bytes`.
    pub fn new(bytes: Vec<u8>) -> (reader: Self)
        ensures
            reader.remaining() == bytes@,
    {
        assert(bytes@.skip(0) =~= bytes@);
        InstReader { bytes, pos: 0 }
    }

    /// Returns the next word. If fewer than four bytes are left, they are
    /// dropped, and no word is returned, now or later.
    pub fn next(&mut self) -> (word: Option<u32>)
        ensures
            old(self).remaining().len() >= 4 ==> word == Some(
                le_word(
                    old(self).remaining()[0],
                    old(self).remaining()[1],
                    old(self).remaining()[2],
                    old(self).remaining()[3],
                ),
            ) && final(self).remaining() == old(self).remaining().skip(4),
            old(self).remaining().len() < 4 ==> word is None && final(self).remaining().len() == 0,
    {
        proof {
            use_type_invariant(&*self);
        }
        let len = self.bytes.len();
        if len - self.pos < 4 {
            self.pos = len;
            return None;
        }
        let b0 = self.bytes[self.pos];
        let b1 = self.bytes[self.pos + 1];
        let b2 = self.bytes[self.pos + 2];
        let b3 = self.bytes[self.pos + 3];
        proof {
            assert(self.bytes@.skip(self.pos as int).skip(4) =~= self.bytes@.skip(self.pos + 4));
        }
        self.pos = self.pos + 4;
        Some(word_from_le_bytes(b0, b1, b2, b3))
    }
}

} // verus!
