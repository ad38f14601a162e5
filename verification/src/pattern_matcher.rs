//! Masked bit patterns, the bit strings they are compiled from, and the
//! priority-ordered tables that classify a word by its first matching rule.

use crate::error::ErrorKind;
use crate::utils::{
    extract, lemma_extract_bitwise, lemma_low_mask_value, masked_equal, valid_range, width,
    GetBits, TestBits,
};
use std::marker::PhantomData;
use std::ops::Range;
use vstd::arithmetic::div_mod::{lemma_div_by_multiple, lemma_div_denominator, lemma_small_mod};
use vstd::arithmetic::power2::{
    lemma2_to64, lemma_pow2_adds, lemma_pow2_pos, lemma_pow2_strictly_increases,
    lemma_pow2_unfold, pow2,
};
use vstd::bits::lemma_u32_shl_is_mul;
use vstd::prelude::*;
use vstd::string::StrSliceExecFns;

verus! {

/// Bits that a word must hold: `mask` selects the bits that count, and
/// `pattern` gives their required values.
#[derive(Clone, Copy, Debug, PartialEq, Eq)]
pub struct Pattern {
    pub pattern: u32,
    pub mask: u32,
}

impl Pattern {
    /// The pattern that every word matches.
    pub open spec fn any() -> Pattern {
        Pattern { pattern: 0, mask: 0 }
    }

    /// `word` holds the required value at every bit that counts.
    pub open spec fn matches(self, word: u32) -> bool {
        masked_equal(word, self.pattern, self.mask)
    }

    /// No bit is required to be set outside the mask.
    pub open spec fn wf(self) -> bool {
        self.pattern & !self.mask == 0
    }

    /// Both patterns at once: a bit counts if it counts in either.
    pub open spec fn union(self, other: Pattern) -> Pattern {
        Pattern { pattern: self.pattern | other.pattern, mask: self.mask | other.mask }
    }
}

/// `c` stands for one bit: `'0'` and `'1'` fix it, `'x'` leaves it free.
pub open spec fn is_bit_char(c: char) -> bool {
    c == '0' || c == '1' || c == 'x'
}

/// Every one of the first `n` characters is a bit character or the separator `'_'`.
pub open spec fn well_formed_upto(s: Seq<char>, n: nat) -> bool
    decreases n,
{
    n == 0 || (well_formed_upto(s, (n - 1) as nat) && (is_bit_char(s[n - 1]) || s[n - 1] == '_'))
}

/// Number of characters other than `'_'` among the first `n`.
pub open spec fn bit_count_upto(s: Seq<char>, n: nat) -> nat
    decreases n,
{
    if n == 0 {
        0
    } else if s[n - 1] == '_' {
        bit_count_upto(s, (n - 1) as nat)
    } else {
        bit_count_upto(s, (n - 1) as nat) + 1
    }
}

/// The first `n` characters read as a binary numeral, `'1'` being the only set digit.
pub open spec fn bit_value_upto(s: Seq<char>, n: nat) -> nat
    decreases n,
{
    if n == 0 {
        0
    } else if s[n - 1] == '_' {
        bit_value_upto(s, (n - 1) as nat)
    } else if s[n - 1] == '1' {
        2 * bit_value_upto(s, (n - 1) as nat) + 1
    } else {
        2 * bit_value_upto(s, (n - 1) as nat)
    }
}

/// The first `n` characters read as a binary numeral, `'0'` and `'1'` being the set digits.
pub open spec fn bit_mask_upto(s: Seq<char>, n: nat) -> nat
    decreases n,
{
    if n == 0 {
        0
    } else if s[n - 1] == '_' {
        bit_mask_upto(s, (n - 1) as nat)
    } else if s[n - 1] == '0' || s[n - 1] == '1' {
        2 * bit_mask_upto(s, (n - 1) as nat) + 1
    } else {
        2 * bit_mask_upto(s, (n - 1) as nat)
    }
}

/// The string holds nothing but `'0'`, `'1'`, `'x'` and `'_'`.
pub open spec fn well_formed(s: Seq<char>) -> bool {
    well_formed_upto(s, s.len())
}

/// Number of bits that the string describes.
pub open spec fn bit_count(s: Seq<char>) -> nat {
    bit_count_upto(s, s.len())
}

/// Required values of the described bits, the last character being bit 0.
pub open spec fn bit_value(s: Seq<char>) -> nat {
    bit_value_upto(s, s.len())
}

/// Which of the described bits count, the last character being bit 0.
pub open spec fn bit_mask(s: Seq<char>) -> nat {
    bit_mask_upto(s, s.len())
}

/// The string is well formed and describes `count` bits, with the given value and mask.
pub open spec fn describes(s: Seq<char>, value: nat, mask: nat, count: nat) -> bool {
    &&& well_formed(s)
    &&& bit_value(s) == value
    &&& bit_mask(s) == mask
    &&& bit_count(s) == count
}

/// What a bit string means for the field at `range`: the string must describe
/// exactly the bits of the field, and is then moved to the field's position.
pub open spec fn compile(s: Seq<char>, range: Range<u8>) -> Result<Pattern, ErrorKind> {
    if bit_count(s) != width(range) {
        Err(ErrorKind::PatternArityMismatch)
    } else {
        Ok(
            Pattern {
                pattern: (bit_value(s) as u32) << range.start,
                mask: (bit_mask(s) as u32) << range.start,
            },
        )
    }
}

/// A bit string compiles exactly if it describes as many bits as its field
/// has. One bit more or less, and the fault is a pattern arity mismatch.
pub proof fn lemma_compile_arity(s: Seq<char>, range: Range<u8>)
    ensures
        compile(s, range) is Ok <==> bit_count(s) == width(range),
        compile(s, range) is Err ==> compile(s, range) == Err::<Pattern, ErrorKind>(
            ErrorKind::PatternArityMismatch,
        ),
{
}

/// A string is well formed exactly if each of its characters is one of the four.
pub proof fn lemma_well_formed_chars(s: Seq<char>, n: nat)
    requires
        n <= s.len(),
    ensures
        well_formed_upto(s, n) <==> forall|i: int|
            0 <= i < n ==> is_bit_char(#[trigger] s[i]) || s[i] == '_',
    decreases n,
{
    if n > 0 {
        lemma_well_formed_chars(s, (n - 1) as nat);
    }
}

/// Reading on never loses a bit that was counted.
pub proof fn lemma_bit_count_grows(s: Seq<char>, m: nat, n: nat)
    requires
        m <= n,
    ensures
        bit_count_upto(s, m) <= bit_count_upto(s, n) <= n,
    decreases n,
{
    if m < n {
        lemma_bit_count_grows(s, m, (n - 1) as nat);
    } else if n > 0 {
        lemma_bit_count_grows(s, (n - 1) as nat, (n - 1) as nat);
    }
}

/// The numerals that a string describes fit in as many bits as it describes, and
/// no bit is set in the value that does not count.
pub proof fn lemma_bit_numerals(s: Seq<char>, n: nat)
    ensures
        bit_mask_upto(s, n) < pow2(bit_count_upto(s, n)),
        bit_value_upto(s, n) <= bit_mask_upto(s, n),
    decreases n,
{
    lemma2_to64();
    if n > 0 {
        lemma_bit_numerals(s, (n - 1) as nat);
        if s[n - 1] != '_' {
            lemma_pow2_unfold(bit_count_upto(s, n));
        }
    }
}

/// The bit character that describes bit `k` among the first `n` characters: the
/// last of them describes bit 0, the one before it bit 1, and so on, `'_'` not counted.
pub open spec fn bit_char(s: Seq<char>, n: nat, k: nat) -> char
    decreases n,
{
    if n == 0 {
        'x'
    } else if s[n - 1] == '_' {
        bit_char(s, (n - 1) as nat, k)
    } else if k == 0 {
        s[n - 1]
    } else {
        bit_char(s, (n - 1) as nat, (k - 1) as nat)
    }
}

/// Bit `k` of the mask is set exactly if the character that describes it is `'0'`
/// or `'1'`, and bit `k` of the value exactly if that character is `'1'`.
pub proof fn lemma_bit_positions(s: Seq<char>, n: nat, k: nat)
    requires
        n <= s.len(),
        k < bit_count_upto(s, n),
    ensures
        (bit_mask_upto(s, n) / pow2(k)) % 2 == (if bit_char(s, n, k) == '0' || bit_char(s, n, k)
            == '1' {
            1nat
        } else {
            0nat
        }),
        (bit_value_upto(s, n) / pow2(k)) % 2 == (if bit_char(s, n, k) == '1' {
            1nat
        } else {
            0nat
        }),
    decreases n,
{
    lemma2_to64();
    assert(n > 0);
    let m = (n - 1) as nat;
    let c = s[n - 1];
    if c == '_' {
        lemma_bit_positions(s, m, k);
    } else {
        let mask = bit_mask_upto(s, n);
        let value = bit_value_upto(s, n);
        assert(mask == 2 * bit_mask_upto(s, m) + (if c == '0' || c == '1' {
            1nat
        } else {
            0nat
        }));
        assert(value == 2 * bit_value_upto(s, m) + (if c == '1' {
            1nat
        } else {
            0nat
        }));
        if k > 0 {
            let j = (k - 1) as nat;
            lemma_bit_positions(s, m, j);
            lemma_pow2_unfold(k);
            lemma_pow2_pos(j);
            lemma_div_denominator(mask as int, 2, pow2(j) as int);
            lemma_div_denominator(value as int, 2, pow2(j) as int);
            assert(mask / 2 == bit_mask_upto(s, m));
            assert(value / 2 == bit_value_upto(s, m));
            assert(mask / pow2(k) == bit_mask_upto(s, m) / pow2(j));
            assert(value / pow2(k) == bit_value_upto(s, m) / pow2(j));
        } else {
            assert(mask / pow2(0) == mask);
            assert(value / pow2(0) == value);
        }
    }
}

/// Compiling and extracting are inverse: what a compiled bit string holds in its
/// field is what the string describes, and it holds nothing outside the field.
pub proof fn lemma_compile_round_trip(s: Seq<char>, range: Range<u8>)
    requires
        valid_range(range),
        bit_count(s) == width(range),
    ensures
        compile(s, range) matches Ok(p) && {
            &&& p.pattern == bit_value(s) * pow2(range.start as nat)
            &&& p.mask == bit_mask(s) * pow2(range.start as nat)
            &&& extract(p.pattern, range) == bit_value(s)
            &&& extract(p.mask, range) == bit_mask(s)
            &&& p.mask < pow2(range.end as nat)
            &&& p.wf()
        },
{
    let start = range.start as nat;
    let n = width(range);
    let v = bit_value(s);
    let m = bit_mask(s);
    let p = compile(s, range)->Ok_0;
    lemma2_to64();
    lemma_bit_numerals(s, s.len());
    lemma_pow2_pos(start);
    lemma_pow2_pos(n);
    lemma_pow2_adds(n, start);
    if range.end < 32 {
        lemma_pow2_strictly_increases(range.end as nat, 32);
    }
    assert(m * pow2(start) < pow2(n) * pow2(start)) by (nonlinear_arith)
        requires
            m < pow2(n),
            pow2(start) > 0,
    ;
    assert(v * pow2(start) <= m * pow2(start)) by (nonlinear_arith)
        requires
            v <= m,
            pow2(start) > 0,
    ;
    lemma_u32_shl_is_mul(v as u32, start as u32);
    lemma_u32_shl_is_mul(m as u32, start as u32);
    assert(p.pattern == v * pow2(start));
    assert(p.mask == m * pow2(start));
    lemma_div_by_multiple(v as int, pow2(start) as int);
    lemma_div_by_multiple(m as int, pow2(start) as int);
    lemma_small_mod(v, pow2(n));
    lemma_small_mod(m, pow2(n));
    lemma_compile_wf(s, range);
}

/// In a compiled bit string, bit `start + k` of the mask is set exactly if the
/// character that describes bit `k` of the field is `'0'` or `'1'`, and that bit
/// of the pattern exactly if the character is `'1'`.
pub proof fn lemma_compiled_bits(s: Seq<char>, range: Range<u8>, k: nat)
    requires
        valid_range(range),
        bit_count(s) == width(range),
        k < width(range),
    ensures
        compile(s, range) matches Ok(p) && {
            &&& (p.mask as nat / pow2(range.start as nat + k)) % 2 == 1 <==> (bit_char(
                s,
                s.len(),
                k,
            ) == '0' || bit_char(s, s.len(), k) == '1')
            &&& (p.pattern as nat / pow2(range.start as nat + k)) % 2 == 1 <==> bit_char(
                s,
                s.len(),
                k,
            ) == '1'
        },
{
    let start = range.start as nat;
    let p = compile(s, range)->Ok_0;
    lemma_compile_round_trip(s, range);
    lemma_bit_positions(s, s.len(), k);
    lemma_pow2_pos(start);
    lemma_pow2_pos(k);
    lemma_pow2_adds(start, k);
    lemma_div_denominator(p.mask as int, pow2(start) as int, pow2(k) as int);
    lemma_div_denominator(p.pattern as int, pow2(start) as int, pow2(k) as int);
    lemma_div_by_multiple(bit_mask(s) as int, pow2(start) as int);
    lemma_div_by_multiple(bit_value(s) as int, pow2(start) as int);
}

/// A pattern moved to a field matches a word exactly if it matches the field.
proof fn lemma_placed_matches(word: u32, v: u32, m: u32, s: u32, t: u32)
    by (bit_vector)
    requires
        s < 32,
        t < 32,
        m <= (0xffff_ffffu32 >> t),
        s <= t,
    ensures
        (word & (m << s) == (v << s) & (m << s)) <==> (((word >> s) & (0xffff_ffffu32 >> t)) & m
            == v & m),
{
}

/// A compiled bit string looks at its field alone: it matches a word exactly if
/// the value of the field agrees with what the string describes.
pub proof fn lemma_compiled_matches_field(s: Seq<char>, range: Range<u8>, word: u32)
    requires
        valid_range(range),
        bit_count(s) == width(range),
    ensures
        compile(s, range) matches Ok(p) && (p.matches(word) <==> masked_equal(
            extract(word, range),
            bit_value(s) as u32,
            bit_mask(s) as u32,
        )),
{
    let n = width(range);
    let t = (32 - n) as u32;
    lemma_compile_round_trip(s, range);
    lemma_bit_numerals(s, s.len());
    lemma_low_mask_value(n);
    lemma_extract_bitwise(word, range);
    lemma_placed_matches(word, bit_value(s) as u32, bit_mask(s) as u32, range.start as u32, t);
}

/// Appending a binary digit doubles the numeral and adds the digit.
proof fn lemma_push_bit(acc: u32, bit: u32)
    by (bit_vector)
    requires
        acc < 0x8000_0000,
        bit <= 1,
    ensures
        (acc << 1) | bit == 2 * acc + bit,
{
}

/// Reads a bit string for the field at `range`.
///
/// The string is read left to right, most significant bit first; `'_'` is
/// skipped. It fails if the string does not describe exactly the bits of
/// the field.
pub fn parse_pattern(pattern: &str, range: &Range<u8>) -> (compiled: Result<Pattern, ErrorKind>)
    requires
        well_formed(pattern@),
        valid_range(*range),
    ensures
        compiled == compile(pattern@, *range),
{
    let len = pattern.unicode_len();
    let mut pattern_result: u32 = 0;
    let mut mask_result: u32 = 0;
    let mut count: u8 = 0;
    let mut i: usize = 0;
    while i < len
        invariant
            i <= len,
            len == pattern@.len(),
            well_formed(pattern@),
            valid_range(*range),
            count <= 32,
            count == bit_count_upto(pattern@, i as nat),
            pattern_result == bit_value_upto(pattern@, i as nat),
            mask_result == bit_mask_upto(pattern@, i as nat),
        decreases len - i,
    {
        let c = pattern.get_char(i);
        proof {
            lemma_well_formed_chars(pattern@, len as nat);
            lemma_bit_numerals(pattern@, i as nat);
            lemma_bit_numerals(pattern@, (i + 1) as nat);
            lemma2_to64();
        }
        if c != '_' {
            if count == 32 {
                proof {
                    assert(bit_count_upto(pattern@, (i + 1) as nat) == 33);
                    lemma_bit_count_grows(pattern@, (i + 1) as nat, len as nat);
                }
                return Err(ErrorKind::PatternArityMismatch);
            }
            let (pat, mask): (u32, u32) = if c == '1' {
                (1, 1)
            } else if c == '0' {
                (0, 1)
            } else if c == 'x' {
                (0, 0)
            } else {
                unreached()
            };
            proof {
                assert(mask_result < pow2(count as nat));
                assert(pow2(count as nat) <= 0x8000_0000) by {
                    lemma_pow2_strictly_increases(count as nat, 32);
                    lemma_pow2_unfold(32);
                    if count < 31 {
                        lemma_pow2_strictly_increases(count as nat, 31);
                    }
                }
                lemma_push_bit(pattern_result, pat);
                lemma_push_bit(mask_result, mask);
            }
            pattern_result = (pattern_result << 1) | pat;
            mask_result = (mask_result << 1) | mask;
            count = count + 1;
        }
        i = i + 1;
    }
    if count != range.end - range.start {
        return Err(ErrorKind::PatternArityMismatch);
    }
    Ok(Pattern { pattern: pattern_result << range.start, mask: mask_result << range.start })
}

/// A named bit range of the word.
pub struct FieldSpec {
    pub name: Seq<char>,
    pub range: Range<u8>,
}

/// A pattern and the tag that a word matching it is given.
pub struct Rule<T> {
    pub tag: T,
    pub pattern: Pattern,
}

/// What a table holds: its fields in the order they were declared, and its
/// rules in the order they were declared, which is their priority.
pub struct Table<T> {
    pub fields: Seq<FieldSpec>,
    pub rules: Seq<Rule<T>>,
}

impl<T> Table<T> {
    /// Rule `i` matches `word` and no rule before it does.
    pub open spec fn is_first_match(self, word: u32, i: int) -> bool {
        &&& 0 <= i < self.rules.len()
        &&& self.rules[i].pattern.matches(word)
        &&& forall|j: int| 0 <= j < i ==> !(#[trigger] self.rules[j]).pattern.matches(word)
    }

    /// Some rule matches `word`.
    pub open spec fn covers(self, word: u32) -> bool {
        exists|i: int| 0 <= i < self.rules.len() && (#[trigger] self.rules[i]).pattern.matches(word)
    }

    /// Position of the first rule that matches `word`.
    pub open spec fn first_match(self, word: u32) -> Option<int> {
        if exists|i: int| self.is_first_match(word, i) {
            Some(choose|i: int| self.is_first_match(word, i))
        } else {
            None
        }
    }

    /// The tag of the first rule that matches `word`, if any rule does.
    pub open spec fn classify(self, word: u32) -> Option<T> {
        match self.first_match(word) {
            Some(i) => Some(self.rules[i].tag),
            None => None,
        }
    }

    /// The value that `word` holds in the field declared at position `index`.
    pub open spec fn field(self, word: u32, index: int) -> u32 {
        extract(word, self.fields[index].range)
    }

    /// Every field names bits of the word, and no rule requires a bit to be set
    /// that it does not look at.
    pub open spec fn wf(self) -> bool {
        &&& forall|i: int|
            0 <= i < self.fields.len() ==> valid_range((#[trigger] self.fields[i]).range)
        &&& forall|i: int| 0 <= i < self.rules.len() ==> (#[trigger] self.rules[i]).pattern.wf()
    }
}

/// At most one rule is the first to match.
pub proof fn lemma_first_match_unique<T>(table: Table<T>, word: u32, i: int, j: int)
    requires
        table.is_first_match(word, i),
        table.is_first_match(word, j),
    ensures
        i == j,
{
    if i < j {
        assert(!table.rules[i].pattern.matches(word));
    } else if j < i {
        assert(!table.rules[j].pattern.matches(word));
    }
}

/// If any rule matches among the first `n`, one of them is the first to match.
proof fn lemma_first_match_exists<T>(table: Table<T>, word: u32, n: int) -> (i: int)
    requires
        0 <= n <= table.rules.len(),
        exists|k: int| 0 <= k < n && (#[trigger] table.rules[k]).pattern.matches(word),
    ensures
        table.is_first_match(word, i),
        i < n,
    decreases n,
{
    if exists|k: int| 0 <= k < n - 1 && (#[trigger] table.rules[k]).pattern.matches(word) {
        lemma_first_match_exists(table, word, n - 1)
    } else {
        let k = choose|k: int| 0 <= k < n && (#[trigger] table.rules[k]).pattern.matches(word);
        assert(k == n - 1);
        n - 1
    }
}

/// Precedence is positional: the tag given to a word is that of the first rule
/// in declaration order that matches it, whatever rules follow, and a word
/// gets no tag exactly if no rule matches it.
pub proof fn lemma_classify<T>(table: Table<T>, word: u32)
    ensures
        forall|i: int| table.is_first_match(word, i) ==> table.first_match(word) == Some(i),
        forall|i: int| #[trigger]
            table.is_first_match(word, i) ==> table.classify(word) == Some(table.rules[i].tag),
        table.classify(word) is Some <==> table.covers(word),
        table.classify(word) is None <==> forall|i: int|
            0 <= i < table.rules.len() ==> !(#[trigger] table.rules[i]).pattern.matches(word),
{
    assert forall|i: int| table.is_first_match(word, i) implies table.first_match(word) == Some(
        i,
    ) by {
        let c = choose|c: int| table.is_first_match(word, c);
        lemma_first_match_unique(table, word, i, c);
    }
    if table.covers(word) {
        let i = lemma_first_match_exists(table, word, table.rules.len() as int);
        assert(table.classify(word) is Some);
    }
    if table.classify(word) is Some {
        let c = choose|c: int| table.is_first_match(word, c);
        assert(table.rules[c].pattern.matches(word));
    }
}

/// The tag of the first rule that matches `word` among those from position
/// `from` on: the scan that classification amounts to.
pub open spec fn classify_from<T>(rules: Seq<Rule<T>>, word: u32, from: int) -> Option<T>
    decreases rules.len() - from,
{
    if from < 0 || from >= rules.len() {
        None
    } else if rules[from].pattern.matches(word) {
        Some(rules[from].tag)
    } else {
        classify_from(rules, word, from + 1)
    }
}

/// Classification is the scan of the rules from the first one on.
pub proof fn lemma_classify_is_scan<T>(table: Table<T>, word: u32)
    ensures
        table.classify(word) == classify_from(table.rules, word, 0),
{
    lemma_scan_from(table, word, 0);
    lemma_classify(table, word);
}

/// If no rule before `from` matches, the scan from `from` on gives what
/// classification gives.
proof fn lemma_scan_from<T>(table: Table<T>, word: u32, from: int)
    requires
        0 <= from <= table.rules.len(),
        forall|j: int| 0 <= j < from ==> !(#[trigger] table.rules[j]).pattern.matches(word),
    ensures
        table.classify(word) == classify_from(table.rules, word, from),
    decreases table.rules.len() - from,
{
    lemma_classify(table, word);
    if from < table.rules.len() {
        if table.rules[from].pattern.matches(word) {
            assert(table.is_first_match(word, from));
        } else {
            lemma_scan_from(table, word, from + 1);
        }
    }
}

/// The rule at position `i` is what the bit string `frags[i]` compiles to for `range`.
pub open spec fn compiled_from<T>(
    table: Table<T>,
    frags: Seq<Seq<char>>,
    range: Range<u8>,
) -> bool {
    &&& frags.len() == table.rules.len()
    &&& forall|i: int|
        0 <= i < frags.len() ==> compile(#[trigger] frags[i], range) == Ok::<Pattern, ErrorKind>(
            table.rules[i].pattern,
        )
}

/// Some bit string of `frags` agrees with `value`.
pub open spec fn some_agrees(frags: Seq<Seq<char>>, value: u32) -> bool {
    exists|i: int|
        0 <= i < frags.len() && masked_equal(
            value,
            bit_value(#[trigger] frags[i]) as u32,
            bit_mask(frags[i]) as u32,
        )
}

/// A table over one field whose bit strings leave out no value of the field
/// leaves out no word: every word is given a tag.
pub proof fn lemma_partition_is_total<T>(
    table: Table<T>,
    frags: Seq<Seq<char>>,
    range: Range<u8>,
    word: u32,
)
    requires
        valid_range(range),
        compiled_from(table, frags, range),
        forall|value: u32| value < pow2(width(range)) ==> #[trigger] some_agrees(frags, value),
    ensures
        table.classify(word) is Some,
{
    let value = extract(word, range);
    lemma_extract_bitwise(word, range);
    assert(some_agrees(frags, value));
    let i = choose|i: int|
        0 <= i < frags.len() && masked_equal(
            value,
            bit_value(#[trigger] frags[i]) as u32,
            bit_mask(frags[i]) as u32,
        );
    lemma_compile_arity(frags[i], range);
    lemma_compiled_matches_field(frags[i], range, word);
    assert(table.rules[i].pattern.matches(word));
    lemma_classify(table, word);
}

/// Of two rules that both match a word, the one declared first gives the tag,
/// in either order of declaration.
pub proof fn lemma_precedence_is_positional<T>(first: Rule<T>, second: Rule<T>, word: u32)
    requires
        first.pattern.matches(word),
        second.pattern.matches(word),
    ensures
        (Table { fields: Seq::<FieldSpec>::empty(), rules: seq![first, second] }).classify(word)
            == Some(first.tag),
        (Table { fields: Seq::<FieldSpec>::empty(), rules: seq![second, first] }).classify(word)
            == Some(second.tag),
{
    let a = Table { fields: Seq::<FieldSpec>::empty(), rules: seq![first, second] };
    let b = Table { fields: Seq::<FieldSpec>::empty(), rules: seq![second, first] };
    assert(a.is_first_match(word, 0));
    assert(b.is_first_match(word, 0));
    lemma_classify(a, word);
    lemma_classify(b, word);
}

/// A table of rules over declared fields, fixed once it is built.
pub struct PatternMatcher<T> {
    args: Vec<(String, Range<u8>)>,
    patterns: Vec<(T, Pattern)>,
}

impl<T> View for PatternMatcher<T> {
    type V = Table<T>;

    closed spec fn view(&self) -> Table<T> {
        Table {
            fields: Seq::new(
                self.args@.len(),
                |i: int| FieldSpec { name: self.args@[i].0@, range: self.args@[i].1 },
            ),
            rules: Seq::new(
                self.patterns@.len(),
                |i: int| Rule { tag: self.patterns@[i].0, pattern: self.patterns@[i].1 },
            ),
        }
    }
}

impl<T> PatternMatcher<T> {
    #[verifier::type_invariant]
    spec fn inv(&self) -> bool {
        &&& forall|i: int| 0 <= i < self.args@.len() ==> valid_range((#[trigger] self.args@[i]).1)
        &&& forall|i: int| 0 <= i < self.patterns@.len() ==> (#[trigger] self.patterns@[i]).1.wf()
    }

    /// What is kept true of the stored fields and rules makes the table well formed.
    proof fn lemma_inv_wf(&self)
        requires
            self.inv(),
        ensures
            self@.wf(),
    {
        assert forall|i: int| 0 <= i < self@.fields.len() implies valid_range(
            (#[trigger] self@.fields[i]).range,
        ) by {
            assert(valid_range(self.args@[i].1));
        }
        assert forall|i: int| 0 <= i < self@.rules.len() implies (#[trigger] self@.rules[
            i
        ]).pattern.wf() by {
            assert(self.patterns@[i].1.wf());
        }
    }
}

impl<T> PatternMatcher<T> where T: Copy {
    /// Returns the value that `val` holds in the field declared at position `idx`.
    pub fn get_arg(&self, val: u32, idx: usize) -> (field: u32)
        requires
            idx < self@.fields.len(),
        ensures
            field == self@.field(val, idx as int),
    {
        proof {
            use_type_invariant(self);
        }
        val.get_bits(&self.args[idx].1)
    }

    /// Returns the tag of the first rule, in declaration order, that `target` matches.
    pub fn match_pattern(&self, target: u32) -> (tag: Option<T>)
        ensures
            tag == self@.classify(target),
            tag is Some <==> self@.covers(target),
    {
        let mut i: usize = 0;
        while i < self.patterns.len()
            invariant
                i <= self.patterns.len(),
                forall|j: int| 0 <= j < i ==> !(#[trigger] self@.rules[j]).pattern.matches(target),
            decreases self.patterns.len() - i,
        {
            let pat = &self.patterns[i];
            if target.test_bits(pat.1.pattern, pat.1.mask) {
                proof {
                    assert(self@.rules[i as int].pattern.matches(target));
                    assert(self@.is_first_match(target, i as int));
                    lemma_classify(self@, target);
                }
                return Some(pat.0);
            }
            i = i + 1;
        }
        proof {
            lemma_classify(self@, target);
        }
        None
    }
}

/// A table that is being described: fields first, then rules, each rule by
/// its tag and one bit string per field.
pub struct Draft<T> {
    /// Fields declared so far.
    pub fields: Seq<FieldSpec>,
    /// Rules completed so far.
    pub rules: Seq<Rule<T>>,
    /// Tag of the rule that is being described.
    pub tag: Option<T>,
    /// Union of the bit strings given for that rule so far.
    pub pattern: Pattern,
    /// Number of bit strings given for that rule so far.
    pub supplied: nat,
    /// The first fault met. Once set it stays, and no rule is added any more.
    pub fault: Option<ErrorKind>,
}

impl<T> Draft<T> {
    /// Nothing declared yet.
    pub open spec fn empty() -> Draft<T> {
        Draft {
            fields: Seq::empty(),
            rules: Seq::empty(),
            tag: None,
            pattern: Pattern::any(),
            supplied: 0,
            fault: None,
        }
    }

    /// One more field.
    pub open spec fn declare(self, name: Seq<char>, range: Range<u8>) -> Draft<T> {
        Draft {
            fields: self.fields.push(FieldSpec { name, range }),
            rules: self.rules,
            tag: self.tag,
            pattern: self.pattern,
            supplied: self.supplied,
            fault: self.fault,
        }
    }

    /// Start describing a rule.
    pub open spec fn begin(self, tag: T) -> Draft<T> {
        Draft {
            fields: self.fields,
            rules: self.rules,
            tag: Some(tag),
            pattern: Pattern::any(),
            supplied: 0,
            fault: self.fault,
        }
    }

    /// The next bit string can be taken: no fault was met, a field is left
    /// without one, and the string describes exactly the bits of that field.
    pub open spec fn accepts(self, s: Seq<char>) -> bool {
        &&& self.fault is None
        &&& self.supplied < self.fields.len()
        &&& compile(s, self.fields[self.supplied as int].range) is Ok
    }

    /// One more bit string for the rule that is being described. It belongs to the
    /// next field that has none yet.
    pub open spec fn fragment(self, s: Seq<char>) -> Draft<T> {
        Draft {
            fields: self.fields,
            rules: self.rules,
            tag: self.tag,
            pattern: if self.accepts(s) {
                self.pattern.union(compile(s, self.fields[self.supplied as int].range)->Ok_0)
            } else {
                self.pattern
            },
            supplied: if self.accepts(s) {
                self.supplied + 1
            } else {
                self.supplied
            },
            fault: if self.fault is Some {
                self.fault
            } else if self.supplied >= self.fields.len() {
                Some(ErrorKind::FieldArityMismatch)
            } else if compile(s, self.fields[self.supplied as int].range) is Err {
                Some(ErrorKind::PatternArityMismatch)
            } else {
                None
            },
        }
    }

    /// The rule that is being described is complete: it must have one bit string
    /// for each field.
    pub open spec fn close(self) -> Draft<T> {
        Draft {
            fields: self.fields,
            rules: if self.fault is None && self.supplied == self.fields.len() && self.tag is Some {
                self.rules.push(Rule { tag: self.tag->Some_0, pattern: self.pattern })
            } else {
                self.rules
            },
            tag: self.tag,
            pattern: self.pattern,
            supplied: self.supplied,
            fault: if self.fault is None && self.supplied != self.fields.len() {
                Some(ErrorKind::FieldArityMismatch)
            } else {
                self.fault
            },
        }
    }

    /// No fault was met, and the rule that is being described has all its bit
    /// strings, which together ask for `pattern` in the bits of `mask`.
    pub open spec fn holds(self, pattern: u32, mask: u32) -> bool {
        &&& self.fault is None
        &&& self.supplied == self.fields.len()
        &&& self.pattern == Pattern { pattern, mask }
    }

    /// The table described, unless a fault was met.
    pub open spec fn seal(self) -> Result<Table<T>, ErrorKind> {
        let done = self.close();
        match done.fault {
            Some(e) => Err(e),
            None => Ok(Table { fields: done.fields, rules: done.rules }),
        }
    }
}

/// The builder still takes fields.
pub struct NeedArgs;

/// The builder takes the bit strings of a rule, or the next rule.
pub struct NeedPattern;

/// Builds a table step by step. A fault in the description is kept and
/// reported by `build`, which then returns no table.
pub struct PatternMatcherBuilder<T, BuildState> where T: Copy {
    result: PatternMatcher<T>,
    current_instr: Option<T>,
    current_pattern: Pattern,
    current_index: usize,
    fault: Option<ErrorKind>,
    _build_state: PhantomData<BuildState>,
}

impl<T, BuildState> PatternMatcherBuilder<T, BuildState> where T: Copy {
    #[verifier::type_invariant]
    spec fn inv(&self) -> bool {
        self.current_pattern.wf()
    }

    /// What has been described so far.
    pub closed spec fn draft(&self) -> Draft<T> {
        Draft {
            fields: self.result@.fields,
            rules: self.result@.rules,
            tag: self.current_instr,
            pattern: self.current_pattern,
            supplied: self.current_index as nat,
            fault: self.fault,
        }
    }
}

/// The pattern that every word matches requires nothing outside its mask.
proof fn lemma_any_wf()
    by (bit_vector)
    ensures
        0u32 & !0u32 == 0,
{
}

/// The union of two patterns requires nothing outside its mask, if neither does.
proof fn lemma_union_wf(a: u32, ma: u32, b: u32, mb: u32)
    by (bit_vector)
    requires
        a & !ma == 0,
        b & !mb == 0,
    ensures
        (a | b) & !(ma | mb) == 0,
{
}

/// A pattern moved to a field requires nothing outside its mask, if it did not before.
proof fn lemma_shift_wf(v: u32, m: u32, s: u32)
    by (bit_vector)
    requires
        v & !m == 0,
        s < 32,
    ensures
        (v << s) & !(m << s) == 0,
{
}

/// Appending a digit to value and mask keeps the value inside the mask.
proof fn lemma_push_bit_wf(v: u32, m: u32, b: u32, c: u32)
    by (bit_vector)
    requires
        v & !m == 0,
        v < 0x8000_0000,
        m < 0x8000_0000,
        b <= c <= 1,
    ensures
        (2 * v + b) as u32 & !((2 * m + c) as u32) == 0,
{
}

/// In what a bit string describes, only bits that count are set in the value.
pub proof fn lemma_bit_value_within_mask(s: Seq<char>, n: nat)
    requires
        bit_count_upto(s, n) <= 32,
    ensures
        bit_value_upto(s, n) <= bit_mask_upto(s, n) < pow2(32),
        (bit_value_upto(s, n) as u32) & !(bit_mask_upto(s, n) as u32) == 0,
    decreases n,
{
    lemma2_to64();
    lemma_bit_numerals(s, n);
    if bit_count_upto(s, n) < 32 {
        lemma_pow2_strictly_increases(bit_count_upto(s, n), 32);
    }
    if n == 0 {
        lemma_any_wf();
    } else {
        let m = (n - 1) as nat;
        lemma_bit_value_within_mask(s, m);
        if s[n - 1] != '_' {
            lemma_bit_numerals(s, m);
            let k = bit_count_upto(s, m);
            if k < 31 {
                lemma_pow2_strictly_increases(k, 31);
            }
            let b: u32 = if s[n - 1] == '1' { 1 } else { 0 };
            let c: u32 = if s[n - 1] == '1' || s[n - 1] == '0' { 1 } else { 0 };
            lemma_push_bit_wf(bit_value_upto(s, m) as u32, bit_mask_upto(s, m) as u32, b, c);
        }
    }
}

/// A compiled bit string requires no bit to be set that it does not look at.
pub proof fn lemma_compile_wf(s: Seq<char>, range: Range<u8>)
    requires
        valid_range(range),
    ensures
        compile(s, range) matches Ok(p) ==> p.wf(),
{
    if compile(s, range) is Ok {
        lemma_bit_value_within_mask(s, s.len());
        lemma_shift_wf(bit_value(s) as u32, bit_mask(s) as u32, range.start as u32);
    }
}

impl<T> PatternMatcher<T> where T: Copy {
    /// Starts the description of a table.
    pub fn builder() -> (b: PatternMatcherBuilder<T, NeedArgs>)
        ensures
            b.draft() == Draft::<T>::empty(),
    {
        let result = PatternMatcher { args: Vec::new(), patterns: Vec::new() };
        let pattern = Pattern { pattern: 0, mask: 0 };
        proof {
            lemma_any_wf();
            assert(result@.fields =~= Seq::<FieldSpec>::empty());
            assert(result@.rules =~= Seq::<Rule<T>>::empty());
        }
        PatternMatcherBuilder {
            result,
            current_instr: None,
            current_pattern: pattern,
            current_index: 0,
            fault: None,
            _build_state: PhantomData,
        }
    }
}

impl<T> PatternMatcherBuilder<T, NeedArgs> where T: Copy {
    /// Declares the next field of the table.
    pub fn args(self, arg_name: &str, arg_range: Range<u8>) -> (b: PatternMatcherBuilder<
        T,
        NeedArgs,
    >)
        requires
            valid_range(arg_range),
        ensures
            b.draft() == self.draft().declare(arg_name@, arg_range),
    {
        proof {
            use_type_invariant(&self);
            use_type_invariant(&self.result);
        }
        let ghost before = self.result@;
        let mut args = self.result.args;
        args.push((arg_name.to_owned(), arg_range));
        let result = PatternMatcher { args, patterns: self.result.patterns };
        proof {
            assert(result@.fields =~= before.fields.push(
                FieldSpec { name: arg_name@, range: arg_range },
            ));
            assert(result@.rules =~= before.rules);
        }
        PatternMatcherBuilder {
            result,
            current_instr: self.current_instr,
            current_pattern: self.current_pattern,
            current_index: self.current_index,
            fault: self.fault,
            _build_state: PhantomData,
        }
    }

    /// Starts the first rule, which gives `instr` to the words that match it.
    pub fn inst(self, instr: T) -> (b: PatternMatcherBuilder<T, NeedPattern>)
        ensures
            b.draft() == self.draft().begin(instr),
    {
        proof {
            lemma_any_wf();
        }
        PatternMatcherBuilder {
            result: self.result,
            current_instr: Some(instr),
            current_pattern: Pattern { pattern: 0, mask: 0 },
            current_index: 0,
            fault: self.fault,
            _build_state: PhantomData,
        }
    }
}

impl<T> PatternMatcherBuilder<T, NeedPattern> where T: Copy {
    fn push_current(self) -> (b: PatternMatcherBuilder<T, NeedPattern>)
        ensures
            b.draft() == self.draft().close(),
    {
        proof {
            use_type_invariant(&self);
            use_type_invariant(&self.result);
        }
        if self.fault.is_some() {
            return self;
        }
        if self.current_index != self.result.args.len() {
            return PatternMatcherBuilder {
                result: self.result,
                current_instr: self.current_instr,
                current_pattern: self.current_pattern,
                current_index: self.current_index,
                fault: Some(ErrorKind::FieldArityMismatch),
                _build_state: PhantomData,
            };
        }
        match self.current_instr {
            Some(tag) => {
                let ghost before = self.result@;
                let mut patterns = self.result.patterns;
                patterns.push((tag, self.current_pattern));
                let result = PatternMatcher { args: self.result.args, patterns };
                proof {
                    assert(result@.rules =~= before.rules.push(
                        Rule { tag, pattern: self.current_pattern },
                    ));
                    assert(result@.fields =~= before.fields);
                }
                PatternMatcherBuilder {
                    result,
                    current_instr: self.current_instr,
                    current_pattern: self.current_pattern,
                    current_index: self.current_index,
                    fault: self.fault,
                    _build_state: PhantomData,
                }
            },
            None => self,
        }
    }

    /// Gives the bit string for the next field of the rule that is being described.
    pub fn with(self, pattern: &str) -> (b: PatternMatcherBuilder<T, NeedPattern>)
        requires
            well_formed(pattern@),
        ensures
            b.draft() == self.draft().fragment(pattern@),
    {
        proof {
            use_type_invariant(&self);
            use_type_invariant(&self.result);
        }
        if self.fault.is_some() {
            return self;
        }
        if self.current_index >= self.result.args.len() {
            return PatternMatcherBuilder {
                result: self.result,
                current_instr: self.current_instr,
                current_pattern: self.current_pattern,
                current_index: self.current_index,
                fault: Some(ErrorKind::FieldArityMismatch),
                _build_state: PhantomData,
            };
        }
        let compiled = parse_pattern(pattern, &self.result.args[self.current_index].1);
        match compiled {
            Ok(p) => {
                proof {
                    lemma_compile_wf(pattern@, self.result.args[self.current_index as int].1);
                    lemma_union_wf(
                        self.current_pattern.pattern,
                        self.current_pattern.mask,
                        p.pattern,
                        p.mask,
                    );
                }
                PatternMatcherBuilder {
                    result: self.result,
                    current_instr: self.current_instr,
                    current_pattern: Pattern {
                        pattern: self.current_pattern.pattern | p.pattern,
                        mask: self.current_pattern.mask | p.mask,
                    },
                    current_index: self.current_index + 1,
                    fault: self.fault,
                    _build_state: PhantomData,
                }
            },
            Err(e) => PatternMatcherBuilder {
                result: self.result,
                current_instr: self.current_instr,
                current_pattern: self.current_pattern,
                current_index: self.current_index,
                fault: Some(e),
                _build_state: PhantomData,
            },
        }
    }

    /// Completes the rule that is being described and starts the next one.
    pub fn inst(self, instr: T) -> (b: PatternMatcherBuilder<T, NeedPattern>)
        ensures
            b.draft() == self.draft().close().begin(instr),
    {
        let closed = self.push_current();
        proof {
            lemma_any_wf();
        }
        PatternMatcherBuilder {
            result: closed.result,
            current_instr: Some(instr),
            current_pattern: Pattern { pattern: 0, mask: 0 },
            current_index: 0,
            fault: closed.fault,
            _build_state: PhantomData,
        }
    }

    /// Completes the last rule and returns the table, or the first fault of
    /// its description.
    pub fn build(self) -> (built: Result<PatternMatcher<T>, ErrorKind>)
        ensures
            match self.draft().seal() {
                Ok(table) => built is Ok && built->Ok_0@ == table && table.wf(),
                Err(e) => built is Err && built->Err_0 == e,
            },
    {
        let closed = self.push_current();
        proof {
            use_type_invariant(&closed.result);
            closed.result.lemma_inv_wf();
        }
        match closed.fault {
            Some(e) => Err(e),
            None => Ok(closed.result),
        }
    }
}

} // verus!
