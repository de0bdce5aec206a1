//! Verified conversion of element text into numeric scalars.
//!
//! The grammar the library accepts is deliberately small and fully stated:
//! an optional `+` or `-` sign, then decimal digits, for integers; for
//! decimal values an optional fractional part after a single `.`, with at
//! least one digit overall. At most 18 digits are accepted in a value, so
//! every accepted magnitude fits comfortably in 64 bits.

use vstd::prelude::*;
use vstd::string::StrSliceExecFns;

verus! {

/// The most digits a numeric value may carry.
pub const MAX_DIGITS: usize = 18;

/// Whether `c` is a decimal digit.
pub open spec fn is_digit(c: char) -> bool {
    48 <= c as u32 <= 57
}

/// The value of a single decimal digit.
pub open spec fn digit_val(c: char) -> int {
    c as u32 - 48
}

/// Whether every character of `s` is a decimal digit.
pub open spec fn all_digits(s: Seq<char>) -> bool {
    forall|i: int| 0 <= i < s.len() ==> is_digit(#[trigger] s[i])
}

/// The integer denoted by a sequence of decimal digits (most significant
/// first); 0 for the empty sequence.
pub open spec fn dec_val(s: Seq<char>) -> int
    decreases s.len(),
{
    if s.len() == 0 {
        0
    } else {
        dec_val(s.drop_last()) * 10 + digit_val(s.last())
    }
}

/// Ten to the `n`.
pub open spec fn pow10(n: nat) -> int
    decreases n,
{
    if n == 0 {
        1
    } else {
        10 * pow10((n - 1) as nat)
    }
}

/// A digit sequence denotes less than ten to its length.
pub proof fn lemma_dec_val_bound(s: Seq<char>)
    requires
        all_digits(s),
    ensures
        0 <= dec_val(s) < pow10(s.len()),
    decreases s.len(),
{
    if s.len() > 0 {
        lemma_dec_val_bound(s.drop_last());
        assert(is_digit(s.last()));
        assert(digit_val(s.last()) <= 9);
    }
}

/// Ten to the eighteenth, spelled out for concrete bounds.
pub proof fn lemma_pow10_18()
    ensures
        pow10(18) == 1_000_000_000_000_000_000,
        pow10(17) == 100_000_000_000_000_000,
{
    reveal_with_fuel(pow10, 19);
}

/// `pow10` grows with its argument.
pub proof fn lemma_pow10_mono(a: nat, b: nat)
    requires
        a <= b,
    ensures
        pow10(a) <= pow10(b),
    decreases b,
{
    if a < b {
        lemma_pow10_mono(a, (b - 1) as nat);
        lemma_pow10_pos((b - 1) as nat);
    }
}

/// `pow10` is positive.
pub proof fn lemma_pow10_pos(n: nat)
    ensures
        pow10(n) >= 1,
    decreases n,
{
    if n > 0 {
        lemma_pow10_pos((n - 1) as nat);
    }
}

/// The sign of a numeric literal and the text after it.
pub open spec fn sign_split(s: Seq<char>) -> (bool, Seq<char>) {
    if s.len() > 0 && (s[0] == '+' || s[0] == '-') {
        (s[0] == '-', s.subrange(1, s.len() as int))
    } else {
        (false, s)
    }
}

/// The integer an accepted piece of text denotes: an optional sign, then
/// one to eighteen decimal digits. Anything else denotes nothing.
pub open spec fn spec_int_val(s: Seq<char>) -> Option<int> {
    let (neg, ds) = sign_split(s);
    if 1 <= ds.len() <= MAX_DIGITS && all_digits(ds) {
        Some(if neg { -dec_val(ds) } else { dec_val(ds) })
    } else {
        None
    }
}

/// A best-effort reading of text as an `i32`.
pub open spec fn spec_i32(s: Seq<char>) -> Option<i32> {
    match spec_int_val(s) {
        Some(v) => if i32::MIN <= v <= i32::MAX { Some(v as i32) } else { None },
        None => None,
    }
}

/// A best-effort reading of text as a `u32`.
pub open spec fn spec_u32(s: Seq<char>) -> Option<u32> {
    match spec_int_val(s) {
        Some(v) => if 0 <= v <= u32::MAX { Some(v as u32) } else { None },
        None => None,
    }
}

/// A best-effort reading of text as a `u16`.
pub open spec fn spec_u16(s: Seq<char>) -> Option<u16> {
    match spec_int_val(s) {
        Some(v) => if 0 <= v <= u16::MAX { Some(v as u16) } else { None },
        None => None,
    }
}

/// A best-effort reading of text as a `u64`.
pub open spec fn spec_u64(s: Seq<char>) -> Option<u64> {
    match spec_int_val(s) {
        Some(v) => if v >= 0 { Some(v as u64) } else { None },
        None => None,
    }
}

/// A decimal number recovered from element text: the triple denotes
/// `(-1)^neg * mantissa / 10^scale`. Two spellings of one quantity (such as
/// `1.5` and `1.50`) keep their spelling's scale.
#[derive(Debug, Clone, Copy, PartialEq, Eq, Structural)]
pub struct Decimal {
    /// Whether the value is negated.
    pub neg: bool,
    /// All digits of the value, the fractional ones last.
    pub mantissa: u64,
    /// How many of the digits are fractional.
    pub scale: u32,
}

/// Whether position `d` of `r` holds the single dot of a well-formed
/// decimal body: digits on both sides, at least one digit in all, and at
/// most eighteen.
pub open spec fn dot_ok(r: Seq<char>, d: int) -> bool {
    &&& 0 <= d < r.len()
    &&& r[d] == '.'
    &&& all_digits(r.subrange(0, d))
    &&& all_digits(r.subrange(d + 1, r.len() as int))
    &&& r.len() >= 2
    &&& r.len() - 1 <= MAX_DIGITS
}

/// The digits of a dotted decimal body, with the dot at `d` removed.
pub open spec fn dotless(r: Seq<char>, d: int) -> Seq<char> {
    r.subrange(0, d) + r.subrange(d + 1, r.len() as int)
}

/// The decimal an accepted piece of text denotes: an optional sign, then
/// digits with at most one dot among them; at least one digit and at most
/// eighteen. Anything else denotes nothing.
pub open spec fn spec_decimal(s: Seq<char>) -> Option<Decimal> {
    let (neg, r) = sign_split(s);
    if 1 <= r.len() <= MAX_DIGITS && all_digits(r) {
        Some(Decimal { neg, mantissa: dec_val(r) as u64, scale: 0 })
    } else if exists|d: int| dot_ok(r, d) {
        let d = choose|d: int| dot_ok(r, d);
        Some(
            Decimal {
                neg,
                mantissa: dec_val(dotless(r, d)) as u64,
                scale: (r.len() - d - 1) as u32,
            },
        )
    } else {
        None
    }
}

/// A well-formed decimal body has only one possible dot position.
pub proof fn lemma_dot_unique(r: Seq<char>, d1: int, d2: int)
    requires
        dot_ok(r, d1),
        dot_ok(r, d2),
    ensures
        d1 == d2,
{
    if d1 < d2 {
        assert(is_digit(r.subrange(d1 + 1, r.len() as int)[d2 - d1 - 1]));
    }
    if d2 < d1 {
        assert(is_digit(r.subrange(d2 + 1, r.len() as int)[d1 - d2 - 1]));
    }
}

/// Appending a digit multiplies the denoted value by ten and adds it.
pub proof fn lemma_dec_val_push(s: Seq<char>, c: char)
    ensures
        dec_val(s.push(c)) == dec_val(s) * 10 + digit_val(c),
{
    assert(s.push(c).drop_last() =~= s);
    assert(s.push(c).last() == c);
}

/// Folds the digits of `s` between `from` and `to`, leaving out the
/// position `skip` where a dot may stand.
fn fold_digits(s: &str, from: usize, to: usize, skip: usize, ds: Ghost<Seq<char>>) -> (r: u64)
    requires
        from <= to <= s@.len(),
        ds@ == (if from <= skip < to {
            dotless(s@.subrange(from as int, to as int), skip - from)
        } else {
            s@.subrange(from as int, to as int)
        }),
        all_digits(ds@),
        ds@.len() <= MAX_DIGITS,
    ensures
        r == dec_val(ds@),
{
    let mut acc: u64 = 0;
    let mut i: usize = from;
    proof {
        assert(ds@.subrange(0, 0) =~= Seq::<char>::empty());
    }
    while i < to
        invariant
            from <= i <= to <= s@.len(),
            ds@ == (if from <= skip < to {
                dotless(s@.subrange(from as int, to as int), skip - from)
            } else {
                s@.subrange(from as int, to as int)
            }),
            all_digits(ds@),
            ds@.len() <= MAX_DIGITS,
            acc == dec_val(
                ds@.subrange(
                    0,
                    if from <= skip < to && i > skip {
                        i - from - 1
                    } else {
                        i - from
                    },
                ),
            ),
        decreases to - i,
    {
        let ghost k: int = if from <= skip < to && i > skip {
            i - from - 1
        } else {
            i - from
        };
        if i == skip && from <= skip {
            i += 1;
            proof {
                assert(i - 1 == skip);
            }
            continue;
        }
        let c = s.get_char(i);
        proof {
            assert(ds@[k] == c);
            assert(is_digit(c));
            lemma_dec_val_bound(ds@.subrange(0, k));
            lemma_pow10_mono(k as nat, (MAX_DIGITS - 1) as nat);
            lemma_pow10_18();
            assert(ds@.subrange(0, k + 1) =~= ds@.subrange(0, k).push(ds@[k]));
            lemma_dec_val_push(ds@.subrange(0, k), ds@[k]);
        }
        let d: u64 = (c as u32 - 48) as u64;
        acc = acc * 10 + d;
        i += 1;
    }
    proof {
        let kk: int = if from <= skip < to && to > skip {
            to - from - 1
        } else {
            to - from
        };
        assert(ds@.subrange(0, kk) =~= ds@);
    }
    acc
}

/// Reads text as a signed integer of the library's grammar.
pub fn parse_int(s: &str) -> (r: Option<i64>)
    ensures
        match spec_int_val(s@) {
            Some(v) => r matches Some(x) && x == v,
            None => r is None,
        },
{
    let n = s.unicode_len();
    let mut start: usize = 0;
    let mut neg = false;
    if n > 0 {
        let c0 = s.get_char(0);
        if c0 == '+' {
            start = 1;
        } else if c0 == '-' {
            start = 1;
            neg = true;
        }
    }
    let ghost ds = s@.subrange(start as int, n as int);
    proof {
        assert(sign_split(s@) == (neg, ds));
    }
    if n == start || n - start > MAX_DIGITS {
        return None;
    }
    let mut i: usize = start;
    while i < n
        invariant
            start <= i <= n == s@.len(),
            ds == s@.subrange(start as int, n as int),
            sign_split(s@) == (neg, ds),
            1 <= ds.len() <= MAX_DIGITS,
            all_digits(ds.subrange(0, i - start)),
        decreases n - i,
    {
        let c = s.get_char(i);
        let cv = c as u32;
        if cv < 48 || cv > 57 {
            proof {
                assert(ds[i - start] == c);
                assert(!all_digits(ds));
            }
            return None;
        }
        proof {
            assert(ds.subrange(0, i + 1 - start) =~= ds.subrange(0, i - start).push(ds[i - start]));
        }
        i += 1;
    }
    proof {
        assert(sign_split(s@) == (neg, ds));
        assert(ds.subrange(0, n - start) =~= ds);
        lemma_dec_val_bound(ds);
        lemma_pow10_mono(ds.len(), MAX_DIGITS as nat);
        lemma_pow10_18();
    }
    let mag = fold_digits(s, start, n, n, Ghost(ds));
    if neg {
        Some(-(mag as i64))
    } else {
        Some(mag as i64)
    }
}

/// Reads text as an `i32`, absent when the value does not fit.
pub fn parse_i32(s: &str) -> (r: Option<i32>)
    ensures
        r == spec_i32(s@),
{
    match parse_int(s) {
        Some(v) => if i32::MIN as i64 <= v && v <= i32::MAX as i64 {
            Some(v as i32)
        } else {
            None
        },
        None => None,
    }
}

/// Reads text as a `u32`, absent when the value does not fit.
pub fn parse_u32(s: &str) -> (r: Option<u32>)
    ensures
        r == spec_u32(s@),
{
    match parse_int(s) {
        Some(v) => if 0 <= v && v <= u32::MAX as i64 {
            Some(v as u32)
        } else {
            None
        },
        None => None,
    }
}

/// Reads text as a `u16`, absent when the value does not fit.
pub fn parse_u16(s: &str) -> (r: Option<u16>)
    ensures
        r == spec_u16(s@),
{
    match parse_int(s) {
        Some(v) => if 0 <= v && v <= u16::MAX as i64 {
            Some(v as u16)
        } else {
            None
        },
        None => None,
    }
}

/// Reads text as a `u64`, absent when the value is negative.
pub fn parse_u64(s: &str) -> (r: Option<u64>)
    ensures
        r == spec_u64(s@),
{
    match parse_int(s) {
        Some(v) => if v >= 0 {
            Some(v as u64)
        } else {
            None
        },
        None => None,
    }
}

/// Reads text as a decimal of the library's grammar, absent when the text
/// is not of that shape.
pub fn parse_decimal(s: &str) -> (r: Option<Decimal>)
    ensures
        r == spec_decimal(s@),
{
    let n = s.unicode_len();
    let mut start: usize = 0;
    let mut neg = false;
    if n > 0 {
        let c0 = s.get_char(0);
        if c0 == '+' {
            start = 1;
        } else if c0 == '-' {
            start = 1;
            neg = true;
        }
    }
    let ghost rb = s@.subrange(start as int, n as int);
    proof {
        assert(sign_split(s@) == (neg, rb));
    }
    let mut dot: usize = n;
    let mut have_dot = false;
    let mut i: usize = start;
    while i < n
        invariant
            start <= i <= n == s@.len(),
            rb == s@.subrange(start as int, n as int),
            sign_split(s@) == (neg, rb),
            have_dot ==> start <= dot < i && rb[dot - start] == '.',
            !have_dot ==> dot == n,
            forall|j: int|
                start <= j < i && j != dot ==> is_digit(#[trigger] s@[j]),
        decreases n - i,
    {
        let c = s.get_char(i);
        let cv = c as u32;
        if c == '.' {
            if have_dot {
                proof {
                    assert(rb[i - start] == s@[i as int]);
                    lemma_no_decimal_two_dots(rb, dot - start, i - start);
                }
                return None;
            }
            dot = i;
            have_dot = true;
        } else if cv < 48 || cv > 57 {
            proof {
                assert(rb[i - start] == s@[i as int]);
                lemma_no_decimal_bad_char(rb, i - start, dot - start, have_dot);
            }
            return None;
        }
        i += 1;
    }
    proof {
        assert(sign_split(s@) == (neg, rb));
    }
    if !have_dot {
        proof {
            assert forall|j: int| 0 <= j < rb.len() implies is_digit(#[trigger] rb[j]) by {
                assert(rb[j] == s@[start + j]);
            }
            assert forall|dd: int| !(#[trigger] dot_ok(rb, dd)) by {
                if 0 <= dd < rb.len() {
                    assert(is_digit(rb[dd]));
                }
            }
        }
        if n == start || n - start > MAX_DIGITS {
            return None;
        }
        proof {
            lemma_dec_val_bound(rb);
            lemma_pow10_mono(rb.len(), MAX_DIGITS as nat);
            lemma_pow10_18();
        }
        let mag = fold_digits(s, start, n, n, Ghost(rb));
        return Some(Decimal { neg, mantissa: mag, scale: 0 });
    }
    let digits = n - start - 1;
    let ghost d: int = dot - start;
    let ghost ds = dotless(rb, d);
    proof {
        assert(rb[d] == '.');
        assert(!is_digit(rb[d]));
        assert forall|j: int| 0 <= j < rb.len() && j != d implies is_digit(#[trigger] rb[j]) by {
            assert(rb[j] == s@[start + j]);
        }
        assert forall|j: int| 0 <= j < d implies is_digit(#[trigger] rb.subrange(0, d)[j]) by {
            assert(rb.subrange(0, d)[j] == rb[j]);
        }
        assert forall|j: int| 0 <= j < rb.len() - d - 1 implies is_digit(
            #[trigger] rb.subrange(d + 1, rb.len() as int)[j],
        ) by {
            assert(rb.subrange(d + 1, rb.len() as int)[j] == rb[j + d + 1]);
        }
        assert forall|j: int| 0 <= j < ds.len() implies is_digit(#[trigger] ds[j]) by {
            if j < d {
                assert(ds[j] == rb.subrange(0, d)[j]);
            } else {
                assert(ds[j] == rb.subrange(d + 1, rb.len() as int)[j - d]);
            }
        }
    }
    if digits == 0 || digits > MAX_DIGITS {
        proof {
            lemma_no_decimal_dotted_len(rb, d);
        }
        return None;
    }
    proof {
        assert(dot_ok(rb, d));
        lemma_dec_val_bound(ds);
        lemma_pow10_mono(ds.len(), MAX_DIGITS as nat);
        lemma_pow10_18();
        let dc = choose|dc: int| dot_ok(rb, dc);
        lemma_dot_unique(rb, d, dc);
    }
    let mag = fold_digits(s, start, n, dot, Ghost(ds));
    Some(Decimal { neg, mantissa: mag, scale: (n - dot - 1) as u32 })
}

/// A body with two dots is not a well-formed decimal.
proof fn lemma_no_decimal_two_dots(r: Seq<char>, d1: int, d2: int)
    requires
        0 <= d1 < d2 < r.len(),
        r[d1] == '.',
        r[d2] == '.',
    ensures
        !(1 <= r.len() <= MAX_DIGITS && all_digits(r)),
        !(exists|d: int| dot_ok(r, d)),
{
    assert(!is_digit(r[d1]));
    assert forall|d: int| !dot_ok(r, d) by {
        if dot_ok(r, d) {
            if d < d2 {
                assert(is_digit(r.subrange(d + 1, r.len() as int)[d2 - d - 1]));
            } else {
                assert(is_digit(r.subrange(0, d)[d1]));
            }
        }
    }
}

/// A body with a character that is neither digit nor dot is not a
/// well-formed decimal.
proof fn lemma_no_decimal_bad_char(r: Seq<char>, j: int, d1: int, have: bool)
    requires
        0 <= j < r.len(),
        !is_digit(r[j]),
        r[j] != '.',
        have ==> 0 <= d1 < r.len() && r[d1] == '.',
    ensures
        !(1 <= r.len() <= MAX_DIGITS && all_digits(r)),
        !(exists|d: int| dot_ok(r, d)),
{
    assert forall|d: int| !dot_ok(r, d) by {
        if dot_ok(r, d) {
            if j < d {
                assert(is_digit(r.subrange(0, d)[j]));
            } else if j > d {
                assert(is_digit(r.subrange(d + 1, r.len() as int)[j - d - 1]));
            }
        }
    }
}

/// A dotted body whose digit count is zero or too large is not a
/// well-formed decimal.
proof fn lemma_no_decimal_dotted_len(r: Seq<char>, d1: int)
    requires
        0 <= d1 < r.len(),
        r[d1] == '.',
        r.len() == 1 || r.len() - 1 > MAX_DIGITS,
    ensures
        !(1 <= r.len() <= MAX_DIGITS && all_digits(r)),
        !(exists|d: int| dot_ok(r, d)),
{
    assert(!is_digit(r[d1]));
    assert forall|d: int| !dot_ok(r, d) by {
        if dot_ok(r, d) {
            if d1 < d {
                assert(is_digit(r.subrange(0, d)[d1]));
            } else if d1 > d {
                assert(is_digit(r.subrange(d + 1, r.len() as int)[d1 - d - 1]));
            }
        }
    }
}

} // verus!


