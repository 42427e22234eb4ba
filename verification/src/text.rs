//! Decimal numbers in ASCII.

use vstd::prelude::*;

verus! {

/// The digit `0` in ASCII.
pub const DIGIT_ZERO: u8 = 48;

/// The digit `9` in ASCII.
pub const DIGIT_NINE: u8 = 57;

/// The sign `-` in ASCII.
pub const MINUS: u8 = 45;

/// The sign `+` in ASCII.
pub const PLUS: u8 = 43;

/// Whether `b` is an ASCII digit.
pub open spec fn is_digit(b: u8) -> bool {
    DIGIT_ZERO <= b <= DIGIT_NINE
}

/// Whether every byte of `s` is an ASCII digit.
pub open spec fn all_digits(s: Seq<u8>) -> bool {
    forall|i: int| 0 <= i < s.len() ==> is_digit(#[trigger] s[i])
}

/// The number that a string of ASCII digits writes in base ten.
pub open spec fn digits_value(s: Seq<u8>) -> nat
    decreases s.len(),
{
    if s.len() == 0 {
        0
    } else {
        digits_value(s.drop_last()) * 10 + (s.last() as int - DIGIT_ZERO as int) as nat
    }
}

/// What a byte string denotes as a signed decimal: an optional `+` or `-`,
/// then one or more digits, the value within the range of `i64`.
pub open spec fn parse_i64_of(s: Seq<u8>) -> Option<i64> {
    let negative = s.len() > 0 && s[0] == MINUS;
    let signed = s.len() > 0 && (s[0] == MINUS || s[0] == PLUS);
    let digits = if signed {
        s.drop_first()
    } else {
        s
    };
    let value = if negative {
        -(digits_value(digits) as int)
    } else {
        digits_value(digits) as int
    };
    if digits.len() == 0 || !all_digits(digits) {
        None
    } else if i64::MIN <= value <= i64::MAX {
        Some(value as i64)
    } else {
        None
    }
}

/// The value of a prefix of a digit string is at most the value of the whole.
pub proof fn lemma_prefix_value(s: Seq<u8>, k: int)
    requires
        all_digits(s),
        0 <= k <= s.len(),
    ensures
        digits_value(s.take(k)) <= digits_value(s),
    decreases s.len(),
{
    if k == s.len() {
        assert(s.take(k) =~= s);
    } else {
        assert(s.drop_last().take(k) =~= s.take(k));
        lemma_prefix_value(s.drop_last(), k);
        assert(is_digit(s[s.len() - 1]));
    }
}

/// Reads a signed decimal number.
pub fn parse_i64(s: &[u8]) -> (value: Option<i64>)
    ensures
        value == parse_i64_of(s@),
{
    let n = s.len();
    if n == 0 {
        return None;
    }
    let negative = s[0] == MINUS;
    let start: usize = if s[0] == MINUS || s[0] == PLUS {
        1
    } else {
        0
    };
    if start == n {
        assert(s@.drop_first().len() == 0);
        return None;
    }
    let ghost digits = s@.skip(start as int);
    assert(start == 1 ==> digits =~= s@.drop_first());
    assert(start == 0 ==> digits =~= s@);
    let limit: u64 = if negative {
        9223372036854775808
    } else {
        9223372036854775807
    };
    let mut acc: u64 = 0;
    let mut i: usize = start;
    while i < n
        invariant
            start <= i <= n,
            n == s@.len(),
            n > start,
            start <= 1,
            negative == (s@[0] == MINUS),
            (start == 1) == (s@[0] == MINUS || s@[0] == PLUS),
            start == 1 ==> digits == s@.drop_first(),
            start == 0 ==> digits == s@,
            digits == s@.skip(start as int),
            all_digits(digits.take(i - start)),
            acc == digits_value(digits.take(i - start)),
            acc <= limit,
            limit == if negative { 9223372036854775808u64 } else { 9223372036854775807u64 },
        decreases n - i,
    {
        let b = s[i];
        if b < DIGIT_ZERO || b > DIGIT_NINE {
            assert(digits[i - start] == b);
            assert(!is_digit(digits[i - start]));
            return None;
        }
        let d: u64 = (b - DIGIT_ZERO) as u64;
        let ghost next = digits.take(i - start + 1);
        assert(next.drop_last() =~= digits.take(i - start));
        assert(next.last() == b);
        assert(all_digits(next)) by {
            assert forall|j: int| 0 <= j < next.len() implies is_digit(#[trigger] next[j]) by {
                if j < i - start {
                    assert(next[j] == digits.take(i - start)[j]);
                }
            }
        }
        if acc > (limit - d) / 10 {
            proof {
                assert(digits_value(next) == acc * 10 + d);
                assert(acc * 10 + d > limit);
                if all_digits(digits) {
                    lemma_prefix_value(digits, i - start + 1);
                    assert(digits_value(digits) > limit);
                }

            }
            return None;
        }
        acc = acc * 10 + d;
        i += 1;
    }
    assert(digits.take(n - start) =~= digits);
    if negative {
        if acc == 9223372036854775808 {
            Some(i64::MIN)
        } else {
            Some(-(acc as i64))
        }
    } else {
        Some(acc as i64)
    }
}

/// The decimal digits of a number below 256.
pub open spec fn decimal_u8(n: u8) -> Seq<u8> {
    if n < 10 {
        seq![(DIGIT_ZERO + n) as u8]
    } else if n < 100 {
        seq![(DIGIT_ZERO + n / 10) as u8, (DIGIT_ZERO + n % 10) as u8]
    } else {
        seq![(DIGIT_ZERO + n / 100) as u8, (DIGIT_ZERO + (n / 10) % 10) as u8, (DIGIT_ZERO + n % 10) as u8]
    }
}

/// Appends the decimal digits of `n` to `out`.
pub fn write_u8(n: u8, out: &mut Vec<u8>)
    ensures
        final(out)@ == old(out)@ + decimal_u8(n),
{
    let ghost before = out@;
    if n >= 100 {
        out.push(DIGIT_ZERO + n / 100);
    }
    if n >= 10 {
        out.push(DIGIT_ZERO + (n / 10) % 10);
    }
    out.push(DIGIT_ZERO + n % 10);
    assert(out@ =~= before + decimal_u8(n));
}

} // verus!
