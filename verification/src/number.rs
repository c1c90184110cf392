//! Decimal integers as a chart writes them: an optional sign, then digits.

use vstd::prelude::*;

verus! {

/// Whether `c` is one of the ten decimal digits.
pub open spec fn is_digit(c: char) -> bool {
    '0' <= c <= '9'
}

/// The number that a decimal digit stands for.
pub open spec fn digit_value(c: char) -> int {
    c as int - '0' as int
}

/// Whether `s` holds decimal digits and nothing else.
pub open spec fn all_digits(s: Seq<char>) -> bool {
    forall|i: int| 0 <= i < s.len() ==> is_digit(#[trigger] s[i])
}

/// The number that a sequence of digits writes down.
pub open spec fn decimal_value(s: Seq<char>) -> int
    decreases s.len(),
{
    if s.len() == 0 {
        0
    } else {
        10 * decimal_value(s.drop_last()) + digit_value(s.last())
    }
}

/// Whether `s` begins with a sign.
pub open spec fn has_sign(s: Seq<char>) -> bool {
    s.len() > 0 && (s[0] == '-' || s[0] == '+')
}

/// The digits of a number: what follows its sign, or all of it.
pub open spec fn digits_of(s: Seq<char>) -> Seq<char> {
    if has_sign(s) {
        s.skip(1)
    } else {
        s
    }
}

/// The integer that `s` writes down: an optional `+` or `-`, then one digit
/// or more, with nothing before, between or after.  `None` where `s` is not
/// of that shape.
pub open spec fn signed_decimal(s: Seq<char>) -> Option<int> {
    let digits = digits_of(s);
    if digits.len() == 0 || !all_digits(digits) {
        None
    } else if s[0] == '-' {
        Some(-decimal_value(digits))
    } else {
        Some(decimal_value(digits))
    }
}

/// The 64-bit integer that `s` writes down; `None` where it writes none, or
/// one that 64 bits cannot hold.
pub open spec fn integer_of(s: Seq<char>) -> Option<i64> {
    match signed_decimal(s) {
        Some(value) => if i64::MIN <= value <= i64::MAX {
            Some(value as i64)
        } else {
            None
        },
        None => None,
    }
}

/// Digits write down a number that is not negative.
pub proof fn lemma_decimal_value_not_negative(s: Seq<char>)
    requires
        all_digits(s),
    ensures
        0 <= decimal_value(s),
    decreases s.len(),
{
    if s.len() > 0 {
        lemma_decimal_value_not_negative(s.drop_last());
    }
}

/// More digits never write down a smaller number.
pub proof fn lemma_decimal_value_grows(s: Seq<char>, shorter: int)
    requires
        all_digits(s),
        0 <= shorter <= s.len(),
    ensures
        decimal_value(s.take(shorter)) <= decimal_value(s),
    decreases s.len() - shorter,
{
    if shorter == s.len() {
        assert(s.take(shorter) =~= s);
    } else {
        let front = s.drop_last();
        assert(front.take(shorter) =~= s.take(shorter));
        lemma_decimal_value_grows(front, shorter);
        lemma_decimal_value_not_negative(front);
    }
}

/// The number that a decimal digit stands for; `None` for any other
/// character.
pub(crate) fn digit_of(c: char) -> (digit: Option<u8>)
    ensures
        digit is Some == is_digit(c),
        digit matches Some(d) ==> d == digit_value(c),
{
    if '0' <= c && c <= '9' {
        Some((c as u32 - '0' as u32) as u8)
    } else {
        None
    }
}

/// Reads the integer that stands between two positions.
pub(crate) fn parse_integer(chars: &Vec<char>, from: usize, to: usize) -> (number: Option<i64>)
    requires
        from <= to <= chars.len(),
    ensures
        number == integer_of(chars@.subrange(from as int, to as int)),
{
    let ghost s = chars@.subrange(from as int, to as int);
    let negative: bool = from < to && chars[from] == '-';
    let signed: bool = from < to && (chars[from] == '-' || chars[from] == '+');
    let start: usize = if signed {
        from + 1
    } else {
        from
    };
    let ghost digits = digits_of(s);
    if start == to {
        return None;
    }
    let limit: i128 = if negative {
        9223372036854775808
    } else {
        9223372036854775807
    };
    let mut value: i128 = 0;
    let mut at: usize = start;
    while at < to
        invariant
            from <= start <= at <= to <= chars.len(),
            start < to,
            s == chars@.subrange(from as int, to as int),
            digits == digits_of(s),
            digits == chars@.subrange(start as int, to as int),
            negative == (s[0] == '-'),
            limit == if negative {
                9223372036854775808i128
            } else {
                9223372036854775807i128
            },
            all_digits(digits.take(at - start)),
            value == decimal_value(digits.take(at - start)),
            0 <= value <= limit,
        decreases to - at,
    {
        let ghost seen = digits.take(at - start);
        let ghost more = digits.take(at - start + 1);
        assert(more.drop_last() =~= seen);
        match digit_of(chars[at]) {
            None => {
                assert(!is_digit(digits[at - start]));
                return None;
            },
            Some(d) => {
                value = 10 * value + d as i128;
                if value > limit {
                    proof {
                        if all_digits(digits) {
                            lemma_decimal_value_grows(digits, at - start + 1);
                        }
                    }
                    return None;
                }
            },
        }
        at += 1;
    }
    assert(digits.take(to - start) =~= digits);
    if negative {
        Some((-value) as i64)
    } else {
        Some(value as i64)
    }
}

} // verus!
