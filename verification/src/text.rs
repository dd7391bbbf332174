//! Small verified text helpers shared by the rest of the library.

use vstd::prelude::*;

verus! {

/// Character-wise string equality, proved equivalent to equality of the
/// two character sequences.
pub fn str_eq(a: &str, b: &str) -> (r: bool)
    ensures
        r == (a@ == b@),
{
    let a_len = a.unicode_len();
    let b_len = b.unicode_len();
    if a_len != b_len {
        return false;
    }
    let mut i: usize = 0;
    while i < a_len
        invariant
            a_len == a@.len(),
            a@.len() == b@.len(),
            i <= a_len,
            forall|j: int| 0 <= j < i ==> a@[j] == b@[j],
        decreases a_len - i,
    {
        if a.get_char(i) != b.get_char(i) {
            return false;
        }
        i = i + 1;
    }
    proof {
        assert(a@ =~= b@);
    }
    true
}

/// An ASCII decimal digit.
pub open spec fn is_decimal_digit(c: char) -> bool {
    '0' <= c && c <= '9'
}

pub open spec fn digit_val(c: char) -> int {
    c as u32 - 48
}

/// The value of a string of decimal digits, most significant first.
pub open spec fn dec_value(digits: Seq<char>) -> int
    decreases digits.len(),
{
    if digits.len() == 0 {
        0
    } else {
        dec_value(digits.drop_last()) * 10 + digit_val(digits.last())
    }
}

pub open spec fn all_decimal_digits(s: Seq<char>) -> bool {
    forall|i: int| 0 <= i < s.len() ==> is_decimal_digit(#[trigger] s[i])
}

/// What parsing a signed 32-bit decimal numeral yields: an optional
/// sign followed by at least one digit, with the value in range;
/// anything else is rejected.
pub open spec fn parsed_i32(s: Seq<char>) -> Option<int> {
    let signed = s.len() > 0 && (s[0] == '-' || s[0] == '+');
    let digits = if signed {
        s.subrange(1, s.len() as int)
    } else {
        s
    };
    if digits.len() == 0 || !all_decimal_digits(digits) {
        None
    } else {
        let value = if s.len() > 0 && s[0] == '-' {
            -dec_value(digits)
        } else {
            dec_value(digits)
        };
        if i32::MIN <= value <= i32::MAX {
            Some(value)
        } else {
            None
        }
    }
}

/// Parses a signed 32-bit decimal numeral: an optional `+` or `-`
/// followed by one or more digits, rejecting anything else and any
/// value outside the 32-bit range.
#[verifier::loop_isolation(false)]
pub fn parse_i32(value: &str) -> (r: Option<i32>)
    ensures
        r is Some <==> parsed_i32(value@) is Some,
        r matches Some(v) ==> parsed_i32(value@) == Some(v as int),
{
    let len = value.unicode_len();
    if len == 0 {
        return None;
    }
    let first = value.get_char(0);
    let negative = first == '-';
    let start: usize = if first == '-' || first == '+' {
        1
    } else {
        0
    };
    if len == start {
        return None;
    }
    let ghost digits = if start == 1 {
        value@.subrange(1, len as int)
    } else {
        value@
    };
    let mut i: usize = start;
    let mut acc: u64 = 0;
    let mut overflow = false;
    while i < len
        invariant
            start <= i <= len,
            forall|j: int| start <= j < i ==> is_decimal_digit(#[trigger] value@[j]),
            !overflow ==> acc as int == dec_value(value@.subrange(start as int, i as int)),
            acc <= 21_474_836_489,
            overflow ==> dec_value(value@.subrange(start as int, i as int)) > 0x8000_0000,
        decreases len - i,
    {
        let c = value.get_char(i);
        if !('0' <= c && c <= '9') {
            proof {
                assert(digits[i - start] == value@[i as int]);
            }
            return None;
        }
        let d = (c as u32 - 48) as u64;
        proof {
            assert(value@.subrange(start as int, i as int + 1).drop_last() =~= value@.subrange(
                start as int,
                i as int,
            ));
            assert(value@.subrange(start as int, i as int + 1).last() == value@[i as int]);
        }
        if overflow {
        } else if acc > 0x8000_0000 {
            overflow = true;
        } else {
            acc = acc * 10 + d;
        }
        i = i + 1;
    }
    proof {
        assert(digits =~= value@.subrange(start as int, len as int));
    }
    if overflow {
        return None;
    }
    if negative {
        if acc > 0x8000_0000 {
            return None;
        }
        let v = -(acc as i64);
        Some(v as i32)
    } else {
        if acc > 0x7FFF_FFFF {
            return None;
        }
        Some(acc as i32)
    }
}

/// The decimal digit character for a value between 0 and 9.
pub open spec fn digit_char_of(d: int) -> char {
    if d == 0 {
        '0'
    } else if d == 1 {
        '1'
    } else if d == 2 {
        '2'
    } else if d == 3 {
        '3'
    } else if d == 4 {
        '4'
    } else if d == 5 {
        '5'
    } else if d == 6 {
        '6'
    } else if d == 7 {
        '7'
    } else if d == 8 {
        '8'
    } else {
        '9'
    }
}

/// The canonical decimal digit string of a non-negative value: most
/// significant digit first, no leading zeros (a lone zero for zero).
pub open spec fn dec_digits_of(m: int) -> Seq<char>
    recommends
        m >= 0,
    decreases m,
{
    if m < 10 {
        seq![digit_char_of(m)]
    } else {
        dec_digits_of(m / 10).push(digit_char_of(m % 10))
    }
}

/// The canonical digit string of a non-negative value reads back as
/// that value: every character is a digit and its decimal value is `m`.
pub proof fn lemma_dec_digits_of(m: int)
    requires
        m >= 0,
    ensures
        dec_digits_of(m).len() >= 1,
        all_decimal_digits(dec_digits_of(m)),
        dec_value(dec_digits_of(m)) == m,
    decreases m,
{
    if m < 10 {
        let s = dec_digits_of(m);
        assert(s.drop_last() =~= Seq::<char>::empty());
        assert(dec_value(Seq::<char>::empty()) == 0);
        assert(dec_value(s) == dec_value(s.drop_last()) * 10 + digit_val(s.last()));
    } else {
        lemma_dec_digits_of(m / 10);
        let t = dec_digits_of(m / 10);
        let c = digit_char_of(m % 10);
        assert(t.push(c).drop_last() =~= t);
        assert(dec_value(t.push(c)) == dec_value(t) * 10 + digit_val(c));
        assert(forall|i: int| 0 <= i < t.push(c).len() ==> is_decimal_digit(#[trigger] t.push(c)[i]));
    }
}

/// Relies on String::push: appends exactly the one character.
#[verifier::external_body]
fn push_char(s: &mut String, c: char)
    ensures
        final(s)@ == old(s)@.push(c),
{
    s.push(c);
}

/// Appends the canonical decimal digits of `m`, most significant
/// first.
fn push_decimal(s: &mut String, m: u32)
    ensures
        final(s)@ == old(s)@ + dec_digits_of(m as int),
    decreases m,
{
    if m >= 10 {
        push_decimal(s, m / 10);
    }
    let d = m % 10;
    let c: char = if d == 0 {
        '0'
    } else if d == 1 {
        '1'
    } else if d == 2 {
        '2'
    } else if d == 3 {
        '3'
    } else if d == 4 {
        '4'
    } else if d == 5 {
        '5'
    } else if d == 6 {
        '6'
    } else if d == 7 {
        '7'
    } else if d == 8 {
        '8'
    } else {
        '9'
    };
    push_char(s, c);
    proof {
        assert(c == digit_char_of(m as int % 10));
        if m < 10 {
            assert(old(s)@ + dec_digits_of(m as int) =~= old(s)@.push(c));
        } else {
            assert(old(s)@ + dec_digits_of(m as int) =~= (old(s)@ + dec_digits_of(
                m as int / 10,
            )).push(c));
        }
    }
}

/// Formats a signed 32-bit value as its canonical decimal numeral: a
/// `-` for negatives, then the digits with no leading zeros. Parsing
/// the result gives the value back.
pub fn format_i32(v: i32) -> (r: String)
    ensures
        r@ == if v < 0 {
            seq!['-'] + dec_digits_of(-(v as int))
        } else {
            dec_digits_of(v as int)
        },
        parsed_i32(r@) == Some(v as int),
{
    let mut s = String::new();
    if v < 0 {
        push_char(&mut s, '-');
        let m: u32 = (-(v as i64)) as u32;
        push_decimal(&mut s, m);
        proof {
            lemma_dec_digits_of(m as int);
            assert(s@ =~= seq!['-'] + dec_digits_of(-(v as int)));
            assert(s@.subrange(1, s@.len() as int) =~= dec_digits_of(m as int));
        }
    } else {
        push_decimal(&mut s, v as u32);
        proof {
            lemma_dec_digits_of(v as int);
            assert(s@ =~= dec_digits_of(v as int));
            assert(is_decimal_digit(s@[0]));
        }
    }
    s
}

} // verus!
