//! Decimal text of unsigned integers, read and written as the standard
//! library's `str::parse` and `Display` do.

use vstd::prelude::*;

verus! {

/// The character of a decimal digit.
pub open spec fn digit_char(d: nat) -> char {
    if d == 0 { '0' }
    else if d == 1 { '1' }
    else if d == 2 { '2' }
    else if d == 3 { '3' }
    else if d == 4 { '4' }
    else if d == 5 { '5' }
    else if d == 6 { '6' }
    else if d == 7 { '7' }
    else if d == 8 { '8' }
    else { '9' }
}

/// Whether `c` is an ASCII decimal digit.
pub open spec fn is_digit(c: char) -> bool {
    '0' as u32 <= c as u32 && c as u32 <= '9' as u32
}

/// The value of a decimal digit character.
pub open spec fn digit_value(c: char) -> nat {
    (c as u32 - '0' as u32) as nat
}

/// Whether every character of `s` is a decimal digit.
pub open spec fn all_digits(s: Seq<char>) -> bool {
    forall|i: int| 0 <= i < s.len() ==> is_digit(#[trigger] s[i])
}

/// The number that a string of decimal digits denotes.
pub open spec fn digits_value(s: Seq<char>) -> nat
    decreases s.len(),
{
    if s.len() == 0 {
        0
    } else {
        digits_value(s.drop_last()) * 10 + digit_value(s.last())
    }
}

/// The digits that `str::parse` reads for an unsigned type: the whole text,
/// or the text after one leading `+`; none for an empty text or a lone `+`.
pub open spec fn unsigned_digits(s: Seq<char>) -> Option<Seq<char>> {
    if s.len() == 0 {
        None
    } else if s[0] == '+' {
        if s.len() == 1 { None } else { Some(s.drop_first()) }
    } else {
        Some(s)
    }
}

/// What `str::parse` gives for an unsigned type whose largest value is `max`:
/// the number when the digits are all decimal and it is at most `max`.
pub open spec fn parse_unsigned(s: Seq<char>, max: nat) -> Option<nat> {
    match unsigned_digits(s) {
        Some(d) => if all_digits(d) && digits_value(d) <= max {
            Some(digits_value(d))
        } else {
            None
        },
        None => None,
    }
}

/// The decimal text of `n`, without leading zeros.
pub open spec fn decimal_text(n: nat) -> Seq<char>
    decreases n,
{
    if n < 10 {
        seq![digit_char(n)]
    } else {
        decimal_text(n / 10) + seq![digit_char(n % 10)]
    }
}

/// Each digit character is a digit of its own value.
proof fn digit_char_value(d: nat)
    requires
        d < 10,
    ensures
        is_digit(digit_char(d)),
        digit_value(digit_char(d)) == d,
{
}

/// The decimal text of a number is all digits, and denotes the number.
proof fn decimal_text_denotes(n: nat)
    ensures
        all_digits(decimal_text(n)),
        digits_value(decimal_text(n)) == n,
        decimal_text(n).len() > 0,
    decreases n,
{
    if n < 10 {
        digit_char_value(n);
        assert(decimal_text(n).drop_last() =~= Seq::<char>::empty());
        assert(decimal_text(n).last() == digit_char(n));
        assert(digits_value(decimal_text(n).drop_last()) == 0);
        assert(digits_value(decimal_text(n)) == digits_value(decimal_text(n).drop_last()) * 10 + digit_value(digit_char(n)));
        assert(digits_value(decimal_text(n)) == n);
    } else {
        decimal_text_denotes(n / 10);
        digit_char_value(n % 10);
        let t = decimal_text(n);
        assert(t.drop_last() =~= decimal_text(n / 10));
        assert(t.last() == digit_char(n % 10));
        assert(digits_value(t) == digits_value(decimal_text(n / 10)) * 10 + digit_value(digit_char(n % 10)));
        assert(n == (n / 10) * 10 + n % 10);
        assert forall|i: int| 0 <= i < t.len() implies is_digit(#[trigger] t[i]) by {
            if i < t.len() - 1 {
                assert(t[i] == decimal_text(n / 10)[i]);
            }
        }
    }
}

/// Reading back the decimal text of a number gives the number, for any type
/// that can hold it: what `push_decimal` writes, `parse_unsigned_text` reads.
pub proof fn decimal_text_reads_back(n: nat, max: nat)
    requires
        n <= max,
    ensures
        parse_unsigned(decimal_text(n), max) == Some(n),
{
    decimal_text_denotes(n);
    assert(is_digit(decimal_text(n)[0]));
}

/// Reading the decimal text of a number for a type whose largest value is
/// `max` gives the number when it fits, and nothing when it does not.
pub proof fn decimal_text_parses(n: nat, max: nat)
    ensures
        parse_unsigned(decimal_text(n), max) == if n <= max { Some(n) } else { None::<nat> },
{
    decimal_text_denotes(n);
    assert(is_digit(decimal_text(n)[0]));
}

/// Reads `text` as an unsigned number no greater than `max`, as `str::parse`
/// does for the unsigned type whose largest value is `max`.
pub fn parse_unsigned_text(text: &str, max: u64) -> (r: Option<u64>)
    ensures
        match r {
            Some(v) => parse_unsigned(text@, max as nat) == Some(v as nat),
            None => parse_unsigned(text@, max as nat) is None,
        },
{
    let len = text.unicode_len();
    if len == 0 {
        return None;
    }
    let first = text.get_char(0);
    let start: usize = if first == '+' {
        if len == 1 {
            return None;
        }
        1
    } else {
        0
    };
    let ghost digits = text@.subrange(start as int, len as int);
    assert(unsigned_digits(text@) == Some(digits)) by {
        if start == 1 {
            assert(digits =~= text@.drop_first());
        } else {
            assert(digits =~= text@);
        }
    }
    let mut acc: u64 = 0;
    let mut overflow = false;
    let mut i: usize = start;
    while i < len
        invariant
            start <= i <= len,
            len == text@.len(),
            digits == text@.subrange(start as int, len as int),
            unsigned_digits(text@) == Some(digits),
            all_digits(digits.take(i - start)),
            !overflow ==> acc as nat == digits_value(digits.take(i - start)) && acc <= max,
            overflow ==> digits_value(digits.take(i - start)) > max,
        decreases len - i,
    {
        let c = text.get_char(i);
        if !('0' <= c && c <= '9') {
            assert(digits[i - start] == c);
            assert(!all_digits(digits));
            return None;
        }
        let ghost before = digits.take(i - start);
        let ghost after = digits.take(i - start + 1);
        assert(after.drop_last() =~= before);
        assert(after.last() == c);
        assert(all_digits(after)) by {
            assert forall|j: int| 0 <= j < after.len() implies is_digit(#[trigger] after[j]) by {
                if j < before.len() {
                    assert(after[j] == before[j]);
                }
            }
        }
        let d: u64 = (c as u32 - '0' as u32) as u64;
        if !overflow {
            let next: u128 = acc as u128 * 10 + d as u128;
            if next > max as u128 {
                overflow = true;
            } else {
                acc = next as u64;
            }
        }
        i = i + 1;
    }
    assert(digits.take(i - start) =~= digits);
    if overflow {
        None
    } else {
        Some(acc)
    }
}

/// The one-character text of the digit `d`.
fn digit_text(d: u64) -> (s: &'static str)
    requires
        d < 10,
    ensures
        s@ == seq![digit_char(d as nat)],
{
    proof {
        reveal_strlit("0");
        reveal_strlit("1");
        reveal_strlit("2");
        reveal_strlit("3");
        reveal_strlit("4");
        reveal_strlit("5");
        reveal_strlit("6");
        reveal_strlit("7");
        reveal_strlit("8");
        reveal_strlit("9");
    }
    if d == 0 {
        "0"
    } else if d == 1 {
        "1"
    } else if d == 2 {
        "2"
    } else if d == 3 {
        "3"
    } else if d == 4 {
        "4"
    } else if d == 5 {
        "5"
    } else if d == 6 {
        "6"
    } else if d == 7 {
        "7"
    } else if d == 8 {
        "8"
    } else {
        "9"
    }
}

/// Appends the decimal text of `n` to `out`.
pub fn push_decimal(out: &mut String, n: u128)
    ensures
        final(out)@ == old(out)@ + decimal_text(n as nat),
    decreases n,
{
    if n >= 10 {
        push_decimal(out, n / 10);
    }
    let d = (n % 10) as u64;
    out.append(digit_text(d));
    assert(out@ =~= old(out)@ + decimal_text(n as nat));
}

} // verus!
