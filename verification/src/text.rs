//! Text: comparing strings, decimal numbers, and the members of a ranking.

use vstd::prelude::*;
use vstd::string::*;

verus! {

/// Whether two string slices hold the same characters.
pub fn str_equal(a: &str, b: &str) -> (r: bool)
    ensures
        r == (a@ == b@),
{
    let left: String = String::from_str(a);
    let right: String = String::from_str(b);
    left == right
}

/// The character that stands for the digit `d`.
pub open spec fn digit_char(d: int) -> char {
    if d <= 0 {
        '0'
    } else if d == 1 {
        '1'
    } else if d == 2 {
        '2'
    } else if d == 3 {
        '3'
    } else if d == 4 {
        '4'
    } else if d == 5 {
        '5'
    } else if d == 6 {
        '6'
    } else if d == 7 {
        '7'
    } else if d == 8 {
        '8'
    } else {
        '9'
    }
}

/// The digit that `c` stands for, if it is a decimal digit.
pub open spec fn digit_value(c: char) -> Option<int> {
    if c == '0' {
        Some(0)
    } else if c == '1' {
        Some(1)
    } else if c == '2' {
        Some(2)
    } else if c == '3' {
        Some(3)
    } else if c == '4' {
        Some(4)
    } else if c == '5' {
        Some(5)
    } else if c == '6' {
        Some(6)
    } else if c == '7' {
        Some(7)
    } else if c == '8' {
        Some(8)
    } else if c == '9' {
        Some(9)
    } else {
        None
    }
}

/// The decimal digits of `n`, without leading zeros.
pub open spec fn decimal_digits(n: nat) -> Seq<char>
    decreases n,
{
    if n < 10 {
        seq![digit_char(n as int)]
    } else {
        decimal_digits(n / 10).push(digit_char((n % 10) as int))
    }
}

/// `i` in decimal, with a minus sign where it is negative.
pub open spec fn decimal_int(i: int) -> Seq<char> {
    if i < 0 {
        seq!['-'] + decimal_digits((-i) as nat)
    } else {
        decimal_digits(i as nat)
    }
}

/// Whether every character of `s` is a decimal digit.
pub open spec fn all_digits(s: Seq<char>) -> bool {
    forall|i: int| 0 <= i < s.len() ==> digit_value(#[trigger] s[i]) is Some
}

/// The number that the digits `s` write in decimal.
pub open spec fn digits_value(s: Seq<char>) -> nat
    decreases s.len(),
{
    if s.len() == 0 {
        0
    } else {
        match digit_value(s.last()) {
            Some(d) => digits_value(s.drop_last()) * 10 + d as nat,
            None => digits_value(s.drop_last()) * 10,
        }
    }
}

/// The number written by `s`: an optional plus sign and then one or more
/// decimal digits, whose value fits 32 bits.  `None` for any other text.
pub open spec fn spec_parse_u32(s: Seq<char>) -> Option<u32> {
    let digits = if s.len() > 0 && s[0] == '+' {
        s.subrange(1, s.len() as int)
    } else {
        s
    };
    if digits.len() > 0 && all_digits(digits) && digits_value(digits) <= u32::MAX {
        Some(digits_value(digits) as u32)
    } else {
        None
    }
}

/// The position of the first `/` in `s`; the length of `s` where it has none.
pub open spec fn first_slash(s: Seq<char>) -> int
    decreases s.len(),
{
    if s.len() == 0 {
        0
    } else if s[0] == '/' {
        0
    } else {
        1 + first_slash(s.subrange(1, s.len() as int))
    }
}

/// The identifier and the name of the member `s`: what stands before its
/// first `/` and what stands after it.  `None` where `s` has no `/`.
pub open spec fn spec_split_member(s: Seq<char>) -> Option<(Seq<char>, Seq<char>)> {
    let at = first_slash(s);
    if at < s.len() {
        Some((s.subrange(0, at), s.subrange(at + 1, s.len() as int)))
    } else {
        None
    }
}

/// `first_slash` is the least position that holds a `/`.
pub proof fn lemma_first_slash(s: Seq<char>)
    ensures
        0 <= first_slash(s) <= s.len(),
        forall|i: int| 0 <= i < first_slash(s) ==> s[i] != '/',
        first_slash(s) < s.len() ==> s[first_slash(s)] == '/',
    decreases s.len(),
{
    if s.len() > 0 && s[0] != '/' {
        let rest = s.subrange(1, s.len() as int);
        lemma_first_slash(rest);
        assert forall|i: int| 0 <= i < first_slash(s) implies s[i] != '/' by {
            if i > 0 {
                assert(s[i] == rest[i - 1]);
            }
        }
        if first_slash(s) < s.len() {
            assert(s[first_slash(s)] == rest[first_slash(rest)]);
        }
    }
}

/// A position that holds a `/` and has none before it is `first_slash`.
pub proof fn lemma_first_slash_is(s: Seq<char>, at: int)
    requires
        0 <= at <= s.len(),
        forall|i: int| 0 <= i < at ==> s[i] != '/',
        at < s.len() ==> s[at] == '/',
    ensures
        first_slash(s) == at,
{
    lemma_first_slash(s);
    if first_slash(s) < at {
        assert(s[first_slash(s)] != '/');
    }
}

/// The text that stands for the digit `d`.
fn digit_str(d: u64) -> (r: &'static str)
    requires
        d < 10,
    ensures
        r@ == seq![digit_char(d as int)],
{
    proof {
        reveal_strlit("0");
        reveal_strlit("1");
        reveal_strlit("2");
        reveal_strlit("3");
        reveal_strlit("4");
        reveal_strlit("5");
        reveal_strlit("6");
        reveal_strlit("7");
        reveal_strlit("8");
        reveal_strlit("9");
    }
    let r: &'static str = if d == 0 {
        "0"
    } else if d == 1 {
        "1"
    } else if d == 2 {
        "2"
    } else if d == 3 {
        "3"
    } else if d == 4 {
        "4"
    } else if d == 5 {
        "5"
    } else if d == 6 {
        "6"
    } else if d == 7 {
        "7"
    } else if d == 8 {
        "8"
    } else {
        "9"
    };
    assert(r@ =~= seq![digit_char(d as int)]);
    r
}

/// Appends `n` in decimal to `text`.
pub fn push_decimal(text: &mut String, n: u64)
    ensures
        final(text)@ == old(text)@ + decimal_digits(n as nat),
    decreases n,
{
    if n >= 10 {
        push_decimal(text, n / 10);
    }
    text.append(digit_str(n % 10));
    proof {
        if n >= 10 {
            assert(final(text)@ =~= old(text)@ + decimal_digits(n as nat));
        } else {
            assert(final(text)@ =~= old(text)@ + decimal_digits(n as nat));
        }
    }
}

/// Appends `i` in decimal to `text`, with a minus sign where it is negative.
pub fn push_int(text: &mut String, i: i32)
    ensures
        final(text)@ == old(text)@ + decimal_int(i as int),
{
    if i < 0 {
        proof {
            reveal_strlit("-");
        }
        text.append("-");
        push_decimal(text, (-(i as i64)) as u64);
        assert(final(text)@ =~= old(text)@ + decimal_int(i as int));
    } else {
        push_decimal(text, i as u64);
    }
}

/// The digit that `c` stands for, if it is a decimal digit.
fn digit_of(c: char) -> (r: Option<u64>)
    ensures
        r is Some <==> digit_value(c) is Some,
        r matches Some(d) ==> digit_value(c) == Some(d as int) && d < 10,
{
    if c == '0' {
        Some(0)
    } else if c == '1' {
        Some(1)
    } else if c == '2' {
        Some(2)
    } else if c == '3' {
        Some(3)
    } else if c == '4' {
        Some(4)
    } else if c == '5' {
        Some(5)
    } else if c == '6' {
        Some(6)
    } else if c == '7' {
        Some(7)
    } else if c == '8' {
        Some(8)
    } else if c == '9' {
        Some(9)
    } else {
        None
    }
}

/// Reads a number of 32 bits from `text`: an optional plus sign and then one
/// or more decimal digits.
pub fn parse_u32(text: &str) -> (r: Option<u32>)
    ensures
        r == spec_parse_u32(text@),
{
    let len: usize = text.unicode_len();
    if len == 0 {
        return None;
    }
    let start: usize = if text.get_char(0) == '+' {
        1
    } else {
        0
    };
    if start == len {
        return None;
    }
    let ghost digits = text@.subrange(start as int, len as int);
    proof {
        if start == 0 {
            assert(digits =~= text@);
        }
    }
    let mut value: u64 = 0;
    let mut too_large: bool = false;
    let mut i: usize = start;
    while i < len
        invariant
            start <= i <= len,
            len == text@.len(),
            digits == text@.subrange(start as int, len as int),
            start == 0 ==> digits == text@,
            start == 1 <==> text@[0] == '+',
            all_digits(digits.subrange(0, i - start)),
            too_large ==> digits_value(digits.subrange(0, i - start)) > u32::MAX,
            !too_large ==> value == digits_value(digits.subrange(0, i - start)) && value
                <= u32::MAX,
        decreases len - i,
    {
        let c: char = text.get_char(i);
        let ghost before = digits.subrange(0, i - start);
        let ghost after = digits.subrange(0, i + 1 - start);
        proof {
            assert(after.last() == c);
            assert(after.drop_last() =~= before);
        }
        match digit_of(c) {
            Some(d) => {
                if !too_large {
                    value = value * 10 + d;
                    if value > 0xffff_ffff {
                        too_large = true;
                    }
                }
                proof {
                    assert forall|j: int| 0 <= j < after.len() implies digit_value(
                        #[trigger] after[j],
                    ) is Some by {
                        if j < before.len() {
                            assert(after[j] == before[j]);
                        }
                    }
                }
            },
            None => {
                proof {
                    assert(digit_value(digits[i - start]) is None);
                }
                return None;
            },
        }
        i += 1;
    }
    proof {
        assert(digits.subrange(0, len - start) =~= digits);
    }
    if too_large {
        None
    } else {
        Some(value as u32)
    }
}

/// Splits the member `member` at its first `/` into identifier and name.
pub fn split_member(member: &str) -> (r: Option<(String, String)>)
    ensures
        r is Some <==> spec_split_member(member@) is Some,
        r matches Some(parts) ==> spec_split_member(member@) == Some((parts.0@, parts.1@)),
{
    let len: usize = member.unicode_len();
    let mut i: usize = 0;
    while i < len
        invariant
            i <= len,
            len == member@.len(),
            forall|j: int| 0 <= j < i ==> member@[j] != '/',
        decreases len - i,
    {
        if member.get_char(i) == '/' {
            proof {
                lemma_first_slash_is(member@, i as int);
            }
            let id: String = String::from_str(member.substring_char(0, i));
            let name: String = String::from_str(member.substring_char(i + 1, len));
            return Some((id, name));
        }
        i += 1;
    }
    proof {
        lemma_first_slash_is(member@, len as int);
    }
    None
}

} // verus!
