//! Small text utilities for the command-line boundary: parsing a 16-bit
//! number written in decimal, hexadecimal (`0x`) or binary (`0b`), and plain
//! string comparison.

use vstd::prelude::*;

verus! {

/// The value a character contributes as a digit: `0..=9` for `'0'..='9'`,
/// `10..=35` for `'a'..='z'` and `'A'..='Z'`, and 99 (larger than any radix
/// in use) for everything else.
pub open spec fn digit_value(c: char) -> int {
    let v = c as u32;
    if 48 <= v && v <= 57 {
        v - 48
    } else if 97 <= v && v <= 122 {
        v - 97 + 10
    } else if 65 <= v && v <= 90 {
        v - 65 + 10
    } else {
        99
    }
}

/// Whether `c` is a digit of the given radix.
pub open spec fn is_digit(c: char, radix: int) -> bool {
    digit_value(c) < radix
}

/// The value of a digit string read left to right in the given radix.
pub open spec fn digits_value(s: Seq<char>, radix: int) -> int
    decreases s.len(),
{
    if s.len() == 0 {
        0
    } else {
        digits_value(s.drop_last(), radix) * radix + digit_value(s.last())
    }
}

/// A well-formed digit string: at least one character, every one a digit of
/// the radix.
pub open spec fn digits_wf(s: Seq<char>, radix: int) -> bool {
    s.len() > 0 && forall|i: int| 0 <= i < s.len() ==> is_digit(s[i], radix)
}

/// The digit part of a numeral: everything after one optional leading plus
/// sign.
pub open spec fn numeral_digits(s: Seq<char>) -> Seq<char> {
    if s.len() > 0 && s[0] == '+' {
        s.skip(1)
    } else {
        s
    }
}

/// A well-formed numeral: an optional plus sign followed by a well-formed
/// digit string.
pub open spec fn numeral_wf(s: Seq<char>, radix: int) -> bool {
    digits_wf(numeral_digits(s), radix)
}

/// The value of a well-formed numeral.
pub open spec fn numeral_value(s: Seq<char>, radix: int) -> int {
    digits_value(numeral_digits(s), radix)
}

/// The radix a prefix selects: 16 after `0x`, 2 after `0b`, 10 otherwise.
pub open spec fn radix_of(s: Seq<char>) -> int {
    if s.len() >= 2 && s[0] == '0' && s[1] == 'x' {
        16
    } else if s.len() >= 2 && s[0] == '0' && s[1] == 'b' {
        2
    } else {
        10
    }
}

/// The numeral after the radix prefix, if there was one.
pub open spec fn payload_of(s: Seq<char>) -> Seq<char> {
    if radix_of(s) == 10 {
        s
    } else {
        s.skip(2)
    }
}

/// Why a string did not parse as a 16-bit number: it was not a numeral at
/// all, or its value needs more than 16 bits.
#[derive(Clone, Copy, Debug, PartialEq, Eq, Structural)]
pub enum ParseU16Error {
    Invalid,
    TooLarge,
}

/// Every digit string has a non-negative value.
proof fn lemma_digits_value_nonneg(s: Seq<char>, radix: int)
    requires
        radix >= 1,
    ensures
        digits_value(s, radix) >= 0,
    decreases s.len(),
{
    if s.len() > 0 {
        lemma_digits_value_nonneg(s.drop_last(), radix);
        assert(digits_value(s.drop_last(), radix) * radix >= 0) by (nonlinear_arith)
            requires
                digits_value(s.drop_last(), radix) >= 0,
                radix >= 1,
        ;
        assert(digit_value(s.last()) >= 0);
    }
}

/// The value of a digit string is at least the value of any of its prefixes.
proof fn lemma_digits_value_prefix(s: Seq<char>, radix: int, i: int)
    requires
        radix >= 1,
        0 <= i <= s.len(),
    ensures
        digits_value(s.subrange(0, i), radix) <= digits_value(s, radix),
    decreases s.len() - i,
{
    if i == s.len() {
        assert(s.subrange(0, i) =~= s);
    } else {
        let p = s.subrange(0, i);
        let q = s.subrange(0, i + 1);
        assert(q.drop_last() =~= p);
        lemma_digits_value_nonneg(p, radix);
        assert(digits_value(p, radix) * radix >= digits_value(p, radix)) by (nonlinear_arith)
            requires
                digits_value(p, radix) >= 0,
                radix >= 1,
        ;
        assert(digit_value(q.last()) >= 0);
        lemma_digits_value_prefix(s, radix, i + 1);
    }
}

/// The digit value of a character, executable form.
fn digit_val(c: char) -> (d: u16)
    ensures
        d == digit_value(c),
{
    let v = c as u32;
    if 48 <= v && v <= 57 {
        (v - 48) as u16
    } else if 97 <= v && v <= 122 {
        (v - 97 + 10) as u16
    } else if 65 <= v && v <= 90 {
        (v - 65 + 10) as u16
    } else {
        99
    }
}

/// Parses a 16-bit unsigned number: hexadecimal after a `0x` prefix, binary
/// after a `0b` prefix, decimal otherwise.  The numeral may carry one
/// leading plus sign.  Returns the value exactly when the numeral is well
/// formed and fits in 16 bits; says which of the two failed otherwise.
#[verifier::rlimit(100)]
pub fn parse_u16(input: &str) -> (result: Result<u16, ParseU16Error>)
    ensures
        ({
            let radix = radix_of(input@);
            let digits = payload_of(input@);
            match result {
                Ok(v) => numeral_wf(digits, radix) && numeral_value(digits, radix) < 0x10000 && v
                    == numeral_value(digits, radix),
                Err(ParseU16Error::Invalid) => !numeral_wf(digits, radix),
                Err(ParseU16Error::TooLarge) => numeral_wf(digits, radix) && numeral_value(
                    digits,
                    radix,
                ) >= 0x10000,
            }
        }),
{
    let n = input.unicode_len();
    let (radix, prefix_len): (u16, usize) = if n >= 2 && input.get_char(0) == '0'
        && input.get_char(1) == 'x' {
        (16, 2)
    } else if n >= 2 && input.get_char(0) == '0' && input.get_char(1) == 'b' {
        (2, 2)
    } else {
        (10, 0)
    };
    proof {
        assert(radix == radix_of(input@));
        assert(payload_of(input@) =~= input@.skip(prefix_len as int));
    }
    let mut start: usize = prefix_len;
    if start < n && input.get_char(start) == '+' {
        start = start + 1;
    }
    let ghost digits = input@.skip(start as int);
    proof {
        assert(digits =~= numeral_digits(payload_of(input@)));
    }
    if start >= n {
        return Err(ParseU16Error::Invalid);
    }
    let mut j: usize = start;
    #[verifier::loop_isolation(false)]
    while j < n
        invariant
            start <= j <= n,
            forall|i: int| start <= i < j ==> is_digit(input@[i], radix as int),
        decreases n - j,
    {
        if digit_val(input.get_char(j)) >= radix {
            proof {
                assert(digits[j - start as int] == input@[j as int]);
                assert(!digits_wf(digits, radix as int));
            }
            return Err(ParseU16Error::Invalid);
        }
        j = j + 1;
    }
    let mut value: u32 = 0;
    let mut k: usize = start;
    #[verifier::loop_isolation(false)]
    while k < n
        invariant
            start <= k <= n,
            value <= 0xFFFF,
            value == digits_value(input@.subrange(start as int, k as int), radix as int),
        decreases n - k,
    {
        let d = digit_val(input.get_char(k));
        proof {
            assert(value * radix <= 0xFFFF * 16) by (nonlinear_arith)
                requires
                    value <= 0xFFFF,
                    radix <= 16,
                    value >= 0,
            ;
            let p = input@.subrange(start as int, k as int);
            let q = input@.subrange(start as int, k + 1 as int);
            assert(q.drop_last() =~= p);
        }
        let next: u32 = value * radix as u32 + d as u32;
        if next > 0xFFFF {
            proof {
                let whole = input@.subrange(start as int, n as int);
                assert(whole =~= digits);
                let q = input@.subrange(start as int, k + 1 as int);
                assert(q =~= whole.subrange(0, k + 1 - start as int));
                lemma_digits_value_prefix(whole, radix as int, k + 1 - start as int);
            }
            return Err(ParseU16Error::TooLarge);
        }
        value = next;
        k = k + 1;
    }
    proof {
        assert(input@.subrange(start as int, n as int) =~= digits);
    }
    Ok(value as u16)
}

/// Whether two strings hold the same characters.
pub fn str_eq(a: &str, b: &str) -> (r: bool)
    ensures
        r == (a@ == b@),
{
    let n = a.unicode_len();
    if n != b.unicode_len() {
        return false;
    }
    let mut i: usize = 0;
    #[verifier::loop_isolation(false)]
    while i < n
        invariant
            i <= n,
            forall|j: int| 0 <= j < i ==> a@[j] == b@[j],
        decreases n - i,
    {
        if a.get_char(i) != b.get_char(i) {
            return false;
        }
        i = i + 1;
    }
    proof {
        assert(a@ =~= b@);
    }
    true
}

} // verus!
