//! Small verified text helpers: exact and ASCII-case-insensitive string
//! comparison, and decimal parsing as the command line needs it.

use vstd::prelude::*;
use vstd::string::StringSliceAdditionalSpecFns;

verus! {

/// Exact equality of two string slices, character by character.
pub fn str_eq(a: &str, b: &str) -> (r: bool)
    ensures
        r == (a@ == b@),
{
    let na = a.unicode_len();
    let nb = b.unicode_len();
    if na != nb {
        proof {
            assert(a@.len() != b@.len());
        }
        return false;
    }
    let mut i: usize = 0;
    while i < na
        invariant
            na == a@.len(),
            na == b@.len(),
            i <= na,
            forall|j: int| 0 <= j < i ==> a@[j] == b@[j],
        decreases na - i,
    {
        if a.get_char(i) != b.get_char(i) {
            proof {
                assert(a@[i as int] != b@[i as int]);
            }
            return false;
        }
        i = i + 1;
    }
    proof {
        assert(a@ =~= b@);
    }
    true
}

/// A byte with an ASCII upper-case letter folded to its lower-case form.
pub open spec fn spec_lower_byte(b: u8) -> u8 {
    if 65 <= b <= 90 {
        (b + 32) as u8
    } else {
        b
    }
}

fn lower_byte(b: u8) -> (r: u8)
    ensures
        r == spec_lower_byte(b),
{
    if 65 <= b && b <= 90 {
        b + 32
    } else {
        b
    }
}

/// Whether two byte strings agree up to ASCII letter case.
pub open spec fn spec_eq_ignore_ascii_case(a: Seq<u8>, b: Seq<u8>) -> bool {
    a.map_values(|x: u8| spec_lower_byte(x)) == b.map_values(|x: u8| spec_lower_byte(x))
}

/// ASCII-case-insensitive equality of two string slices, over their bytes.
pub fn eq_ignore_ascii_case(a: &str, b: &str) -> (r: bool)
    ensures
        r == spec_eq_ignore_ascii_case(a.spec_bytes(), b.spec_bytes()),
{
    let ab = a.as_bytes();
    let bb = b.as_bytes();
    let ghost la = ab@.map_values(|x: u8| spec_lower_byte(x));
    let ghost lb = bb@.map_values(|x: u8| spec_lower_byte(x));
    if ab.len() != bb.len() {
        proof {
            assert(la.len() != lb.len());
        }
        return false;
    }
    let n = ab.len();
    let mut i: usize = 0;
    while i < n
        invariant
            n == ab@.len(),
            n == bb@.len(),
            ab@ == a.spec_bytes(),
            bb@ == b.spec_bytes(),
            la == ab@.map_values(|x: u8| spec_lower_byte(x)),
            lb == bb@.map_values(|x: u8| spec_lower_byte(x)),
            i <= n,
            forall|j: int| 0 <= j < i ==> la[j] == lb[j],
        decreases n - i,
    {
        if lower_byte(ab[i]) != lower_byte(bb[i]) {
            proof {
                assert(la[i as int] != lb[i as int]);
            }
            return false;
        }
        i = i + 1;
    }
    proof {
        assert(la =~= lb);
    }
    true
}

/// Whether the character is a decimal digit.
pub open spec fn spec_is_digit(c: char) -> bool {
    '0' <= c <= '9'
}

/// A digit's numeric value.
pub open spec fn spec_digit_val(c: char) -> int {
    c as int - '0' as int
}

/// Whether a sequence is entirely decimal digits.
pub open spec fn spec_all_digits(s: Seq<char>) -> bool {
    forall|i: int| 0 <= i < s.len() ==> spec_is_digit(#[trigger] s[i])
}

/// The numeric value of a digit sequence, most significant first.
pub open spec fn spec_digits_value(s: Seq<char>) -> int
    decreases s.len(),
{
    if s.len() == 0 {
        0
    } else {
        spec_digits_value(s.drop_last()) * 10 + spec_digit_val(s.last())
    }
}

/// The digit part of a decimal string: everything after one optional
/// leading plus sign, as the standard unsigned parse accepts it.
pub open spec fn spec_strip_plus(s: Seq<char>) -> Seq<char> {
    if s.len() > 0 && s[0] == '+' {
        s.drop_first()
    } else {
        s
    }
}

/// What parsing a decimal string as `usize` yields: the digits' value when
/// the string is one optional plus sign followed by one or more digits and
/// the value fits; nothing otherwise.
pub open spec fn spec_parse_usize(s: Seq<char>) -> Option<usize> {
    let d = spec_strip_plus(s);
    if d.len() == 0 || !spec_all_digits(d) {
        None
    } else if spec_digits_value(d) > usize::MAX {
        None
    } else {
        Some(spec_digits_value(d) as usize)
    }
}

/// A longer digit prefix never has a smaller value.
proof fn lemma_digits_value_prefix_le(s: Seq<char>, i: int)
    requires
        0 <= i <= s.len(),
        spec_all_digits(s),
    ensures
        spec_digits_value(s.take(i)) <= spec_digits_value(s),
        spec_digits_value(s) >= 0,
    decreases s.len() - i,
{
    if i == s.len() {
        assert(s.take(i) =~= s);
        lemma_digits_value_nonneg(s);
    } else {
        lemma_digits_value_prefix_le(s, i + 1);
        assert(s.take(i + 1).drop_last() =~= s.take(i));
        assert(s.take(i + 1).last() == s[i]);
        lemma_digits_value_nonneg(s.take(i));
    }
}

proof fn lemma_digits_value_nonneg(s: Seq<char>)
    requires
        spec_all_digits(s),
    ensures
        spec_digits_value(s) >= 0,
    decreases s.len(),
{
    if s.len() > 0 {
        assert(spec_all_digits(s.drop_last()));
        lemma_digits_value_nonneg(s.drop_last());
    }
}

/// Parses a decimal `usize` as the standard library's unsigned parse does:
/// an optional plus sign, then digits; anything else, or a value over the
/// machine maximum, yields nothing.
pub fn parse_usize(s: &str) -> (r: Option<usize>)
    ensures
        r == spec_parse_usize(s@),
{
    let n = s.unicode_len();
    let mut start: usize = 0;
    if n > 0 && s.get_char(0) == '+' {
        start = 1;
    }
    let ghost d = spec_strip_plus(s@);
    proof {
        assert(d =~= s@.skip(start as int));
    }
    if start == n {
        return None;
    }
    let mut acc: usize = 0;
    let mut i: usize = start;
    while i < n
        invariant
            n == s@.len(),
            start <= i <= n,
            start < n,
            start <= 1,
            d == spec_strip_plus(s@),
            d == s@.skip(start as int),
            d.len() == n - start,
            spec_all_digits(d.take(i - start)),
            acc == spec_digits_value(d.take(i - start)),
        decreases n - i,
    {
        let c = s.get_char(i);
        if !('0' <= c && c <= '9') {
            proof {
                assert(d[i - start] == c);
                assert(!spec_is_digit(d[i - start]));
            }
            return None;
        }
        let digit: usize = (c as u32 as usize) - 48;
        proof {
            assert(d.take(i - start + 1).drop_last() =~= d.take(i - start));
            assert(d.take(i - start + 1).last() == d[i - start]);
            assert(d[i - start] == c);
        }
        if acc > usize::MAX / 10 || (acc == usize::MAX / 10 && digit > usize::MAX % 10) {
            proof {
                assert(spec_digits_value(d.take(i - start + 1)) > usize::MAX);
                lemma_overflow_propagates(d, i - start + 1);
            }
            return None;
        }
        acc = acc * 10 + digit;
        i = i + 1;
    }
    proof {
        assert(d.take(n - start) =~= d);
    }
    Some(acc)
}

/// Once a digit prefix exceeds the machine maximum, the whole string does.
proof fn lemma_overflow_propagates(d: Seq<char>, i: int)
    requires
        0 <= i <= d.len(),
        spec_all_digits(d.take(i)),
        spec_digits_value(d.take(i)) > usize::MAX,
    ensures
        spec_all_digits(d) ==> spec_digits_value(d) > usize::MAX,
{
    if spec_all_digits(d) {
        lemma_digits_value_prefix_le(d, i);
    }
}

} // verus!
