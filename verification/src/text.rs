//! Text helpers: the standard library's suffix test and number parsing
//! that the argument parser relies on, and decimal formatting for the
//! recording timer.
use vstd::prelude::*;

verus! {

/// Whether `s` ends with `suffix`, comparing characters.
pub open spec fn has_suffix(s: Seq<char>, suffix: Seq<char>) -> bool {
    suffix.len() <= s.len() && s.subrange(s.len() - suffix.len(), s.len() as int) == suffix
}

/// `str::ends_with` with a string pattern: true when `suffix` is a suffix of
/// `s`.
#[verifier::external_body]
pub(crate) fn str_ends_with(s: &str, suffix: &str) -> (r: bool)
    ensures
        r == has_suffix(s@, suffix@),
{
    s.ends_with(suffix)
}

pub open spec fn is_digit(c: char) -> bool {
    '0' <= c <= '9'
}

/// The number written by the decimal digits `s`.
pub open spec fn decimal_value(s: Seq<char>) -> int
    decreases s.len(),
{
    if s.len() == 0 {
        0
    } else {
        decimal_value(s.drop_last()) * 10 + (s.last() as int - '0' as int)
    }
}

/// What `u64::from_str` gives for `s`: an optional `+` followed by at least
/// one decimal digit and nothing else, with a value that fits in 64 bits.
pub open spec fn parsed_u64(s: Seq<char>) -> Option<u64> {
    let digits = if s.len() > 0 && s[0] == '+' { s.drop_first() } else { s };
    if digits.len() > 0 && (forall|i: int| 0 <= i < digits.len() ==> is_digit(#[trigger] digits[i]))
        && decimal_value(digits) <= u64::MAX {
        Some(decimal_value(digits) as u64)
    } else {
        None
    }
}

/// `str::parse::<u64>`: the number `s` spells, if it is one.
#[verifier::external_body]
pub(crate) fn parse_u64(s: &str) -> (r: Option<u64>)
    ensures
        r == parsed_u64(s@),
{
    s.parse::<u64>().ok()
}

/// The decimal digits of `n`, without leading zeros.
pub open spec fn decimal(n: nat) -> Seq<char>
    decreases n,
{
    if n < 10 {
        seq![(('0' as int) + n) as char]
    } else {
        decimal(n / 10).push((('0' as int) + n % 10) as char)
    }
}

/// `n` in decimal, padded with a zero to at least two digits.
pub open spec fn padded2(n: nat) -> Seq<char> {
    if n < 10 {
        seq!['0'] + decimal(n)
    } else {
        decimal(n)
    }
}

/// Appends the decimal digits of `n` to `s`.
pub fn push_decimal(s: &mut String, n: u64)
    ensures
        final(s)@ == old(s)@ + decimal(n as nat),
    decreases n,
{
    if n >= 10 {
        push_decimal(s, n / 10);
    }
    let d: u64 = n % 10;
    let digits: [&str; 10] = ["0", "1", "2", "3", "4", "5", "6", "7", "8", "9"];
    proof {
        reveal_strlit("0");
        reveal_strlit("1");
        reveal_strlit("2");
        reveal_strlit("3");
        reveal_strlit("4");
        reveal_strlit("5");
        reveal_strlit("6");
        reveal_strlit("7");
        reveal_strlit("8");
        reveal_strlit("9");
    }
    let t: &str = digits[d as usize];
    assert(t@ == seq![(('0' as int) + n % 10) as char]);
    s.append(t);
    assert(s@ =~= old(s)@ + decimal(n as nat));
}

/// Appends `n` to `s` in decimal, padded to at least two digits.
pub fn push_padded2(s: &mut String, n: u64)
    ensures
        final(s)@ == old(s)@ + padded2(n as nat),
{
    if n < 10 {
        s.append("0");
        proof {
            reveal_strlit("0");
        }
    }
    let ghost mid = s@;
    push_decimal(s, n);
    assert(s@ =~= old(s)@ + padded2(n as nat));
}

} // verus!
