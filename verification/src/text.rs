//! Text building blocks: decimal rendering of integers, and the
//! case-folding used for antenna-name matching and path building.

use vstd::prelude::*;

verus! {

/// The decimal digit character of `d`.
pub open spec fn digit_char(d: int) -> char {
    if d == 0 {
        '0'
    } else if d == 1 {
        '1'
    } else if d == 2 {
        '2'
    } else if d == 3 {
        '3'
    } else if d == 4 {
        '4'
    } else if d == 5 {
        '5'
    } else if d == 6 {
        '6'
    } else if d == 7 {
        '7'
    } else if d == 8 {
        '8'
    } else {
        '9'
    }
}

/// Decimal rendering of a non-negative integer, most significant digit
/// first, with no leading zeros (except for zero itself).
pub open spec fn dec_str(n: nat) -> Seq<char>
    decreases n,
{
    if n < 10 {
        seq![digit_char(n as int)]
    } else {
        dec_str(n / 10).push(digit_char((n % 10) as int))
    }
}

/// Decimal rendering of a signed integer: a minus sign before the
/// magnitude where negative.
pub open spec fn dec_str_i64(x: int) -> Seq<char> {
    if x >= 0 {
        dec_str(x as nat)
    } else {
        seq!['-'] + dec_str((-x) as nat)
    }
}

/// `x` zero-padded on the left to width two, as the node command keys
/// want it.
pub open spec fn pad2_i64(x: int) -> Seq<char> {
    if 0 <= x < 10 {
        seq!['0'] + dec_str(x as nat)
    } else {
        dec_str_i64(x)
    }
}

/// Append one decimal digit character.
fn push_digit(s: &mut String, d: u64)
    requires
        d < 10,
    ensures
        final(s)@ == old(s)@ + seq![digit_char(d as int)],
{
    let lit = match d {
        0 => "0",
        1 => "1",
        2 => "2",
        3 => "3",
        4 => "4",
        5 => "5",
        6 => "6",
        7 => "7",
        8 => "8",
        _ => "9",
    };
    proof {
        reveal_strlit("0");
        reveal_strlit("1");
        reveal_strlit("2");
        reveal_strlit("3");
        reveal_strlit("4");
        reveal_strlit("5");
        reveal_strlit("6");
        reveal_strlit("7");
        reveal_strlit("8");
        reveal_strlit("9");
    }
    s.append(lit);
    proof {
        assert(s@ =~= old(s)@ + seq![digit_char(d as int)]);
    }
}

/// Append the decimal rendering of `x`.
pub fn push_u64_dec(s: &mut String, x: u64)
    ensures
        final(s)@ == old(s)@ + dec_str(x as nat),
    decreases x,
{
    if x < 10 {
        push_digit(s, x);
    } else {
        push_u64_dec(s, x / 10);
        push_digit(s, x % 10);
        proof {
            assert(s@ =~= old(s)@ + dec_str(x as nat));
        }
    }
}

/// The decimal rendering of `x`.
pub fn u64_to_dec(x: u64) -> (r: String)
    ensures
        r@ == dec_str(x as nat),
{
    let mut s = String::new();
    push_u64_dec(&mut s, x);
    proof {
        assert(s@ =~= dec_str(x as nat));
    }
    s
}

/// Append the decimal rendering of a signed value.
pub fn push_i64_dec(s: &mut String, x: i64)
    ensures
        final(s)@ == old(s)@ + dec_str_i64(x as int),
{
    if x >= 0 {
        push_u64_dec(s, x as u64);
    } else {
        proof {
            reveal_strlit("-");
        }
        s.append("-");
        let mag: u64 = ((-(x + 1)) as u64) + 1;
        proof {
            assert(mag == -(x as int));
        }
        push_u64_dec(s, mag);
        proof {
            assert(s@ =~= old(s)@ + dec_str_i64(x as int));
        }
    }
}

/// Append `x` zero-padded to width two.
pub fn push_i64_pad2(s: &mut String, x: i64)
    ensures
        final(s)@ == old(s)@ + pad2_i64(x as int),
{
    if 0 <= x && x < 10 {
        proof {
            reveal_strlit("0");
        }
        s.append("0");
        push_u64_dec(s, x as u64);
        proof {
            assert(s@ =~= old(s)@ + pad2_i64(x as int));
        }
    } else {
        push_i64_dec(s, x);
    }
}

/// What `str::to_lowercase` returns: a function of the characters
/// alone, the same in every process and on every machine.
pub uninterp spec fn lower_of(s: Seq<char>) -> Seq<char>;

/// What `str::to_uppercase` returns: a function of the characters
/// alone, the same in every process and on every machine.
pub uninterp spec fn upper_of(s: Seq<char>) -> Seq<char>;

/// What `str::trim` returns: the characters with leading and trailing
/// whitespace removed, a function of the characters alone.
pub uninterp spec fn trim_of(s: Seq<char>) -> Seq<char>;

/// Relies on String::push: appends the one character to the string.
#[verifier::external_body]
pub(crate) fn push_char(s: &mut String, c: char)
    ensures
        final(s)@ == old(s)@.push(c),
{
    s.push(c)
}

/// Relies on str::to_lowercase: Unicode-lowercases the characters;
/// the result depends on the input characters alone.
#[verifier::external_body]
pub(crate) fn to_lower(s: &str) -> (r: String)
    ensures
        r@ == lower_of(s@),
{
    s.to_lowercase()
}

/// Relies on str::to_uppercase: Unicode-uppercases the characters;
/// the result depends on the input characters alone.
#[verifier::external_body]
pub(crate) fn to_upper(s: &str) -> (r: String)
    ensures
        r@ == upper_of(s@),
{
    s.to_uppercase()
}

/// Relies on str::trim: strips leading and trailing whitespace; the
/// result depends on the input characters alone.
#[verifier::external_body]
pub(crate) fn trim(s: &str) -> (r: String)
    ensures
        r@ == trim_of(s@),
{
    s.trim().to_owned()
}

} // verus!
