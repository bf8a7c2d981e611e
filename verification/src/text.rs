//! Decimal and hexadecimal text for numbers, and plain string helpers.
use vstd::prelude::*;

verus! {

/// The character of decimal digit `d`.
pub open spec fn digit_char(d: nat) -> char {
    (48 + d) as char
}

/// Decimal digits of `n` without leading zeros.
pub open spec fn nat_to_decimal(n: nat) -> Seq<char>
    decreases n,
{
    if n < 10 {
        seq![digit_char(n)]
    } else {
        nat_to_decimal(n / 10).push(digit_char(n % 10))
    }
}

/// Decimal text of `i`, with a leading '-' when it is negative.
pub open spec fn int_to_decimal(i: int) -> Seq<char> {
    if i < 0 {
        seq!['-'] + nat_to_decimal((-i) as nat)
    } else {
        nat_to_decimal(i as nat)
    }
}

fn digit_str(d: u64) -> (r: &'static str)
    requires
        d < 10,
    ensures
        r@ == seq![digit_char(d as nat)],
{
    if d == 0 {
        proof { reveal_strlit("0"); }
        "0"
    } else if d == 1 {
        proof { reveal_strlit("1"); }
        "1"
    } else if d == 2 {
        proof { reveal_strlit("2"); }
        "2"
    } else if d == 3 {
        proof { reveal_strlit("3"); }
        "3"
    } else if d == 4 {
        proof { reveal_strlit("4"); }
        "4"
    } else if d == 5 {
        proof { reveal_strlit("5"); }
        "5"
    } else if d == 6 {
        proof { reveal_strlit("6"); }
        "6"
    } else if d == 7 {
        proof { reveal_strlit("7"); }
        "7"
    } else if d == 8 {
        proof { reveal_strlit("8"); }
        "8"
    } else {
        proof { reveal_strlit("9"); }
        "9"
    }
}

/// Appends the decimal digits of `n`.
pub fn append_decimal(s: &mut String, n: u64)
    ensures
        final(s)@ == old(s)@ + nat_to_decimal(n as nat),
    decreases n,
{
    if n >= 10 {
        append_decimal(s, n / 10);
    }
    s.append(digit_str(n % 10));
    assert(s@ =~= old(s)@ + nat_to_decimal(n as nat));
}

/// Appends the decimal text of `v`.
pub fn append_i64_decimal(s: &mut String, v: i64)
    ensures
        final(s)@ == old(s)@ + int_to_decimal(v as int),
{
    if v < 0 {
        s.append("-");
        proof {
            reveal_strlit("-");
        }
        let magnitude = (-(v as i128)) as u64;
        append_decimal(s, magnitude);
        assert(s@ =~= old(s)@ + int_to_decimal(v as int));
    } else {
        append_decimal(s, v as u64);
    }
}

/// Decimal text of `v`.
pub fn i64_to_string(v: i64) -> (r: String)
    ensures
        r@ == int_to_decimal(v as int),
{
    let mut s = String::new();
    append_i64_decimal(&mut s, v);
    assert(s@ =~= int_to_decimal(v as int));
    s
}

/// `text` as an owned string.
pub fn text(value: &str) -> (r: String)
    ensures
        r@ == value@,
{
    String::from_str(value)
}

/// `a` followed by `b`.
pub fn concat(a: &str, b: &str) -> (r: String)
    ensures
        r@ == a@ + b@,
{
    let mut s = String::from_str(a);
    s.append(b);
    s
}

/// `prefix` followed by the decimal text of `v`.
pub fn text_with_number(prefix: &str, v: i64) -> (r: String)
    ensures
        r@ == prefix@ + int_to_decimal(v as int),
{
    let mut s = String::from_str(prefix);
    append_i64_decimal(&mut s, v);
    s
}

} // verus!
