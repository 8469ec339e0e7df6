//! Unsigned integers written in base ten, as the attributes of a response
//! and the payload of a price answer carry them.

use vstd::prelude::*;

verus! {

/// The character of one decimal digit.
pub open spec fn digit_char(d: nat) -> char
    recommends
        d < 10,
{
    if d == 0 {
        '0'
    } else if d == 1 {
        '1'
    } else if d == 2 {
        '2'
    } else if d == 3 {
        '3'
    } else if d == 4 {
        '4'
    } else if d == 5 {
        '5'
    } else if d == 6 {
        '6'
    } else if d == 7 {
        '7'
    } else if d == 8 {
        '8'
    } else {
        '9'
    }
}

/// The decimal digits of `n`, most significant first, without leading
/// zeros; zero is the single digit `0`.
pub open spec fn decimal_digits(n: nat) -> Seq<char>
    decreases n,
{
    if n < 10 {
        seq![digit_char(n)]
    } else {
        decimal_digits(n / 10).push(digit_char(n % 10))
    }
}

/// The decimal digits of `n` as ASCII bytes.
pub open spec fn decimal_bytes(n: nat) -> Seq<u8> {
    decimal_digits(n).map_values(|c: char| c as u8)
}

/// The digits that stand before the last ones once `rest` is what is left
/// to write: none when nothing is left.
spec fn leading_digits(rest: nat) -> Seq<char> {
    if rest == 0 {
        Seq::empty()
    } else {
        decimal_digits(rest)
    }
}

proof fn lemma_leading_digits(n: nat)
    ensures
        decimal_digits(n) == leading_digits(n / 10).push(digit_char(n % 10)),
{
}

fn digit_str(d: u128) -> (s: &'static str)
    requires
        d < 10,
    ensures
        s@ == seq![digit_char(d as nat)],
{
    proof {
        reveal_strlit("0");
        reveal_strlit("1");
        reveal_strlit("2");
        reveal_strlit("3");
        reveal_strlit("4");
        reveal_strlit("5");
        reveal_strlit("6");
        reveal_strlit("7");
        reveal_strlit("8");
        reveal_strlit("9");
    }
    if d == 0 {
        "0"
    } else if d == 1 {
        "1"
    } else if d == 2 {
        "2"
    } else if d == 3 {
        "3"
    } else if d == 4 {
        "4"
    } else if d == 5 {
        "5"
    } else if d == 6 {
        "6"
    } else if d == 7 {
        "7"
    } else if d == 8 {
        "8"
    } else {
        "9"
    }
}

/// Writes `n` in base ten.
pub fn u128_to_string(n: u128) -> (res: String)
    ensures
        res@ == decimal_digits(n as nat),
{
    let mut res = String::from_str(digit_str(n % 10));
    let mut rest: u128 = n / 10;
    proof {
        lemma_leading_digits(n as nat);
    }
    while rest > 0
        invariant
            decimal_digits(n as nat) == leading_digits(rest as nat) + res@,
        decreases rest,
    {
        let ghost rest_before: u128 = rest;
        res = String::from_str(digit_str(rest % 10)).concat(res.as_str());
        rest = rest / 10;
        proof {
            lemma_leading_digits(rest_before as nat);
        }
    }
    res
}

} // verus!
