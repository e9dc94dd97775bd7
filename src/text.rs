//! Small pieces of text: decimal numerals and shortened bodies.
use vstd::prelude::*;

verus! {

pub open spec fn digit_char(d: nat) -> char {
    if d == 0 { '0' }
    else if d == 1 { '1' }
    else if d == 2 { '2' }
    else if d == 3 { '3' }
    else if d == 4 { '4' }
    else if d == 5 { '5' }
    else if d == 6 { '6' }
    else if d == 7 { '7' }
    else if d == 8 { '8' }
    else { '9' }
}

/// The decimal numeral of `n`, without sign or leading zeros.
pub open spec fn decimal_spec(n: nat) -> Seq<char>
    decreases n,
{
    if n < 10 {
        seq![digit_char(n)]
    } else {
        decimal_spec(n / 10).push(digit_char(n % 10))
    }
}

fn digit_str(d: u64) -> (r: &'static str)
    requires
        d < 10,
    ensures
        r@ == seq![digit_char(d as nat)],
{
    proof {
        reveal_strlit("0");
        reveal_strlit("1");
        reveal_strlit("2");
        reveal_strlit("3");
        reveal_strlit("4");
        reveal_strlit("5");
        reveal_strlit("6");
        reveal_strlit("7");
        reveal_strlit("8");
        reveal_strlit("9");
    }
    match d {
        0 => "0",
        1 => "1",
        2 => "2",
        3 => "3",
        4 => "4",
        5 => "5",
        6 => "6",
        7 => "7",
        8 => "8",
        _ => "9",
    }
}

/// Writes `n` in decimal.
pub fn decimal(n: u64) -> (r: String)
    ensures
        r@ == decimal_spec(n as nat),
    decreases n,
{
    if n < 10 {
        String::from_str(digit_str(n))
    } else {
        let mut s = decimal(n / 10);
        s.append(digit_str(n % 10));
        s
    }
}

/// How many characters of an error body are kept.
pub const BODY_LIMIT: usize = 200;

pub open spec fn ellipsis() -> Seq<char> {
    seq!['.', '.', '.']
}

/// A body cut to its first 200 characters, with `...` after it where
/// something was cut.
pub open spec fn truncated_spec(s: Seq<char>) -> Seq<char> {
    if s.len() > BODY_LIMIT {
        s.subrange(0, BODY_LIMIT as int) + ellipsis()
    } else {
        s
    }
}

/// Keeps the first 200 characters of `s`, and marks the cut with `...`.
pub fn truncate_body(s: &str) -> (r: String)
    ensures
        r@ == truncated_spec(s@),
{
    if s.unicode_len() > BODY_LIMIT {
        let mut r = String::from_str(s.substring_char(0, BODY_LIMIT));
        proof {
            reveal_strlit("...");
        }
        r.append("...");
        r
    } else {
        String::from_str(s)
    }
}

} // verus!
