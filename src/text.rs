use vstd::prelude::*;
use vstd::string::*;

verus! {

/// The character of a decimal digit.
pub open spec fn digit_char(d: int) -> char {
    if d == 0 { '0' }
    else if d == 1 { '1' }
    else if d == 2 { '2' }
    else if d == 3 { '3' }
    else if d == 4 { '4' }
    else if d == 5 { '5' }
    else if d == 6 { '6' }
    else if d == 7 { '7' }
    else if d == 8 { '8' }
    else { '9' }
}

/// The decimal digits of `n`, most significant first, without leading zeros.
pub open spec fn decimal(n: nat) -> Seq<char>
    decreases n,
{
    if n < 10 {
        seq![digit_char(n as int)]
    } else {
        decimal(n / 10).push(digit_char((n % 10) as int))
    }
}

fn digit_str(d: u128) -> (r: &'static str)
    requires
        d < 10,
    ensures
        r@ == seq![digit_char(d as int)],
{
    proof {
        reveal_strlit("0");
        reveal_strlit("1");
        reveal_strlit("2");
        reveal_strlit("3");
        reveal_strlit("4");
        reveal_strlit("5");
        reveal_strlit("6");
        reveal_strlit("7");
        reveal_strlit("8");
        reveal_strlit("9");
    }
    if d == 0 { "0" }
    else if d == 1 { "1" }
    else if d == 2 { "2" }
    else if d == 3 { "3" }
    else if d == 4 { "4" }
    else if d == 5 { "5" }
    else if d == 6 { "6" }
    else if d == 7 { "7" }
    else if d == 8 { "8" }
    else { "9" }
}

/// Writes `n` in decimal.
pub fn decimal_text(n: u128) -> (r: String)
    ensures
        r@ == decimal(n as nat),
    decreases n,
{
    if n < 10 {
        String::from_str(digit_str(n))
    } else {
        let mut s = decimal_text(n / 10);
        s.append(digit_str(n % 10));
        proof {
            assert(s@ =~= decimal(n as nat));
        }
        s
    }
}

/// A signed count of tenths as a decimal with one fractional digit:
/// `-15` is `-1.5`.
pub open spec fn tenths(t: int) -> Seq<char> {
    let m = if t < 0 { -t } else { t };
    let body = decimal((m / 10) as nat) + seq!['.'] + seq![digit_char(m % 10)];
    if t < 0 {
        seq!['-'] + body
    } else {
        body
    }
}

/// Writes a signed count of tenths as a decimal with one fractional digit.
pub fn tenths_text(t: i128) -> (r: String)
    requires
        t > i128::MIN,
    ensures
        r@ == tenths(t as int),
{
    let m: u128 = if t < 0 { (-t) as u128 } else { t as u128 };
    let mut body = decimal_text(m / 10);
    proof {
        reveal_strlit(".");
        reveal_strlit("-");
    }
    body.append(".");
    body.append(digit_str(m % 10));
    if t < 0 {
        let s = String::from_str("-").concat(body.as_str());
        proof {
            assert(s@ =~= tenths(t as int));
        }
        s
    } else {
        proof {
            assert(body@ =~= tenths(t as int));
        }
        body
    }
}

} // verus!
