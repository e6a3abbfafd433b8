use vstd::prelude::*;
use vstd::string::StringExecFns;

verus! {

/// The decimal digit `d` as text.
pub open spec fn digit_text(d: int) -> Seq<char> {
    if d == 0 {
        "0"@
    } else if d == 1 {
        "1"@
    } else if d == 2 {
        "2"@
    } else if d == 3 {
        "3"@
    } else if d == 4 {
        "4"@
    } else if d == 5 {
        "5"@
    } else if d == 6 {
        "6"@
    } else if d == 7 {
        "7"@
    } else if d == 8 {
        "8"@
    } else {
        "9"@
    }
}

/// `n` in decimal, without leading zeros.
pub open spec fn decimal_text(n: nat) -> Seq<char>
    decreases n,
{
    if n < 10 {
        digit_text(n as int)
    } else {
        decimal_text(n / 10) + digit_text((n % 10) as int)
    }
}

/// A count of hundredths written as a decimal number with two places, as in
/// `-12.05` or `100.00`.
pub open spec fn hundredths_text(v: int) -> Seq<char> {
    let m: nat = if v < 0 { (-v) as nat } else { v as nat };
    let sign = if v < 0 { "-"@ } else { Seq::empty() };
    sign + decimal_text(m / 100) + "."@ + digit_text((m % 100 / 10) as int) + digit_text(
        (m % 10) as int,
    )
}

fn digit(d: u64) -> (r: &'static str)
    requires
        d < 10,
    ensures
        r@ == digit_text(d as int),
{
    if d == 0 {
        "0"
    } else if d == 1 {
        "1"
    } else if d == 2 {
        "2"
    } else if d == 3 {
        "3"
    } else if d == 4 {
        "4"
    } else if d == 5 {
        "5"
    } else if d == 6 {
        "6"
    } else if d == 7 {
        "7"
    } else if d == 8 {
        "8"
    } else {
        "9"
    }
}

/// Appends `n` in decimal.
pub fn push_decimal(s: &mut String, n: u64)
    ensures
        final(s)@ == old(s)@ + decimal_text(n as nat),
    decreases n,
{
    if n >= 10 {
        push_decimal(s, n / 10);
        s.append(digit(n % 10));
        proof {
            assert(final(s)@ =~= old(s)@ + decimal_text(n as nat));
        }
    } else {
        s.append(digit(n));
    }
}

/// Appends a count of hundredths as a decimal number with two places.
pub fn push_hundredths(s: &mut String, v: i64)
    ensures
        final(s)@ == old(s)@ + hundredths_text(v as int),
{
    let m: u64 = if v < 0 { (-(v as i128)) as u64 } else { v as u64 };
    if v < 0 {
        s.append("-");
    }
    push_decimal(s, m / 100);
    s.append(".");
    s.append(digit(m % 100 / 10));
    s.append(digit(m % 10));
    proof {
        assert(final(s)@ =~= old(s)@ + hundredths_text(v as int));
    }
}

} // verus!
