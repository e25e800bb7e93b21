//! The text of the numbers that a sheet shows.
use vstd::prelude::*;
use vstd::string::StringExecFns;
use crate::rates::WinrateType;

verus! {

/// The character of a decimal digit.
pub open spec fn digit_char(d: int) -> char
    recommends
        0 <= d <= 9,
{
    if d == 0 {
        '0'
    } else if d == 1 {
        '1'
    } else if d == 2 {
        '2'
    } else if d == 3 {
        '3'
    } else if d == 4 {
        '4'
    } else if d == 5 {
        '5'
    } else if d == 6 {
        '6'
    } else if d == 7 {
        '7'
    } else if d == 8 {
        '8'
    } else {
        '9'
    }
}

/// The decimal digits of a natural number, without leading zeros.
pub open spec fn decimal_nat(n: nat) -> Seq<char>
    decreases n,
{
    if n < 10 {
        seq![digit_char(n as int)]
    } else {
        decimal_nat(n / 10).push(digit_char((n % 10) as int))
    }
}

/// The decimal text of an integer: a minus sign before a negative one.
pub open spec fn decimal_int(n: int) -> Seq<char> {
    if n < 0 {
        seq!['-'] + decimal_nat((-n) as nat)
    } else {
        decimal_nat(n as nat)
    }
}

/// The last `places` decimal digits of a natural number, with leading
/// zeros.
pub open spec fn padded(n: nat, places: nat) -> Seq<char>
    decreases places,
{
    if places == 0 {
        Seq::empty()
    } else {
        padded(n / 10, (places - 1) as nat).push(digit_char((n % 10) as int))
    }
}

/// Ten to the power `places`.
pub open spec fn pow10(places: nat) -> nat
    decreases places,
{
    if places == 0 {
        1
    } else {
        10 * pow10((places - 1) as nat)
    }
}

/// The text of a number given in units of `10^-places`: sign, whole part,
/// a point, and `places` digits.
pub open spec fn fixed_point(scaled: int, places: nat) -> Seq<char> {
    let magnitude = if scaled < 0 {
        (-scaled) as nat
    } else {
        scaled as nat
    };
    let sign = if scaled < 0 {
        seq!['-']
    } else {
        Seq::<char>::empty()
    };
    sign + decimal_nat(magnitude / pow10(places)) + seq!['.'] + padded(
        magnitude % pow10(places),
        places,
    )
}

/// The decimal text of `n`, as `u128::to_string` of std writes it: the
/// digits, most significant first, without leading zeros.
#[verifier::external_body]
fn nat_to_string(n: u128) -> (s: String)
    ensures
        s@ == decimal_nat(n as nat),
{
    n.to_string()
}

/// The magnitude of an integer.
pub fn magnitude_of(n: i128) -> (m: u128)
    ensures
        m == if n < 0 {
            -(n as int)
        } else {
            n as int
        },
{
    if n >= 0 {
        n as u128
    } else if n == i128::MIN {
        0x8000_0000_0000_0000_0000_0000_0000_0000
    } else {
        (-n) as u128
    }
}

/// The decimal text of an integer.
pub fn decimal_text(n: i128) -> (s: String)
    ensures
        s@ == decimal_int(n as int),
{
    let digits = nat_to_string(magnitude_of(n));
    if n < 0 {
        proof {
            reveal_strlit("-");
        }
        let mut out = String::from_str("-");
        out.append(digits.as_str());
        assert(out@ =~= decimal_int(n as int));
        out
    } else {
        digits
    }
}

/// The text of one decimal digit.
fn digit_text(d: u64) -> (s: &'static str)
    requires
        d <= 9,
    ensures
        s@ == seq![digit_char(d as int)],
{
    proof {
        reveal_strlit("0");
        reveal_strlit("1");
        reveal_strlit("2");
        reveal_strlit("3");
        reveal_strlit("4");
        reveal_strlit("5");
        reveal_strlit("6");
        reveal_strlit("7");
        reveal_strlit("8");
        reveal_strlit("9");
    }
    let s = if d == 0 {
        "0"
    } else if d == 1 {
        "1"
    } else if d == 2 {
        "2"
    } else if d == 3 {
        "3"
    } else if d == 4 {
        "4"
    } else if d == 5 {
        "5"
    } else if d == 6 {
        "6"
    } else if d == 7 {
        "7"
    } else if d == 8 {
        "8"
    } else {
        "9"
    };
    assert(s@ =~= seq![digit_char(d as int)]);
    s
}

/// Appends the last `places` digits of `n` to `out`.
fn append_padded(out: &mut String, n: u64, places: u8)
    ensures
        final(out)@ == old(out)@ + padded(n as nat, places as nat),
    decreases places,
{
    if places > 0 {
        append_padded(out, n / 10, places - 1);
        out.append(digit_text(n % 10));
        assert(out@ =~= old(out)@ + padded(n as nat, places as nat));
    } else {
        assert(out@ =~= old(out)@ + padded(n as nat, places as nat));
    }
}

/// The text of a number given in thousandths, such as `-12.345` for
/// -12345.
pub fn thousandths_text(scaled: i128) -> (s: String)
    ensures
        s@ == fixed_point(scaled as int, 3),
{
    let magnitude: u128 = magnitude_of(scaled);
    let mut out = if scaled < 0 {
        String::from_str("-")
    } else {
        String::new()
    };
    proof {
        reveal_with_fuel(pow10, 4);
        reveal_strlit("-");
        reveal_strlit(".");
        assert(out@ =~= if scaled < 0 {
            seq!['-']
        } else {
            Seq::<char>::empty()
        });
    }
    let whole_text = nat_to_string(magnitude / 1_000);
    out.append(whole_text.as_str());
    out.append(".");
    append_padded(&mut out, (magnitude % 1_000) as u64, 3);
    assert(out@ =~= fixed_point(scaled as int, 3));
    out
}

/// The text of a share given in thousandths of a percent, such as
/// `50.000%`.
pub fn percent_text(thousandths: u32) -> (s: String)
    ensures
        s@ == fixed_point(thousandths as int, 3) + seq!['%'],
{
    let mut out = thousandths_text(thousandths as i128);
    proof {
        reveal_strlit("%");
    }
    out.append("%");
    assert(out@ =~= fixed_point(thousandths as int, 3) + seq!['%']);
    out
}

/// The text of a winrate: the share with three places and a percent
/// sign, or `none` where there were no games.
pub open spec fn winrate_label(rate: WinrateType, none: Seq<char>) -> Seq<char> {
    match rate {
        WinrateType::Normal(share) => fixed_point(share as int, 3) + seq!['%'],
        WinrateType::NoGames => none,
    }
}

/// The text of a winrate: the share with three places and a percent
/// sign, or `none` where there were no games.
pub fn winrate_text(rate: WinrateType, none: &str) -> (s: String)
    ensures
        s@ == winrate_label(rate, none@),
{
    match rate {
        WinrateType::Normal(share) => percent_text(share),
        WinrateType::NoGames => String::from_str(none),
    }
}

} // verus!
