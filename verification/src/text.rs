//! Verified text rendering: decimal numbers, the clock-frequency label and
//! the per-brand CPU description lines of the host descriptor.

use vstd::prelude::*;

verus! {

/// The decimal digit character for a value below ten.
pub open spec fn dec_digit(d: nat) -> char
    recommends
        d < 10,
{
    if d == 0 {
        '0'
    } else if d == 1 {
        '1'
    } else if d == 2 {
        '2'
    } else if d == 3 {
        '3'
    } else if d == 4 {
        '4'
    } else if d == 5 {
        '5'
    } else if d == 6 {
        '6'
    } else if d == 7 {
        '7'
    } else if d == 8 {
        '8'
    } else {
        '9'
    }
}

/// The usual decimal rendering of a natural number, without leading zeroes
/// (a single zero for the value zero).
pub open spec fn dec_str(n: nat) -> Seq<char>
    decreases n,
{
    if n < 10 {
        seq![dec_digit(n)]
    } else {
        dec_str(n / 10).push(dec_digit(n % 10))
    }
}

/// Decimal rendering padded on the left with a zero to at least two digits.
pub open spec fn dec_str_pad2(n: nat) -> Seq<char> {
    if n < 10 {
        seq!['0', dec_digit(n)]
    } else {
        dec_str(n)
    }
}

fn digit_str(d: u64) -> (r: &'static str)
    requires
        d < 10,
    ensures
        r@ =~= seq![dec_digit(d as nat)],
{
    proof {
        reveal_strlit("0");
        reveal_strlit("1");
        reveal_strlit("2");
        reveal_strlit("3");
        reveal_strlit("4");
        reveal_strlit("5");
        reveal_strlit("6");
        reveal_strlit("7");
        reveal_strlit("8");
        reveal_strlit("9");
    }
    if d == 0 {
        "0"
    } else if d == 1 {
        "1"
    } else if d == 2 {
        "2"
    } else if d == 3 {
        "3"
    } else if d == 4 {
        "4"
    } else if d == 5 {
        "5"
    } else if d == 6 {
        "6"
    } else if d == 7 {
        "7"
    } else if d == 8 {
        "8"
    } else {
        "9"
    }
}

/// Render a number in decimal.
pub fn u64_to_dec(n: u64) -> (r: String)
    ensures
        r@ == dec_str(n as nat),
    decreases n,
{
    if n < 10 {
        let r = digit_str(n).to_owned();
        proof {
            assert(r@ =~= dec_str(n as nat));
        }
        r
    } else {
        let mut s = u64_to_dec(n / 10);
        s.append(digit_str(n % 10));
        proof {
            assert(s@ =~= dec_str(n as nat));
        }
        s
    }
}

/// Render a number in decimal, zero-padded to at least two digits.
pub fn u64_to_dec_pad2(n: u64) -> (r: String)
    ensures
        r@ == dec_str_pad2(n as nat),
{
    if n < 10 {
        let mut s = String::from_str("0");
        s.append(digit_str(n));
        proof {
            reveal_strlit("0");
            assert(s@ =~= dec_str_pad2(n as nat));
        }
        s
    } else {
        u64_to_dec(n)
    }
}

/// The reported clock frequency in units of a hundredth of a gigahertz,
/// rounded to the nearest hundredth (half away from zero).
pub open spec fn ghz_hundredths(f: u64) -> nat {
    ((f + 5_000_000_000) / 10_000_000_000) as nat
}

/// The frequency label of a CPU description: the maximum frequency rendered
/// in gigahertz with two decimals, or a fixed placeholder when the reading
/// is unavailable.
pub open spec fn frequency_label(freq_max: Option<u64>) -> Seq<char> {
    match freq_max {
        Option::None => "0.0GHz"@,
        Option::Some(f) => dec_str(ghz_hundredths(f) / 100) + "."@ + dec_str_pad2(
            ghz_hundredths(f) % 100,
        ) + "GHz"@,
    }
}

/// Render the frequency label.
pub fn frequency_string(freq_max: Option<u64>) -> (r: String)
    ensures
        r@ == frequency_label(freq_max),
{
    match freq_max {
        Option::None => String::from_str("0.0GHz"),
        Option::Some(f) => {
            let hundredths_wide: u128 = (f as u128 + 5_000_000_000) / 10_000_000_000;
            assert(hundredths_wide < 0x1_0000_0000_0000_0000);
            let hundredths: u64 = hundredths_wide as u64;
            assert(hundredths as nat == ghz_hundredths(f));
            let mut s = u64_to_dec(hundredths / 100);
            s.append(".");
            let frac = u64_to_dec_pad2(hundredths % 100);
            s.append(frac.as_str());
            s.append("GHz");
            proof {
                assert(s@ =~= frequency_label(Option::Some(f)));
            }
            s
        },
    }
}

/// One line of the descriptor's CPU list: brand, frequency label and core
/// count, marked as virtual or physical cores.
pub open spec fn cpu_description(
    brand: Seq<char>,
    freq: Seq<char>,
    count: nat,
    virtualized: bool,
) -> Seq<char> {
    brand + " @ "@ + freq + " "@ + dec_str(count) + (if virtualized {
        " Virtual Core"@
    } else {
        " Physical Core"@
    })
}

/// Render one CPU description line.
pub fn cpu_description_string(brand: &str, freq: &str, count: u64, virtualized: bool) -> (r:
    String)
    ensures
        r@ == cpu_description(brand@, freq@, count as nat, virtualized),
{
    let mut s = brand.to_owned();
    s.append(" @ ");
    s.append(freq);
    s.append(" ");
    let count_str = u64_to_dec(count);
    s.append(count_str.as_str());
    if virtualized {
        s.append(" Virtual Core");
    } else {
        s.append(" Physical Core");
    }
    proof {
        assert(s@ =~= cpu_description(brand@, freq@, count as nat, virtualized));
    }
    s
}

} // verus!
