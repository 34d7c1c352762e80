//! Decimal rendering of the numeric facts: plain counters, uptime
//! (hours/minutes/seconds) and byte counts shown as gigabytes with two
//! fractional digits.

use vstd::prelude::*;

verus! {

/// The decimal digit character for a single-digit value.
pub open spec fn digit_char(d: nat) -> char {
    if d == 0 {
        '0'
    } else if d == 1 {
        '1'
    } else if d == 2 {
        '2'
    } else if d == 3 {
        '3'
    } else if d == 4 {
        '4'
    } else if d == 5 {
        '5'
    } else if d == 6 {
        '6'
    } else if d == 7 {
        '7'
    } else if d == 8 {
        '8'
    } else {
        '9'
    }
}

/// The usual decimal rendering of a natural number, most significant digit
/// first, with no leading zeros (`0` itself is rendered as "0").
pub open spec fn dec_digits(n: nat) -> Seq<char>
    decreases n,
{
    if n < 10 {
        seq![digit_char(n)]
    } else {
        dec_digits(n / 10).push(digit_char(n % 10))
    }
}

/// The single-character string for one decimal digit.
fn digit_str(d: u64) -> (r: &'static str)
    requires
        d < 10,
    ensures
        r@ == seq![digit_char(d as nat)],
{
    let r: &'static str = if d == 0 {
        "0"
    } else if d == 1 {
        "1"
    } else if d == 2 {
        "2"
    } else if d == 3 {
        "3"
    } else if d == 4 {
        "4"
    } else if d == 5 {
        "5"
    } else if d == 6 {
        "6"
    } else if d == 7 {
        "7"
    } else if d == 8 {
        "8"
    } else {
        "9"
    };
    proof {
        reveal_strlit("0");
        reveal_strlit("1");
        reveal_strlit("2");
        reveal_strlit("3");
        reveal_strlit("4");
        reveal_strlit("5");
        reveal_strlit("6");
        reveal_strlit("7");
        reveal_strlit("8");
        reveal_strlit("9");
        assert(r@ =~= seq![digit_char(d as nat)]);
    }
    r
}

/// Renders `n` in decimal.
pub fn u64_to_string(n: u64) -> (r: String)
    ensures
        r@ == dec_digits(n as nat),
    decreases n,
{
    if n < 10 {
        String::from_str(digit_str(n))
    } else {
        let mut r = u64_to_string(n / 10);
        r.append(digit_str(n % 10));
        proof {
            assert(r@ =~= dec_digits(n as nat));
        }
        r
    }
}

/// The uptime display string:
/// "<s/3600> hours, <(s%3600)/60> minutes, <s%60> seconds".
pub open spec fn uptime_string(s: nat) -> Seq<char> {
    dec_digits(s / 3600) + " hours, "@ + dec_digits((s % 3600) / 60) + " minutes, "@ + dec_digits(
        s % 60,
    ) + " seconds"@
}

/// Breaks a second count into hours, minutes and seconds (integer
/// arithmetic, no rounding) and renders it.
pub fn format_uptime(seconds: u64) -> (r: String)
    ensures
        r@ == uptime_string(seconds as nat),
{
    let mut r = u64_to_string(seconds / 3600);
    r.append(" hours, ");
    let m = u64_to_string((seconds % 3600) / 60);
    r.append(m.as_str());
    r.append(" minutes, ");
    let s = u64_to_string(seconds % 60);
    r.append(s.as_str());
    r.append(" seconds");
    proof {
        assert(r@ =~= uptime_string(seconds as nat));
    }
    r
}

/// The number of hundredths of a gigabyte in `b` bytes: `b * 100 / 2^30`
/// rounded to the nearest integer, ties to even.
pub open spec fn gb_hundredths(b: nat) -> nat {
    let num = b * 100;
    let q = num / 1073741824;
    let r = num % 1073741824;
    if r > 536870912 || (r == 536870912 && q % 2 == 1) {
        q + 1
    } else {
        q
    }
}

/// The gigabyte display string for a byte count: the whole gigabytes, a
/// dot, exactly two fractional digits, and the suffix " GB".
pub open spec fn gb_string(b: nat) -> Seq<char> {
    let h = gb_hundredths(b);
    dec_digits(h / 100) + "."@ + seq![digit_char((h / 10) % 10), digit_char(h % 10)] + " GB"@
}

/// Converts a byte count to gigabytes (division by 1024 three times over)
/// and renders it with exactly two digits after the decimal point.
pub fn format_gb(bytes: u64) -> (r: String)
    ensures
        r@ == gb_string(bytes as nat),
{
    let num: u128 = (bytes as u128) * 100;
    let q: u128 = num / 1073741824;
    let rem: u128 = num % 1073741824;
    let h128: u128 = if rem > 536870912 || (rem == 536870912 && q % 2 == 1) {
        q + 1
    } else {
        q
    };
    proof {
        vstd::arithmetic::div_mod::lemma_div_is_ordered(
            num as int,
            1844674407370955161500int,
            1073741824int,
        );
        assert(h128 < 0x10000000000000000);
    }
    let h: u64 = h128 as u64;
    let mut r = u64_to_string(h / 100);
    r.append(".");
    r.append(digit_str((h / 10) % 10));
    r.append(digit_str(h % 10));
    r.append(" GB");
    proof {
        assert(r@ =~= gb_string(bytes as nat));
    }
    r
}

} // verus!
