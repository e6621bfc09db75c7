//! Rates as text, severity tiers and colours. Values are scaled in binary
//! units and rounded to the nearest tenth (ties to even) in exact integer
//! arithmetic, so the same rate always reads the same.

use crate::theme::{COLOR_ACTIVE, COLOR_DOWN_LINE, COLOR_PEAK, COLOR_TEXT_GRAY};
use vstd::prelude::*;

verus! {

/// One binary kilobyte.
pub const KB: u64 = 1024;

/// One binary megabyte.
pub const MB: u64 = 1048576;

/// One binary gigabyte.
pub const GB: u64 = 1073741824;

/// Rates below this many bytes per second are idle.
pub const IDLE_LIMIT: u64 = 100000;

/// Rates below this many bytes per second (and not idle) are a light load.
pub const LOAD_LIMIT: u64 = 5242880;

/// Rates below this many bytes per second (and not a load) are active;
/// anything at or above it is a peak.
pub const ACTIVE_LIMIT: u64 = 20971520;

/// The decimal digit `d` (0 to 9).
pub open spec fn digit_char(d: int) -> char {
    if d == 0 {
        '0'
    } else if d == 1 {
        '1'
    } else if d == 2 {
        '2'
    } else if d == 3 {
        '3'
    } else if d == 4 {
        '4'
    } else if d == 5 {
        '5'
    } else if d == 6 {
        '6'
    } else if d == 7 {
        '7'
    } else if d == 8 {
        '8'
    } else {
        '9'
    }
}

/// `n` written in decimal, without leading zeros.
pub open spec fn decimal(n: nat) -> Seq<char>
    decreases n,
{
    if n < 10 {
        seq![digit_char(n as int)]
    } else {
        decimal(n / 10) + seq![digit_char((n % 10) as int)]
    }
}

/// `num / den` rounded to the nearest integer, ties to the even one.
pub open spec fn round_half_even(num: nat, den: nat) -> nat {
    let q = num / den;
    let r = num % den;
    if 2 * r > den || (2 * r == den && q % 2 == 1) {
        q + 1
    } else {
        q
    }
}

/// `n / unit` in tenths, rounded to the nearest tenth, ties to even.
pub open spec fn tenths(n: nat, unit: nat) -> nat {
    round_half_even(10 * n, unit)
}

/// A count of tenths written with one decimal place.
pub open spec fn one_decimal(t: nat) -> Seq<char> {
    decimal(t / 10) + seq!['.', digit_char((t % 10) as int)]
}

/// The number that the full form of a rate shows.
pub open spec fn full_value(bps: nat) -> Seq<char> {
    if bps < KB {
        decimal(bps)
    } else if bps < MB {
        one_decimal(tenths(bps, KB as nat))
    } else if bps < GB {
        one_decimal(tenths(bps, MB as nat))
    } else {
        one_decimal(tenths(bps, GB as nat))
    }
}

/// The unit that the full form of a rate shows.
pub open spec fn full_unit(bps: nat) -> Seq<char> {
    if bps < KB {
        seq!['B', '/', 's']
    } else if bps < MB {
        seq!['K', 'B', '/', 's']
    } else if bps < GB {
        seq!['M', 'B', '/', 's']
    } else {
        seq!['G', 'B', '/', 's']
    }
}

/// The full form of a rate: number, a space, unit.
pub open spec fn full_text(bps: nat) -> Seq<char> {
    full_value(bps) + seq![' '] + full_unit(bps)
}

/// The number that the compact form of a rate shows: whole bytes or
/// kilobytes, megabytes and gigabytes to one decimal place.
pub open spec fn compact_value(bps: nat) -> Seq<char> {
    if bps < KB {
        decimal(bps)
    } else if bps < MB {
        decimal(round_half_even(bps, KB as nat))
    } else if bps < GB {
        one_decimal(tenths(bps, MB as nat))
    } else {
        one_decimal(tenths(bps, GB as nat))
    }
}

/// The unit that the compact form of a rate shows.
pub open spec fn compact_unit(bps: nat) -> Seq<char> {
    if bps < KB {
        seq!['B']
    } else if bps < MB {
        seq!['K', 'B']
    } else if bps < GB {
        seq!['M', 'B']
    } else {
        seq!['G', 'B']
    }
}

/// The shortest form of a rate: whole kilobytes below a megabyte, megabytes
/// to one decimal place below ten, whole megabytes above.
pub open spec fn short_text(bps: nat) -> Seq<char> {
    if bps < MB {
        decimal(round_half_even(bps, KB as nat)) + seq!['K']
    } else if bps < 10 * MB {
        one_decimal(tenths(bps, MB as nat)) + seq!['M']
    } else {
        decimal(round_half_even(bps, MB as nat)) + seq!['M']
    }
}

/// The tooltip that shows both rates in full.
pub open spec fn tooltip(down: nat, up: nat) -> Seq<char> {
    seq!['D', 'o', 'w', 'n', ':', ' '] + full_text(down) + seq![' ', '|', ' ', 'U', 'p', ':', ' ']
        + full_text(up)
}

/// The one-character string of the digit `d`.
fn digit_str(d: u128) -> (r: &'static str)
    requires
        d < 10,
    ensures
        r@ == seq![digit_char(d as int)],
{
    if d == 0 {
        proof {
            reveal_strlit("0");
        }
        "0"
    } else if d == 1 {
        proof {
            reveal_strlit("1");
        }
        "1"
    } else if d == 2 {
        proof {
            reveal_strlit("2");
        }
        "2"
    } else if d == 3 {
        proof {
            reveal_strlit("3");
        }
        "3"
    } else if d == 4 {
        proof {
            reveal_strlit("4");
        }
        "4"
    } else if d == 5 {
        proof {
            reveal_strlit("5");
        }
        "5"
    } else if d == 6 {
        proof {
            reveal_strlit("6");
        }
        "6"
    } else if d == 7 {
        proof {
            reveal_strlit("7");
        }
        "7"
    } else if d == 8 {
        proof {
            reveal_strlit("8");
        }
        "8"
    } else {
        proof {
            reveal_strlit("9");
        }
        "9"
    }
}

/// Appends `n` in decimal to `s`.
pub(crate) fn push_decimal(s: &mut String, n: u128)
    ensures
        final(s)@ == old(s)@ + decimal(n as nat),
    decreases n,
{
    if n >= 10 {
        push_decimal(s, n / 10);
    }
    s.append(digit_str(n % 10));
    assert(final(s)@ =~= old(s)@ + decimal(n as nat));
}

/// Appends the count of tenths `t` with one decimal place to `s`.
fn push_one_decimal(s: &mut String, t: u128)
    ensures
        final(s)@ == old(s)@ + one_decimal(t as nat),
{
    push_decimal(s, t / 10);
    proof {
        reveal_strlit(".");
    }
    s.append(".");
    s.append(digit_str(t % 10));
    assert(final(s)@ =~= old(s)@ + one_decimal(t as nat));
}

/// `num / den` rounded to the nearest integer, ties to the even one.
fn round_div(num: u128, den: u128) -> (r: u128)
    requires
        0 < den < 0x1_0000_0000_0000_0000_0000,
        num < 0x1_0000_0000_0000_0000_0000,
    ensures
        r == round_half_even(num as nat, den as nat),
{
    let q = num / den;
    let rem = num % den;
    assert(q <= num) by (nonlinear_arith)
        requires q == num / den, den > 0;
    if 2 * rem > den || (2 * rem == den && q % 2 == 1) {
        q + 1
    } else {
        q
    }
}

/// Appends `bps / unit` with one decimal place to `s`.
fn push_scaled(s: &mut String, bps: u64, unit: u64)
    requires
        unit > 0,
    ensures
        final(s)@ == old(s)@ + one_decimal(tenths(bps as nat, unit as nat)),
{
    let t = round_div(10 * (bps as u128), unit as u128);
    push_one_decimal(s, t);
}

/// Appends the number of the full form of `bps` to `s`.
fn push_full_value(s: &mut String, bps: u64)
    ensures
        final(s)@ == old(s)@ + full_value(bps as nat),
{
    if bps < KB {
        push_decimal(s, bps as u128);
    } else if bps < MB {
        push_scaled(s, bps, KB);
    } else if bps < GB {
        push_scaled(s, bps, MB);
    } else {
        push_scaled(s, bps, GB);
    }
}

/// The unit of the full form of `bps`.
fn full_unit_str(bps: u64) -> (r: &'static str)
    ensures
        r@ == full_unit(bps as nat),
{
    if bps < KB {
        proof {
            reveal_strlit("B/s");
        }
        "B/s"
    } else if bps < MB {
        proof {
            reveal_strlit("KB/s");
        }
        "KB/s"
    } else if bps < GB {
        proof {
            reveal_strlit("MB/s");
        }
        "MB/s"
    } else {
        proof {
            reveal_strlit("GB/s");
        }
        "GB/s"
    }
}

/// Appends the full form of `bps` to `s`.
fn push_full(s: &mut String, bps: u64)
    ensures
        final(s)@ == old(s)@ + full_text(bps as nat),
{
    push_full_value(s, bps);
    proof {
        reveal_strlit(" ");
    }
    s.append(" ");
    s.append(full_unit_str(bps));
    assert(final(s)@ =~= old(s)@ + full_text(bps as nat));
}

/// A rate with its binary unit: bytes below 1024, else kilobytes,
/// megabytes or gigabytes with one decimal place (`"1.5 KB/s"`).
pub fn format_speed_full(bps: u64) -> (r: String)
    ensures
        r@ == full_text(bps as nat),
{
    let mut s = String::new();
    push_full(&mut s, bps);
    assert(s@ =~= full_text(bps as nat));
    s
}

/// The number and the unit of the full form of a rate, apart.
pub fn get_speed_parts(bps: u64) -> (r: (String, String))
    ensures
        r.0@ == full_value(bps as nat),
        r.1@ == full_unit(bps as nat),
{
    let mut value = String::new();
    push_full_value(&mut value, bps);
    assert(value@ =~= full_value(bps as nat));
    (value, String::from_str(full_unit_str(bps)))
}

/// The number and the unit of the compact form of a rate, apart, for
/// surfaces that draw them in different sizes.
pub fn format_speed_compact(bps: u64) -> (r: (String, String))
    ensures
        r.0@ == compact_value(bps as nat),
        r.1@ == compact_unit(bps as nat),
{
    let mut value = String::new();
    let unit: &str;
    if bps < KB {
        push_decimal(&mut value, bps as u128);
        proof {
            reveal_strlit("B");
        }
        unit = "B";
    } else if bps < MB {
        let k = round_div(bps as u128, KB as u128);
        push_decimal(&mut value, k);
        proof {
            reveal_strlit("KB");
        }
        unit = "KB";
    } else if bps < GB {
        push_scaled(&mut value, bps, MB);
        proof {
            reveal_strlit("MB");
        }
        unit = "MB";
    } else {
        push_scaled(&mut value, bps, GB);
        proof {
            reveal_strlit("GB");
        }
        unit = "GB";
    }
    assert(value@ =~= compact_value(bps as nat));
    (value, String::from_str(unit))
}

/// The shortest form of a rate, with a one-letter unit (`"12K"`, `"3.4M"`,
/// `"57M"`).
pub fn format_speed(bps: u64) -> (r: String)
    ensures
        r@ == short_text(bps as nat),
{
    let mut s = String::new();
    if bps < MB {
        push_decimal(&mut s, round_div(bps as u128, KB as u128));
        proof {
            reveal_strlit("K");
        }
        s.append("K");
    } else {
        if bps < 10 * MB {
            push_scaled(&mut s, bps, MB);
        } else {
            push_decimal(&mut s, round_div(bps as u128, MB as u128));
        }
        proof {
            reveal_strlit("M");
        }
        s.append("M");
    }
    assert(s@ =~= short_text(bps as nat));
    s
}

/// The tooltip text, `"Down: <full> | Up: <full>"`.
pub fn tooltip_text(down: u64, up: u64) -> (r: String)
    ensures
        r@ == tooltip(down as nat, up as nat),
{
    proof {
        reveal_strlit("Down: ");
        reveal_strlit(" | Up: ");
    }
    let mut s = String::from_str("Down: ");
    push_full(&mut s, down);
    s.append(" | Up: ");
    push_full(&mut s, up);
    assert(s@ =~= tooltip(down as nat, up as nat));
    s
}

/// Severity tier of a rate, in increasing order.
#[derive(Clone, Copy, Debug, PartialEq, Eq, Structural)]
pub enum SpeedTier {
    Idle,
    Load,
    Active,
    Peak,
}

/// The tier that a rate of `bps` bytes per second falls in.
pub open spec fn tier_of(bps: int) -> SpeedTier {
    if bps < IDLE_LIMIT {
        SpeedTier::Idle
    } else if bps < LOAD_LIMIT {
        SpeedTier::Load
    } else if bps < ACTIVE_LIMIT {
        SpeedTier::Active
    } else {
        SpeedTier::Peak
    }
}

/// Severity tier of a rate: each lower bound belongs to the tier above it.
pub fn classify(bps: u64) -> (r: SpeedTier)
    ensures
        r == tier_of(bps as int),
{
    if bps < IDLE_LIMIT {
        SpeedTier::Idle
    } else if bps < LOAD_LIMIT {
        SpeedTier::Load
    } else if bps < ACTIVE_LIMIT {
        SpeedTier::Active
    } else {
        SpeedTier::Peak
    }
}

/// The colour that a tier is drawn in.
pub open spec fn color_of(tier: SpeedTier) -> u32 {
    match tier {
        SpeedTier::Idle => COLOR_TEXT_GRAY,
        SpeedTier::Load => COLOR_DOWN_LINE,
        SpeedTier::Active => COLOR_ACTIVE,
        SpeedTier::Peak => COLOR_PEAK,
    }
}

/// Each tier has a colour of its own.
pub proof fn lemma_tier_colors_distinct(a: SpeedTier, b: SpeedTier)
    requires
        a != b,
    ensures
        color_of(a) != color_of(b),
{
}

/// The colour a tier is drawn in.
pub fn tier_color(tier: SpeedTier) -> (r: u32)
    ensures
        r == color_of(tier),
{
    match tier {
        SpeedTier::Idle => COLOR_TEXT_GRAY,
        SpeedTier::Load => COLOR_DOWN_LINE,
        SpeedTier::Active => COLOR_ACTIVE,
        SpeedTier::Peak => COLOR_PEAK,
    }
}

/// The colour (0x00BBGGRR) that a rate is drawn in: that of its tier.
pub fn get_speed_color(bps: u64) -> (r: u32)
    ensures
        r == color_of(tier_of(bps as int)),
{
    tier_color(classify(bps))
}

} // verus!
