//! How amounts of data and lengths of time are shown.
use crate::clock::{Duration, NANOS_PER_SEC};
use crate::text::{decimal, decimal_text, digit_char, digit_text, padded_integer, padded_text};
use vstd::prelude::*;
use vstd::string::StringExecFns;

verus! {

/// A kibibyte.
pub const KIB: u64 = 1024;

/// A mebibyte.
pub const MIB: u64 = 1_048_576;

/// A gibibyte.
pub const GIB: u64 = 1_073_741_824;

/// The smallest number that a double-precision number may not hold exactly.
pub const EXACT_LIMIT: u64 = 9_007_199_254_740_992;

/// `a / b` rounded to the nearest whole number; of two that are equally near, to the even one.
pub open spec fn rounded_quotient(a: nat, b: nat) -> nat
    recommends
        b > 0,
{
    let q = a / b;
    let r = a % b;
    if 2 * r < b || (2 * r == b && q % 2 == 0) {
        q
    } else {
        q + 1
    }
}

/// The spacing of double-precision numbers around `n`.
pub open spec fn double_spacing(n: nat) -> nat
    decreases n,
{
    if n < EXACT_LIMIT {
        1
    } else {
        2 * double_spacing(n / 2)
    }
}

/// `n` as a double-precision number.
pub open spec fn as_double(n: nat) -> nat {
    rounded_quotient(n, double_spacing(n)) * double_spacing(n)
}

/// `value` counted in `unit`, with one decimal.
pub open spec fn one_decimal(value: nat, unit: nat) -> Seq<char> {
    let tenths = rounded_quotient(10 * as_double(value), unit);
    decimal(tenths / 10) + seq!['.', digit_char(tenths % 10)]
}

/// An amount of data: in bytes below a kibibyte, else with one decimal in the largest unit that
/// is not more than it.
pub open spec fn bytes_text(bytes: nat) -> Seq<char> {
    if bytes >= GIB {
        one_decimal(bytes, GIB as nat) + " GiB"@
    } else if bytes >= MIB {
        one_decimal(bytes, MIB as nat) + " MiB"@
    } else if bytes >= KIB {
        one_decimal(bytes, KIB as nat) + " KiB"@
    } else {
        decimal(bytes) + " B"@
    }
}

/// A length of time in whole seconds, with minutes and hours once there are any.
pub open spec fn seconds_text(secs: nat) -> Seq<char> {
    if secs < 60 {
        decimal(secs) + "s"@
    } else if secs < 3600 {
        decimal(secs / 60) + "m "@ + padded_integer((secs % 60) as int, 2) + "s"@
    } else {
        decimal(secs / 3600) + "h "@ + padded_integer(((secs % 3600) / 60) as int, 2) + "m "@
            + padded_integer((secs % 60) as int, 2) + "s"@
    }
}

fn round_div(a: u128, b: u128) -> (r: u128)
    requires
        b > 0,
        b <= 0x1_0000_0000_0000_0000,
        a < u128::MAX,
    ensures
        r == rounded_quotient(a as nat, b as nat),
{
    let q: u128 = a / b;
    let r: u128 = a % b;
    if 2 * r < b || (2 * r == b && q % 2 == 0) {
        q
    } else {
        q + 1
    }
}

proof fn lemma_spacing_bounds(n: nat)
    requires
        n <= u64::MAX,
    ensures
        1 <= double_spacing(n) <= 2048,
{
    reveal_with_fuel(double_spacing, 13);
}

fn spacing(n: u64) -> (r: u64)
    ensures
        r == double_spacing(n as nat),
        1 <= r <= 2048,
    decreases n,
{
    proof {
        lemma_spacing_bounds(n as nat);
    }
    if n < EXACT_LIMIT {
        1
    } else {
        2 * spacing(n / 2)
    }
}

fn nearest_double(n: u64) -> (r: u128)
    ensures
        r == as_double(n as nat),
        r <= n + 2048,
{
    let s: u64 = spacing(n);
    let q: u128 = round_div(n as u128, s as u128);
    proof {
        let d = (n as nat) / (s as nat);
        assert(q <= d + 1);
        assert(d * s <= n) by {
            vstd::arithmetic::div_mod::lemma_fundamental_div_mod(n as int, s as int);
            assert(s * d == d * s) by (nonlinear_arith);
        }
        assert(q * s <= d * s + s) by (nonlinear_arith)
            requires
                q <= d + 1,
        ;
    }
    q * s as u128
}

fn one_decimal_text(value: u64, unit: u64) -> (r: String)
    requires
        unit >= KIB,
    ensures
        r@ == one_decimal(value as nat, unit as nat),
{
    let tenths: u128 = round_div(10 * nearest_double(value), unit as u128);
    proof {
        let a = 10 * as_double(value as nat);
        let d = a / (unit as nat);
        assert(d <= a / 1024) by {
            vstd::arithmetic::div_mod::lemma_div_is_ordered_by_denominator(a as int, 1024, unit as int);
        }
        assert(tenths <= d + 1);
        assert(tenths <= u64::MAX);
    }
    let tenths: u64 = tenths as u64;
    let mut r = decimal_text(tenths / 10);
    r.append(".");
    r.append(digit_text((tenths % 10) as u8));
    proof {
        reveal_strlit(".");
    }
    assert(r@ =~= one_decimal(value as nat, unit as nat));
    r
}

/// Shows an amount of data.
pub fn format_bytes(bytes: u64) -> (r: String)
    ensures
        r@ == bytes_text(bytes as nat),
{
    if bytes >= GIB {
        let mut r = one_decimal_text(bytes, GIB);
        r.append(" GiB");
        r
    } else if bytes >= MIB {
        let mut r = one_decimal_text(bytes, MIB);
        r.append(" MiB");
        r
    } else if bytes >= KIB {
        let mut r = one_decimal_text(bytes, KIB);
        r.append(" KiB");
        r
    } else {
        let mut r = decimal_text(bytes);
        r.append(" B");
        r
    }
}

/// Shows a length of time.
pub fn format_duration(d: Duration) -> (r: String)
    ensures
        r@ == seconds_text(d@ / NANOS_PER_SEC as nat),
{
    let secs: u64 = d.as_secs();
    if secs < 60 {
        let mut r = decimal_text(secs);
        r.append("s");
        r
    } else if secs < 3600 {
        let mut r = decimal_text(secs / 60);
        r.append("m ");
        r.append(padded_text(secs % 60, 2).as_str());
        r.append("s");
        r
    } else {
        let mut r = decimal_text(secs / 3600);
        r.append("h ");
        r.append(padded_text((secs % 3600) / 60, 2).as_str());
        r.append("m ");
        r.append(padded_text(secs % 60, 2).as_str());
        r.append("s");
        r
    }
}

/// Amounts below 8 PiB are shown without any loss before the one decimal is rounded.
pub proof fn law_small_amounts_exact(bytes: nat)
    requires
        bytes < EXACT_LIMIT,
    ensures
        as_double(bytes) == bytes,
{
    assert(double_spacing(bytes) == 1);
    assert(bytes / 1 == bytes && bytes % 1 == 0);
}

} // verus!
