//! What texts tell their reader: numbers read back, parts of a text found again, lengths of time and
//! amounts of data as they are.
use crate::clock::UtcTime;
use crate::config::{bare_v4, bare_v6};
use crate::register::{cf_time, law_timestamp_shape};
use crate::status::{
    as_double, bytes_text, double_spacing, law_small_amounts_exact, one_decimal, rounded_quotient,
    seconds_text,
};
use crate::text::{
    decimal, digit_char, ends_with, hex_text, joined, law_trimmed_end, padded_integer,
    without_leading, without_suffixes,
};
use vstd::prelude::*;

verus! {

/// The number that a digit stands for: a figure, or a letter from `a` on.
pub open spec fn digit_value(c: char) -> int {
    if c <= '9' {
        c as int - '0' as int
    } else {
        c as int - 'a' as int + 10
    }
}

/// The number that a text spells in decimal.
pub open spec fn number(s: Seq<char>) -> int
    decreases s.len(),
{
    if s.len() == 0 {
        0
    } else {
        number(s.drop_last()) * 10 + digit_value(s.last())
    }
}

/// The text consists of figures.
pub open spec fn figures(s: Seq<char>) -> bool {
    forall|i: int| 0 <= i < s.len() ==> '0' <= #[trigger] s[i] <= '9'
}

/// A number in decimal reads back as that number. It consists of figures, and does not begin with a
/// zero unless it is zero.
pub proof fn law_decimal_reads_back(n: nat)
    ensures
        number(decimal(n)) == n,
        figures(decimal(n)),
        decimal(n).len() > 0,
        decimal(n)[0] == '0' ==> n == 0 && decimal(n).len() == 1,
    decreases n,
{
    if n < 10 {
        assert(decimal(n).drop_last() =~= Seq::empty());
        assert(number(Seq::<char>::empty()) == 0);
    } else {
        law_decimal_reads_back(n / 10);
        assert(decimal(n).drop_last() =~= decimal(n / 10));
    }
}

/// Zeros before a text do not change the number that it spells.
proof fn lemma_leading_zeros(k: nat, s: Seq<char>)
    ensures
        number(Seq::new(k, |i: int| '0') + s) == number(s),
    decreases k, s.len(),
{
    let zeros = Seq::new(k, |i: int| '0');
    if s.len() > 0 {
        lemma_leading_zeros(k, s.drop_last());
        assert((zeros + s).drop_last() =~= zeros + s.drop_last());
    } else if k > 0 {
        lemma_leading_zeros((k - 1) as nat, s);
        assert((zeros + s).drop_last() =~= Seq::new((k - 1) as nat, |i: int| '0') + s);
    } else {
        assert(zeros + s =~= s);
    }
}

/// A number that is padded to a width reads back as that number, has at least that width, and no more
/// than it needs beyond it. A sign counts as part of the width.
pub proof fn law_padded_reads_back(n: nat, width: nat)
    ensures
        number(padded_integer(n as int, width)) == n,
        figures(padded_integer(n as int, width)),
        padded_integer(n as int, width).len() >= width,
        padded_integer(n as int, width).len() > width ==> padded_integer(n as int, width)
            == decimal(n),
        n > 0 && width > 0 ==> padded_integer(-(n as int), width) == seq!['-'] + padded_integer(
            n as int,
            (width - 1) as nat,
        ),
{
    law_decimal_reads_back(n);
    let digits = decimal(n);
    if digits.len() < width {
        lemma_leading_zeros((width - digits.len()) as nat, digits);
    }
}

/// Bytes in hexadecimal read back: two digits for each byte, the upper half first, in order and
/// without capitals.
pub proof fn law_hex_reads_back(bytes: Seq<u8>)
    ensures
        hex_text(bytes).len() == 2 * bytes.len(),
        forall|i: int|
            0 <= i < bytes.len() ==> digit_value(hex_text(bytes)[2 * i]) * 16 + digit_value(
                hex_text(bytes)[2 * i + 1],
            ) == #[trigger] bytes[i],
        forall|i: int|
            0 <= i < hex_text(bytes).len() ==> '0' <= #[trigger] hex_text(bytes)[i] <= '9' || 'a'
                <= hex_text(bytes)[i] <= 'f',
{
    assert forall|i: int| 0 <= i < bytes.len() implies digit_value(hex_text(bytes)[2 * i]) * 16
        + digit_value(hex_text(bytes)[2 * i + 1]) == #[trigger] bytes[i] by {
        assert((2 * i) % 2 == 0 && (2 * i) / 2 == i);
        assert((2 * i + 1) % 2 == 1 && (2 * i + 1) / 2 == i);
    }
}

/// Joining parts is joining their halves: with nothing to join there is nothing, a single part is
/// itself, and where two lists meet there is one separator.
pub proof fn law_joined_in_halves(a: Seq<Seq<char>>, b: Seq<Seq<char>>, separator: Seq<char>)
    ensures
        a.len() == 0 ==> joined(a, separator) == Seq::<char>::empty(),
        a.len() == 1 ==> joined(a, separator) == a[0],
        a.len() > 0 && b.len() > 0 ==> joined(a + b, separator) == joined(a, separator) + separator
            + joined(b, separator),
    decreases b.len(),
{
    if a.len() > 0 && b.len() > 0 {
        assert((a + b).drop_last() =~= a + b.drop_last());
        assert((a + b).last() == b.last());
        if b.len() == 1 {
            assert(a + b.drop_last() =~= a);
        } else {
            law_joined_in_halves(a, b.drop_last(), separator);
            assert(joined(a + b, separator) =~= joined(a, separator) + separator + joined(
                b,
                separator,
            ));
        }
    }
}

/// `count` copies of a text.
pub open spec fn copies(s: Seq<char>, count: nat) -> Seq<char>
    decreases count,
{
    if count == 0 {
        Seq::empty()
    } else {
        copies(s, (count - 1) as nat) + s
    }
}

/// What trimming takes away is copies of the suffix, and nothing else.
pub proof fn law_trimming_takes_copies(s: Seq<char>, suffix: Seq<char>) -> (count: nat)
    ensures
        s == without_suffixes(s, suffix) + copies(suffix, count),
        suffix.len() > 0 ==> !ends_with(without_suffixes(s, suffix), suffix),
    decreases s.len(),
{
    if suffix.len() > 0 && ends_with(s, suffix) {
        let shorter = s.take(s.len() - suffix.len());
        let before = law_trimming_takes_copies(shorter, suffix);
        assert(s =~= shorter + suffix);
        assert(s =~= without_suffixes(s, suffix) + copies(suffix, before + 1));
        before + 1
    } else {
        assert(s =~= without_suffixes(s, suffix) + copies(suffix, 0));
        0
    }
}

/// What trimming the start takes away is copies of the character, and nothing else.
pub proof fn law_trimming_start_takes_copies(s: Seq<char>, c: char) -> (count: nat)
    ensures
        count <= s.len(),
        without_leading(s, c) == s.skip(count as int),
        forall|i: int| 0 <= i < count ==> s[i] == c,
        without_leading(s, c).len() > 0 ==> without_leading(s, c)[0] != c,
    decreases s.len(),
{
    if s.len() > 0 && s[0] == c {
        let after = law_trimming_start_takes_copies(s.skip(1), c);
        assert(s.skip(1).skip(after as int) =~= s.skip((after + 1) as int));
        assert forall|i: int| 0 <= i < after + 1 implies s[i] == c by {
            if i > 0 {
                assert(s.skip(1)[i - 1] == s[i]);
            }
        }
        after + 1
    } else {
        assert(s.skip(0) =~= s);
        0
    }
}

/// The address of a server as the service writes it is the bare address and the empty port, as often
/// as it is there; an IPv6 address may stand in brackets. Nothing of the address itself is lost.
pub proof fn law_bare_address_is_the_address(v4: Seq<char>, v6: Seq<char>)
    ensures
        exists|n: nat| v4 == bare_v4(v4) + #[trigger] copies(":0"@, n),
        exists|k: int, m: nat, n: nat|
            #![trigger v6.skip(k), copies("]:0"@, m), copies(":0"@, n)]
            0 <= k <= v6.len() && v6.skip(k) == bare_v6(v6) + copies(":0"@, n) + copies("]:0"@, m)
                && (forall|i: int| 0 <= i < k ==> v6[i] == '['),
        bare_v6(v6).len() > 0 ==> bare_v6(v6)[0] != '[',
        !ends_with(bare_v4(v4), ":0"@),
        !ends_with(bare_v6(v6), ":0"@),
{
    reveal_strlit(":0");
    reveal_strlit("]:0");
    let n4 = law_trimming_takes_copies(v4, ":0"@);
    assert(v4 == bare_v4(v4) + copies(":0"@, n4));
    let k = law_trimming_start_takes_copies(v6, '[');
    let inner = without_leading(v6, '[');
    let m = law_trimming_takes_copies(inner, "]:0"@);
    let middle = without_suffixes(inner, "]:0"@);
    let n = law_trimming_takes_copies(middle, ":0"@);
    assert(v6.skip(k as int) == bare_v6(v6) + copies(":0"@, n) + copies("]:0"@, m));
    law_trimmed_end(inner, "]:0"@);
    law_trimmed_end(middle, ":0"@);
}

/// An address that the service writes with an empty port is found again, in brackets or not.
pub proof fn law_written_address_is_found_again(address: Seq<char>)
    requires
        !ends_with(address, ":0"@),
        address.len() == 0 || (address[0] != '[' && address.last() != ']'),
    ensures
        bare_v4(address) == address,
        bare_v4(address + ":0"@) == address,
        bare_v6(address) == address,
        bare_v6(address + ":0"@) == address,
        bare_v6(seq!['['] + address + "]:0"@) == address,
{
    reveal_strlit(":0");
    reveal_strlit("]:0");
    reveal_with_fuel(without_suffixes, 3);
    reveal_with_fuel(without_leading, 3);
    let plain = address + ":0"@;
    assert(plain.skip(plain.len() - 2) =~= ":0"@);
    assert(plain.take(plain.len() - 2) =~= address);
    assert(without_suffixes(plain, ":0"@) == address);
    assert(!ends_with(plain, "]:0"@)) by {
        if ends_with(plain, "]:0"@) {
            assert(plain.skip(plain.len() - 3)[0] == ']');
        }
    }
    assert(!ends_with(address, "]:0"@)) by {
        if ends_with(address, "]:0"@) {
            assert(address.skip(address.len() - 2) =~= address.skip(address.len() - 3).skip(1));
            assert("]:0"@.skip(1) =~= ":0"@);
        }
    }
    let boxed = seq!['['] + address + "]:0"@;
    assert(boxed.skip(1) =~= address + "]:0"@);
    let inner = address + "]:0"@;
    assert(without_leading(inner, '[') == inner);
    assert(inner.skip(inner.len() - 3) =~= "]:0"@);
    assert(inner.take(inner.len() - 3) =~= address);
}

/// A length of time as it is shown: hours, minutes and seconds, without what is zero at the front,
/// and with two figures for what follows.
pub proof fn law_time_is_shown_in_parts(hours: nat, minutes: nat, seconds: nat)
    requires
        minutes < 60,
        seconds < 60,
    ensures
        seconds_text(3_600 * hours + 60 * minutes + seconds) == if hours > 0 {
            decimal(hours) + "h "@ + padded_integer(minutes as int, 2) + "m "@ + padded_integer(
                seconds as int,
                2,
            ) + "s"@
        } else if minutes > 0 {
            decimal(minutes) + "m "@ + padded_integer(seconds as int, 2) + "s"@
        } else {
            decimal(seconds) + "s"@
        },
{
    let all = 3_600 * hours + 60 * minutes + seconds;
    assert(all / 3_600 == hours);
    assert(all % 3_600 == 60 * minutes + seconds);
    assert((60 * minutes + seconds) / 60 == minutes);
    assert(all % 60 == seconds);
    if hours == 0 {
        assert(all / 60 == minutes);
    }
}

/// `tenths` is the nearest number of tenths of a unit to an amount; of two that are equally near, the
/// even one.
pub open spec fn nearest_tenths(amount: nat, unit: nat, tenths: nat) -> bool {
    let off = 10 * amount - tenths * unit;
    &&& -(unit as int) <= 2 * off <= unit
    &&& 2 * off == unit || 2 * off == -(unit as int) ==> tenths % 2 == 0
}

/// A quotient that is rounded is the nearest whole number, and the even one of two.
pub proof fn law_rounded_is_nearest(a: nat, b: nat)
    requires
        b > 0,
    ensures
        ({
            let off = a - rounded_quotient(a, b) * b;
            &&& -(b as int) <= 2 * off <= b
            &&& 2 * off == b || 2 * off == -(b as int) ==> rounded_quotient(a, b) % 2 == 0
        }),
{
    let q = a / b;
    let r = a % b;
    assert(a == q * b + r && 0 <= r < b) by {
        vstd::arithmetic::div_mod::lemma_fundamental_div_mod(a as int, b as int);
        assert(b * q == q * b) by (nonlinear_arith);
    }
    assert((q + 1) * b == q * b + b) by (nonlinear_arith);
}

/// An amount of data as it is shown, below 8 PiB: in bytes below 1,024 bytes; else in tenths of the
/// largest unit that it reaches, to the nearest tenth.
pub proof fn law_amount_is_shown_to_the_nearest_tenth(bytes: nat)
    requires
        bytes < 9_007_199_254_740_992,
    ensures
        bytes < 1_024 ==> bytes_text(bytes) == decimal(bytes) + " B"@,
        1_024 <= bytes < 1_048_576 ==> exists|t: nat| #[trigger]
            nearest_tenths(bytes, 1_024, t) && bytes_text(bytes) == decimal(t / 10) + seq![
                '.',
                digit_char(t % 10),
            ] + " KiB"@,
        1_048_576 <= bytes < 1_073_741_824 ==> exists|t: nat| #[trigger]
            nearest_tenths(bytes, 1_048_576, t) && bytes_text(bytes) == decimal(t / 10) + seq![
                '.',
                digit_char(t % 10),
            ] + " MiB"@,
        1_073_741_824 <= bytes ==> exists|t: nat| #[trigger]
            nearest_tenths(bytes, 1_073_741_824, t) && bytes_text(bytes) == decimal(t / 10) + seq![
                '.',
                digit_char(t % 10),
            ] + " GiB"@,
{
    law_small_amounts_exact(bytes);
    law_rounded_is_nearest(10 * bytes, 1_024);
    law_rounded_is_nearest(10 * bytes, 1_048_576);
    law_rounded_is_nearest(10 * bytes, 1_073_741_824);
    assert(nearest_tenths(bytes, 1_024, rounded_quotient(10 * bytes, 1_024)));
    assert(nearest_tenths(bytes, 1_048_576, rounded_quotient(10 * bytes, 1_048_576)));
    assert(nearest_tenths(bytes, 1_073_741_824, rounded_quotient(10 * bytes, 1_073_741_824)));
}

/// The spacing is that of numbers with 53 binary digits.
proof fn lemma_spacing(n: nat)
    ensures
        double_spacing(n) >= 1,
        n / double_spacing(n) < 9_007_199_254_740_992,
        n >= 9_007_199_254_740_992 ==> n / double_spacing(n) >= 4_503_599_627_370_496,
    decreases n,
{
    if n >= 9_007_199_254_740_992 {
        lemma_spacing(n / 2);
        let s = double_spacing(n / 2);
        assert(double_spacing(n) == 2 * s);
        assert(n / (2 * s) == (n / 2) / s) by {
            vstd::arithmetic::div_mod::lemma_div_denominator(n as int, 2, s as int);
        }
        if n / 2 < 9_007_199_254_740_992 {
            assert(s == 1);
            assert((n / 2) / 1 == n / 2);
        }
    } else {
        assert(n / 1 == n);
    }
}

/// An amount of 8 PiB or more is shown like the nearest number with 53 binary digits: the even one of
/// two that are equally near.
pub proof fn law_large_amounts_are_nearest(n: nat)
    ensures
        ({
            let s = double_spacing(n);
            let off = n - as_double(n);
            &&& s >= 1
            &&& n >= 9_007_199_254_740_992 ==> 4_503_599_627_370_496 <= n / s
                < 9_007_199_254_740_992
            &&& as_double(n) % s == 0
            &&& -(s as int) <= 2 * off <= s
        }),
        n >= 9_007_199_254_740_992 ==> bytes_text(n) == one_decimal(n, 1_073_741_824) + " GiB"@,
        one_decimal(n, 1_073_741_824) == decimal(
            rounded_quotient(10 * as_double(n), 1_073_741_824) / 10,
        ) + seq!['.', digit_char(rounded_quotient(10 * as_double(n), 1_073_741_824) % 10)],
{
    lemma_spacing(n);
    let s = double_spacing(n);
    law_rounded_is_nearest(n, s);
    let q = rounded_quotient(n, s);
    assert((q * s) % s == 0) by {
        vstd::arithmetic::div_mod::lemma_mod_multiples_basic(q as int, s as int);
    }
}

/// The moment can be read from its text: each part stands at its place and reads back. So two moments
/// of the years 0 to 9999 with the same text are the same to the millisecond.
pub proof fn law_timestamp_tells_the_moment(now: UtcTime)
    requires
        now.in_range(),
        0 <= now.year,
    ensures
        number(cf_time(now).subrange(0, 4)) == now.year,
        number(cf_time(now).subrange(5, 7)) == now.month,
        number(cf_time(now).subrange(8, 10)) == now.day,
        number(cf_time(now).subrange(11, 13)) == now.hour,
        number(cf_time(now).subrange(14, 16)) == now.minute,
        number(cf_time(now).subrange(17, 19)) == now.second,
        number(cf_time(now).subrange(20, 23)) == now.millisecond,
{
    reveal_strlit("-");
    reveal_strlit("T");
    reveal_strlit(":");
    reveal_strlit(".");
    reveal_strlit("+00:00");
    reveal_with_fuel(decimal, 5);
    law_timestamp_shape(now);
    law_padded_reads_back(now.year as nat, 4);
    law_padded_reads_back(now.month as nat, 2);
    law_padded_reads_back(now.day as nat, 2);
    law_padded_reads_back(now.hour as nat, 2);
    law_padded_reads_back(now.minute as nat, 2);
    law_padded_reads_back(now.second as nat, 2);
    law_padded_reads_back(now.millisecond as nat, 3);
    let text = cf_time(now);
    assert(text.subrange(0, 4) =~= padded_integer(now.year as int, 4));
    assert(text.subrange(5, 7) =~= padded_integer(now.month as int, 2));
    assert(text.subrange(8, 10) =~= padded_integer(now.day as int, 2));
    assert(text.subrange(11, 13) =~= padded_integer(now.hour as int, 2));
    assert(text.subrange(14, 16) =~= padded_integer(now.minute as int, 2));
    assert(text.subrange(17, 19) =~= padded_integer(now.second as int, 2));
    assert(text.subrange(20, 23) =~= padded_integer(now.millisecond as int, 3));
}

} // verus!
