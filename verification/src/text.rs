//! Text building blocks: decimal and hexadecimal numbers, zero padding, trimming and joining.
use vstd::prelude::*;
use vstd::string::{StrSliceExecFns, StringExecFns};
use vstd::utf8::{decode_utf8, valid_utf8};

verus! {

/// The character that stands for the digit `d`, in bases up to sixteen.
pub open spec fn digit_char(d: nat) -> char {
    if d < 10 {
        (48 + d) as char
    } else {
        (87 + d) as char
    }
}

/// `n` in decimal, without leading zeros.
pub open spec fn decimal(n: nat) -> Seq<char>
    decreases n,
{
    if n < 10 {
        seq![digit_char(n)]
    } else {
        decimal(n / 10).push(digit_char(n % 10))
    }
}

/// `s` with zeros put before it until it is `width` characters long.
pub open spec fn zero_padded(s: Seq<char>, width: nat) -> Seq<char> {
    if s.len() < width {
        Seq::new((width - s.len()) as nat, |i: int| '0') + s
    } else {
        s
    }
}

/// `n` in decimal, at least `width` characters long, with a sign before the zeros where `n` is
/// negative.
pub open spec fn padded_integer(n: int, width: nat) -> Seq<char> {
    if n < 0 {
        seq!['-'] + zero_padded(decimal((-n) as nat), (if width > 0 { width - 1 } else { 0 }) as nat)
    } else {
        zero_padded(decimal(n as nat), width)
    }
}

/// Two lower-case hexadecimal digits for each byte, in order.
pub open spec fn hex_text(bytes: Seq<u8>) -> Seq<char> {
    Seq::new(
        2 * bytes.len(),
        |i: int|
            if i % 2 == 0 {
                digit_char((bytes[i / 2] / 16) as nat)
            } else {
                digit_char((bytes[i / 2] % 16) as nat)
            },
    )
}

/// Whether `s` ends in `suffix`.
pub open spec fn ends_with(s: Seq<char>, suffix: Seq<char>) -> bool {
    suffix.len() <= s.len() && s.skip(s.len() - suffix.len()) == suffix
}

/// `s` without the copies of `suffix` at its end.
pub open spec fn without_suffixes(s: Seq<char>, suffix: Seq<char>) -> Seq<char>
    decreases s.len(),
{
    if suffix.len() > 0 && ends_with(s, suffix) {
        without_suffixes(s.take(s.len() - suffix.len()), suffix)
    } else {
        s
    }
}

/// `s` without the copies of the character `c` at its start.
pub open spec fn without_leading(s: Seq<char>, c: char) -> Seq<char>
    decreases s.len(),
{
    if s.len() > 0 && s[0] == c {
        without_leading(s.skip(1), c)
    } else {
        s
    }
}

/// The texts in `parts` with `separator` between neighbours.
pub open spec fn joined(parts: Seq<Seq<char>>, separator: Seq<char>) -> Seq<char>
    decreases parts.len(),
{
    if parts.len() == 0 {
        Seq::empty()
    } else if parts.len() == 1 {
        parts[0]
    } else {
        joined(parts.drop_last(), separator) + separator + parts.last()
    }
}

/// Calls `std::str::from_utf8`.
///
/// Trusted: it succeeds exactly on valid UTF-8, with the text that the bytes encode.
#[verifier::external_body]
pub(crate) fn utf8_text<'a>(bytes: &'a [u8]) -> (r: Option<&'a str>)
    ensures
        match r {
            Some(text) => valid_utf8(bytes@) && text@ == decode_utf8(bytes@),
            None => !valid_utf8(bytes@),
        },
{
    std::str::from_utf8(bytes).ok()
}

/// The text of one digit.
pub fn digit_text(d: u8) -> (r: &'static str)
    requires
        d < 16,
    ensures
        r@ == seq![digit_char(d as nat)],
{
    proof {
        reveal_strlit("0");
        reveal_strlit("1");
        reveal_strlit("2");
        reveal_strlit("3");
        reveal_strlit("4");
        reveal_strlit("5");
        reveal_strlit("6");
        reveal_strlit("7");
        reveal_strlit("8");
        reveal_strlit("9");
        reveal_strlit("a");
        reveal_strlit("b");
        reveal_strlit("c");
        reveal_strlit("d");
        reveal_strlit("e");
        reveal_strlit("f");
    }
    match d {
        0 => "0",
        1 => "1",
        2 => "2",
        3 => "3",
        4 => "4",
        5 => "5",
        6 => "6",
        7 => "7",
        8 => "8",
        9 => "9",
        10 => "a",
        11 => "b",
        12 => "c",
        13 => "d",
        14 => "e",
        _ => "f",
    }
}

/// `n` in decimal.
pub fn decimal_text(n: u64) -> (r: String)
    ensures
        r@ == decimal(n as nat),
    decreases n,
{
    if n < 10 {
        digit_text(n as u8).to_owned()
    } else {
        let mut s = decimal_text(n / 10);
        s.append(digit_text((n % 10) as u8));
        s
    }
}

/// `s` with zeros put before it until it is `width` characters long.
pub fn zero_padded_text(s: &str, width: usize) -> (r: String)
    ensures
        r@ == zero_padded(s@, width as nat),
{
    let len: usize = s.unicode_len();
    let mut r = String::new();
    if len < width {
        let mut i: usize = 0;
        while i < width - len
            invariant
                len < width,
                i <= width - len,
                r@ == Seq::new(i as nat, |k: int| '0'),
            decreases width - len - i,
        {
            proof {
                reveal_strlit("0");
            }
            r.append("0");
            i = i + 1;
            assert(r@ =~= Seq::new(i as nat, |k: int| '0'));
        }
    }
    r.append(s);
    assert(r@ =~= zero_padded(s@, width as nat));
    r
}

/// `n` in decimal, at least `width` characters long.
pub fn padded_text(n: u64, width: usize) -> (r: String)
    ensures
        r@ == padded_integer(n as int, width as nat),
{
    zero_padded_text(decimal_text(n).as_str(), width)
}

/// `n` in decimal, at least `width` characters long; a sign counts as one of them.
pub fn padded_signed_text(n: i32, width: usize) -> (r: String)
    ensures
        r@ == padded_integer(n as int, width as nat),
{
    if n < 0 {
        let magnitude: u64 = (-(n as i64)) as u64;
        let rest: usize = if width > 0 {
            width - 1
        } else {
            0
        };
        let mut r = "-".to_owned();
        r.append(zero_padded_text(decimal_text(magnitude).as_str(), rest).as_str());
        proof {
            reveal_strlit("-");
        }
        assert("-"@ =~= seq!['-']);
        r
    } else {
        padded_text(n as u64, width)
    }
}

/// Two lower-case hexadecimal digits for each byte, in order.
pub fn hex_lower(bytes: &[u8]) -> (r: String)
    ensures
        r@ == hex_text(bytes@),
{
    let mut r = String::new();
    let mut i: usize = 0;
    while i < bytes.len()
        invariant
            i <= bytes.len(),
            r@ == hex_text(bytes@.take(i as int)),
        decreases bytes.len() - i,
    {
        let b: u8 = bytes[i];
        r.append(digit_text(b / 16));
        r.append(digit_text(b % 16));
        i = i + 1;
        assert(r@ =~= hex_text(bytes@.take(i as int)));
    }
    assert(bytes@.take(i as int) =~= bytes@);
    r
}

/// Whether `s` ends in `suffix`.
pub fn text_ends_with(s: &str, suffix: &str) -> (r: bool)
    ensures
        r == ends_with(s@, suffix@),
{
    let n: usize = s.unicode_len();
    let m: usize = suffix.unicode_len();
    if m > n {
        return false;
    }
    let mut i: usize = 0;
    while i < m
        invariant
            n == s@.len(),
            m == suffix@.len(),
            i <= m <= n,
            forall|k: int| 0 <= k < i ==> s@[n - m + k] == suffix@[k],
        decreases m - i,
    {
        if s.get_char(n - m + i) != suffix.get_char(i) {
            assert(s@.skip(n - m)[i as int] != suffix@[i as int]);
            return false;
        }
        i = i + 1;
    }
    assert(s@.skip(n - m) =~= suffix@);
    true
}

/// `s` without the copies of `suffix` at its end.
pub fn trim_end_matches<'a>(s: &'a str, suffix: &str) -> (r: &'a str)
    ensures
        r@ == without_suffixes(s@, suffix@),
{
    let m: usize = suffix.unicode_len();
    let mut rest: &'a str = s;
    if m == 0 {
        return s;
    }
    while text_ends_with(rest, suffix)
        invariant
            m == suffix@.len(),
            m > 0,
            without_suffixes(rest@, suffix@) == without_suffixes(s@, suffix@),
        decreases rest@.len(),
    {
        let n: usize = rest.unicode_len();
        rest = rest.substring_char(0, n - m);
        assert(rest@ =~= rest@.take(n - m));
    }
    rest
}

/// `s` without the copies of the character `c` at its start.
pub fn trim_start_matches<'a>(s: &'a str, c: char) -> (r: &'a str)
    ensures
        r@ == without_leading(s@, c),
{
    let mut rest: &'a str = s;
    let mut n: usize = s.unicode_len();
    while n > 0 && rest.get_char(0) == c
        invariant
            n == rest@.len(),
            without_leading(rest@, c) == without_leading(s@, c),
        decreases n,
    {
        let ghost before = rest@;
        rest = rest.substring_char(1, n);
        assert(rest@ =~= before.skip(1));
        n = n - 1;
    }
    rest
}

/// A text that no longer ends in `suffix` is all that trimming leaves.
pub proof fn law_trimmed_end(s: Seq<char>, suffix: Seq<char>)
    requires
        suffix.len() > 0,
    ensures
        !ends_with(without_suffixes(s, suffix), suffix),
        without_suffixes(without_suffixes(s, suffix), suffix) == without_suffixes(s, suffix),
        without_suffixes(s, suffix).is_prefix_of(s),
    decreases s.len(),
{
    if ends_with(s, suffix) {
        law_trimmed_end(s.take(s.len() - suffix.len()), suffix);
    }
}

} // verus!
