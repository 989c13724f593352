//! QUIC variable-length integers: what they look like on the wire, and that reading one back gives
//! the value that was written.
use vstd::prelude::*;
use vstd::arithmetic::div_mod::lemma_fundamental_div_mod_converse;

verus! {

/// One more than the largest value a variable-length integer can carry.
pub const VARINT_LIMIT: u64 = 0x4000_0000_0000_0000;

/// The number that `bytes` spell, most significant byte first.
pub open spec fn be_value(bytes: Seq<u8>) -> nat
    decreases bytes.len(),
{
    if bytes.len() == 0 {
        0
    } else {
        be_value(bytes.drop_last()) * 256 + bytes.last() as nat
    }
}

/// The last `width` bytes of `n`, most significant byte first.
pub open spec fn be_bytes(n: nat, width: nat) -> Seq<u8>
    decreases width,
{
    if width == 0 {
        Seq::empty()
    } else {
        be_bytes(n / 256, (width - 1) as nat).push((n % 256) as u8)
    }
}

/// How many bytes an encoding takes whose first byte is `first`: the two top bits select the
/// width.
pub open spec fn varint_width(first: u8) -> nat {
    if first < 64 {
        1
    } else if first < 128 {
        2
    } else if first < 192 {
        4
    } else {
        8
    }
}

/// The number of values that fit in an encoding of `width` bytes, two bits of which select the
/// width.
pub open spec fn varint_capacity(width: nat) -> nat {
    if width == 1 {
        64
    } else if width == 2 {
        16_384
    } else if width == 4 {
        1_073_741_824
    } else {
        VARINT_LIMIT as nat
    }
}

/// The two top bits that announce an encoding of `width` bytes.
pub open spec fn varint_tag(width: nat) -> nat {
    if width == 1 {
        0
    } else if width == 2 {
        1
    } else if width == 4 {
        2
    } else {
        3
    }
}

/// The width of the shortest encoding of `value`.
pub open spec fn varint_shortest(value: nat) -> nat {
    if value < varint_capacity(1) {
        1
    } else if value < varint_capacity(2) {
        2
    } else if value < varint_capacity(4) {
        4
    } else {
        8
    }
}

/// The integer at the front of `bytes` and the number of bytes it takes, or `None` where `bytes`
/// end too early.
pub open spec fn varint_decode(bytes: Seq<u8>) -> Option<(nat, nat)> {
    if bytes.len() == 0 || bytes.len() < varint_width(bytes[0]) {
        None
    } else {
        let width = varint_width(bytes[0]);
        Some((be_value(bytes.take(width as int)) % varint_capacity(width), width))
    }
}

/// The shortest encoding of `value`.
pub open spec fn varint_encode(value: nat) -> Seq<u8> {
    let width = varint_shortest(value);
    be_bytes(varint_tag(width) * varint_capacity(width) + value, width)
}

/// Reads the integer at the front of `bytes` with `octets::Octets::get_varint` and reports the
/// value together with `Octets::off`, the number of bytes read.
///
/// Trusted: `get_varint` takes the width from the two top bits of the first byte, fails when
/// fewer bytes are there, and otherwise reads that many bytes in network order with the two top
/// bits masked off.
#[verifier::external_body]
pub(crate) fn get_varint(bytes: &[u8]) -> (r: Option<(u64, usize)>)
    ensures
        match varint_decode(bytes@) {
            Some((value, width)) => r == Some((value as u64, width as usize)),
            None => r is None,
        },
{
    let mut reader = octets::Octets::with_slice(bytes);
    match reader.get_varint() {
        Ok(value) => Some((value, reader.off())),
        Err(octets::BufferTooShortError) => None,
    }
}

/// Writes `value` with `octets::OctetsMut::put_varint` into an eight byte buffer and returns the
/// part that was written.
///
/// Trusted: `put_varint` picks the shortest width, writes the value in network order and sets
/// the two top bits of the first byte. It panics on values of `VARINT_LIMIT` and above.
#[verifier::external_body]
pub(crate) fn put_varint(value: u64) -> (r: Vec<u8>)
    requires
        value < VARINT_LIMIT,
    ensures
        r@ == varint_encode(value as nat),
{
    let mut buffer = [0u8; 8];
    let mut writer = octets::OctetsMut::with_slice(&mut buffer);
    writer.put_varint(value).unwrap().to_vec()
}

proof fn lemma_be_bytes_len(n: nat, width: nat)
    ensures
        be_bytes(n, width).len() == width,
    decreases width,
{
    if width > 0 {
        lemma_be_bytes_len(n / 256, (width - 1) as nat);
    }
}

/// 256 to the power of `width`.
spec fn byte_range(width: nat) -> nat
    decreases width,
{
    if width == 0 {
        1
    } else {
        byte_range((width - 1) as nat) * 256
    }
}

proof fn lemma_be_round_trip(n: nat, width: nat)
    requires
        n < byte_range(width),
    ensures
        be_value(be_bytes(n, width)) == n,
    decreases width,
{
    if width > 0 {
        let upper = be_bytes(n / 256, (width - 1) as nat);
        lemma_be_round_trip(n / 256, (width - 1) as nat);
        assert(be_bytes(n, width).drop_last() =~= upper);
        assert(be_bytes(n, width).last() == (n % 256) as u8);
    }
}

/// The first of `width` bytes is what is left of `n` once the others are divided away.
proof fn lemma_be_first(n: nat, width: nat)
    requires
        0 < width,
        n < byte_range(width),
    ensures
        be_bytes(n, width)[0] as nat == n / byte_range((width - 1) as nat),
    decreases width,
{
    lemma_be_bytes_len(n, width);
    if width == 1 {
        reveal_with_fuel(byte_range, 2);
        reveal_with_fuel(be_bytes, 2);
        assert(be_bytes(n, 1) =~= seq![(n % 256) as u8]);
        assert(byte_range(0) == 1 && n < 256);
    } else {
        let upper = be_bytes(n / 256, (width - 1) as nat);
        lemma_be_first(n / 256, (width - 1) as nat);
        lemma_be_bytes_len(n / 256, (width - 1) as nat);
        assert(be_bytes(n, width)[0] == upper[0]);
        let rest = byte_range((width - 2) as nat);
        assert(byte_range((width - 1) as nat) == rest * 256);
        lemma_byte_range_positive((width - 2) as nat);
        vstd::arithmetic::div_mod::lemma_div_denominator(n as int, 256, rest as int);
        assert((n / 256) / rest == n / (256 * rest));
        assert(256 * rest == byte_range((width - 1) as nat));
    }
}

proof fn lemma_byte_range_positive(width: nat)
    ensures
        0 < byte_range(width),
    decreases width,
{
    if width > 0 {
        lemma_byte_range_positive((width - 1) as nat);
    }
}

/// What is written is read back: an encoded value at the front of any bytes decodes to that
/// value, and its width is all that is consumed.
pub proof fn law_varint_round_trip(value: nat, rest: Seq<u8>)
    requires
        value < VARINT_LIMIT,
    ensures
        varint_decode(varint_encode(value) + rest) == Some((value, varint_encode(value).len())),
        varint_encode(value).len() == varint_shortest(value),
{
    let width = varint_shortest(value);
    let cap = varint_capacity(width);
    let n = varint_tag(width) * cap + value;
    let code = varint_encode(value);
    assert(code == be_bytes(n, width));
    reveal_with_fuel(byte_range, 9);
    assert(n < byte_range(width) && byte_range(width) == 4 * cap);
    assert(byte_range((width - 1) as nat) * 64 == cap);
    lemma_be_bytes_len(n, width);
    lemma_be_round_trip(n, width);
    lemma_be_first(n, width);
    let low = byte_range((width - 1) as nat);
    let tag = varint_tag(width);
    assert(tag * 64 <= n / low < tag * 64 + 64) by {
        lemma_byte_range_positive((width - 1) as nat);
        vstd::arithmetic::div_mod::lemma_fundamental_div_mod(n as int, low as int);
        let q = (n / low) as int;
        let r = (n % low) as int;
        assert(n == low * q + r && 0 <= r < low);
        assert(tag * cap == tag * 64 * low) by (nonlinear_arith)
            requires
                cap == low * 64,
        ;
        assert(tag * 64 <= q && q < tag * 64 + 64) by (nonlinear_arith)
            requires
                low > 0,
                low * q + r == tag * 64 * low + value,
                0 <= r < low,
                0 <= value < low * 64,
        ;
    }
    let all = code + rest;
    assert(all[0] == code[0]);
    assert(varint_width(all[0]) == width);
    assert(all.take(width as int) =~= code);
    assert(n % cap == value) by {
        lemma_fundamental_div_mod_converse(n as int, cap as int, tag as int, value as int);
    }
}

} // verus!
