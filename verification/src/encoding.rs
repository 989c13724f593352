//! Base64 and PEM: what the encodings are and the calls that compute them.
use base64::Engine;
use vstd::prelude::*;

verus! {

/// The character that stands for six bits in the standard Base64 alphabet.
pub open spec fn base64_char(n: nat) -> char {
    if n < 26 {
        (65 + n) as char
    } else if n < 52 {
        (71 + n) as char
    } else if n < 62 {
        (n - 4) as char
    } else if n == 62 {
        '+'
    } else {
        '/'
    }
}

/// The four characters for three bytes.
pub open spec fn base64_group(a: u8, b: u8, c: u8) -> Seq<char> {
    seq![
        base64_char((a / 4) as nat),
        base64_char(((a % 4) * 16 + b / 16) as nat),
        base64_char(((b % 16) * 4 + c / 64) as nat),
        base64_char((c % 64) as nat),
    ]
}

/// The standard Base64 text of `data`, padded with `=`.
pub open spec fn base64_text(data: Seq<u8>) -> Seq<char>
    decreases data.len(),
{
    if data.len() == 0 {
        Seq::empty()
    } else if data.len() == 1 {
        base64_group(data[0], 0, 0).take(2) + seq!['=', '=']
    } else if data.len() == 2 {
        base64_group(data[0], data[1], 0).take(3) + seq!['=']
    } else {
        base64_group(data[0], data[1], data[2]) + base64_text(data.skip(3))
    }
}

/// Whether the Base64 text of `len` bytes can be held in memory.
pub open spec fn base64_fits(len: nat) -> bool {
    (len + 2) / 3 * 4 <= isize::MAX
}

/// What `base64` says of a text that is not Base64.
pub uninterp spec fn base64_complaint(text: Seq<char>) -> Seq<char>;

/// The bytes that `pem::parse` finds between the markers of `text`, or what it says of a text
/// that it cannot read.
pub uninterp spec fn pem_contents(text: Seq<char>) -> Result<Seq<u8>, Seq<char>>;

/// The views of bytes or of a complaint about them.
pub open spec fn bytes_view(r: Result<Vec<u8>, String>) -> Result<Seq<u8>, Seq<char>> {
    match r {
        Ok(bytes) => Ok(bytes@),
        Err(text) => Err(text@),
    }
}

/// Calls `encode` of the engine `base64::engine::general_purpose::STANDARD`.
///
/// Trusted: the result is the standard Base64 text with padding. The call panics where that
/// text is too long for memory.
#[verifier::external_body]
pub(crate) fn base64_encode(data: &[u8]) -> (r: String)
    requires
        base64_fits(data@.len()),
    ensures
        r@ == base64_text(data@),
{
    base64::engine::general_purpose::STANDARD.encode(data)
}

/// Calls `decode` of the engine `base64::engine::general_purpose::STANDARD`.
///
/// Trusted: the engine demands canonical padding and zero trailing bits, so it accepts exactly
/// the texts that encoding some bytes gives, and returns those bytes. On every other text it
/// fails with an error whose wording depends on the text alone.
#[verifier::external_body]
pub(crate) fn base64_decode(text: &str) -> (r: Result<Vec<u8>, String>)
    ensures
        match r {
            Ok(data) => base64_text(data@) == text@,
            Err(complaint) => complaint@ == base64_complaint(text@) && forall|data: Seq<u8>| #[trigger]
                base64_text(data) != text@,
        },
{
    base64::engine::general_purpose::STANDARD.decode(text).map_err(|e| e.to_string())
}

/// Calls `pem::parse` and takes `Pem::contents` of what it returns.
///
/// Trusted: the outcome depends on the text alone.
#[verifier::external_body]
pub(crate) fn pem_parse(text: &str) -> (r: Result<Vec<u8>, String>)
    ensures
        bytes_view(r) == pem_contents(text@),
{
    pem::parse(text).map(|p| p.contents().to_vec()).map_err(|e| e.to_string())
}

proof fn lemma_base64_char_injective(m: nat, n: nat)
    requires
        m < 64,
        n < 64,
        base64_char(m) == base64_char(n),
    ensures
        m == n,
        base64_char(m) != '=',
{
    let c = base64_char(m) as nat;
    assert(m < 26 ==> c == 65 + m);
    assert(26 <= m < 52 ==> c == 71 + m);
    assert(52 <= m < 62 ==> c == m - 4);
    assert(n < 26 ==> c == 65 + n);
    assert(26 <= n < 52 ==> c == 71 + n);
    assert(52 <= n < 62 ==> c == n - 4);
}

proof fn lemma_base64_len(data: Seq<u8>)
    ensures
        base64_text(data).len() == (data.len() + 2) / 3 * 4,
    decreases data.len(),
{
    if data.len() >= 3 {
        lemma_base64_len(data.skip(3));
    }
}

/// Three bytes are determined by their four characters, and none of those is the padding.
proof fn lemma_base64_group(a: u8, b: u8, c: u8, x: u8, y: u8, z: u8)
    ensures
        base64_group(a, b, c) == base64_group(x, y, z) ==> a == x && b == y && c == z,
        base64_group(a, b, c)[0] == base64_group(x, y, z)[0] && base64_group(a, b, c)[1]
            == base64_group(x, y, z)[1] ==> a == x && b / 16 == y / 16,
        base64_group(a, b, c)[0] == base64_group(x, y, z)[0] && base64_group(a, b, c)[1]
            == base64_group(x, y, z)[1] && base64_group(a, b, c)[2] == base64_group(x, y, z)[2]
            ==> a == x && b == y && c / 64 == z / 64,
        forall|i: int| 0 <= i < 4 ==> base64_group(a, b, c)[i] != '=',
{
    let m = seq![
        (a / 4) as nat,
        ((a % 4) * 16 + b / 16) as nat,
        ((b % 16) * 4 + c / 64) as nat,
        (c % 64) as nat,
    ];
    let n = seq![
        (x / 4) as nat,
        ((x % 4) * 16 + y / 16) as nat,
        ((y % 16) * 4 + z / 64) as nat,
        (z % 64) as nat,
    ];
    assert forall|i: int| 0 <= i < 4 implies base64_group(a, b, c)[i] != '=' by {
        lemma_base64_char_injective(m[i], m[i]);
    }
    assert forall|i: int| 0 <= i < 4 && base64_group(a, b, c)[i] == base64_group(x, y, z)[i] implies m[i]
        == n[i] by {
        lemma_base64_char_injective(m[i], n[i]);
    }
    assert(m[0] == n[0] && m[1] == n[1] ==> a == x && b / 16 == y / 16);
    assert(m[0] == n[0] && m[1] == n[1] && m[2] == n[2] ==> b == y && c / 64 == z / 64);
}

/// No two byte strings have the same Base64 text.
pub proof fn law_base64_injective(a: Seq<u8>, b: Seq<u8>)
    requires
        base64_text(a) == base64_text(b),
    ensures
        a == b,
    decreases a.len(),
{
    lemma_base64_len(a);
    lemma_base64_len(b);
    let s = base64_text(a);
    let t = base64_text(b);
    if a.len() == 0 || b.len() == 0 {
        assert(a =~= b);
    } else {
        let a1: u8 = if a.len() > 1 { a[1] } else { 0 };
        let a2: u8 = if a.len() > 2 { a[2] } else { 0 };
        let b1: u8 = if b.len() > 1 { b[1] } else { 0 };
        let b2: u8 = if b.len() > 2 { b[2] } else { 0 };
        lemma_base64_group(a[0], a1, a2, b[0], b1, b2);
        lemma_base64_group(b[0], b1, b2, a[0], a1, a2);
        let g = base64_group(a[0], a1, a2);
        let h = base64_group(b[0], b1, b2);
        assert(s[0] == g[0] && s[1] == g[1] && t[0] == h[0] && t[1] == h[1]);
        assert(a.len() > 1 ==> s[2] == g[2]);
        assert(b.len() > 1 ==> t[2] == h[2]);
        assert(a.len() > 2 ==> s[3] == g[3]);
        assert(b.len() > 2 ==> t[3] == h[3]);
        assert(a.len() == 1 ==> s[2] == '=');
        assert(b.len() == 1 ==> t[2] == '=');
        assert(a.len() < 3 ==> s[3] == '=');
        assert(b.len() < 3 ==> t[3] == '=');
        if a.len() < 3 || b.len() < 3 {
            assert(a =~= b);
        } else {
            assert(g =~= h);
            assert(s.skip(4) =~= base64_text(a.skip(3)));
            assert(t.skip(4) =~= base64_text(b.skip(3)));
            law_base64_injective(a.skip(3), b.skip(3));
            assert(a =~= a.take(3) + a.skip(3));
            assert(b =~= b.take(3) + b.skip(3));
            assert(a.take(3) =~= b.take(3));
        }
    }
}

} // verus!
