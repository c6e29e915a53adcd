//! The base64 format of RFC 4648 (standard alphabet, `=` padding), stated as a function
//! on bytes, with the facts that make it decodable: it is ASCII and one-to-one.
use vstd::prelude::*;
use vstd::utf8::{encode_utf8, is_ascii_chars, is_ascii_chars_encode_utf8};

verus! {

/// The character (as an ASCII byte) of the standard alphabet for a 6-bit value:
/// `A`-`Z`, `a`-`z`, `0`-`9`, `+`, `/`.
pub open spec fn sextet_char(v: u8) -> u8 {
    if v < 26 {
        (v + 65) as u8
    } else if v < 52 {
        (v - 26 + 97) as u8
    } else if v < 62 {
        (v - 52 + 48) as u8
    } else if v == 62 {
        43
    } else {
        47
    }
}

/// The padding byte `=`.
pub open spec fn pad() -> u8 {
    61
}

/// The base64 bytes of `data`: each group of three bytes becomes four characters; a last
/// group of one or two bytes becomes four characters ending in `==` or `=`.
pub open spec fn base64_bytes(data: Seq<u8>) -> Seq<u8>
    decreases data.len(),
{
    if data.len() == 0 {
        seq![]
    } else if data.len() == 1 {
        let a = data[0];
        seq![sextet_char(a >> 2), sextet_char((a & 3) << 4), pad(), pad()]
    } else if data.len() == 2 {
        let a = data[0];
        let b = data[1];
        seq![sextet_char(a >> 2), sextet_char(((a & 3) << 4) | (b >> 4)), sextet_char((b & 15) << 2), pad()]
    } else {
        let a = data[0];
        let b = data[1];
        let c = data[2];
        seq![
            sextet_char(a >> 2),
            sextet_char(((a & 3) << 4) | (b >> 4)),
            sextet_char(((b & 15) << 2) | (c >> 6)),
            sextet_char(c & 63),
        ] + base64_bytes(data.skip(3))
    }
}

/// The base64 text of `data`.
pub open spec fn base64_text(data: Seq<u8>) -> Seq<char> {
    base64_bytes(data).map_values(|b: u8| b as char)
}

/// What base64 text decodes to: the bytes whose base64 form it is; `None` when it is the
/// base64 form of nothing.
pub open spec fn base64_decoding(text: Seq<u8>) -> Option<Seq<u8>> {
    if exists|x: Seq<u8>| base64_bytes(x) == text {
        Some(choose|x: Seq<u8>| base64_bytes(x) == text)
    } else {
        None
    }
}

/// The alphabet's characters are ASCII, differ from `=`, and differ from each other.
proof fn lemma_sextet_char(v: u8, w: u8)
    requires
        v < 64,
        w < 64,
    ensures
        sextet_char(v) < 128,
        sextet_char(v) != pad(),
        sextet_char(v) == sextet_char(w) ==> v == w,
{
}

/// The 6-bit pieces of one group are below 64 and determine the group's bytes.
proof fn lemma_group_pieces(a: u8, b: u8, c: u8, d: u8, e: u8, f: u8)
    by (bit_vector)
    ensures
        a >> 2 < 64,
        ((a & 3) << 4) | (b >> 4) < 64,
        ((b & 15) << 2) | (c >> 6) < 64,
        c & 63 < 64,
        (a & 3) << 4 < 64,
        (b & 15) << 2 < 64,
        (a >> 2 == d >> 2 && ((a & 3) << 4) | (b >> 4) == ((d & 3) << 4) | (e >> 4) && ((b & 15)
            << 2) | (c >> 6) == ((e & 15) << 2) | (f >> 6) && c & 63 == f & 63) ==> (a == d && b
            == e && c == f),
        (a >> 2 == d >> 2 && ((a & 3) << 4) | (b >> 4) == ((d & 3) << 4) | (e >> 4) && (b & 15)
            << 2 == (e & 15) << 2) ==> (a == d && b == e),
        (a >> 2 == d >> 2 && (a & 3) << 4 == (d & 3) << 4) ==> a == d,
{
}

/// Base64 text has four characters per started group of three bytes, all of them ASCII.
pub proof fn lemma_base64_ascii(data: Seq<u8>)
    ensures
        data.len() == 0 <==> base64_bytes(data).len() == 0,
        data.len() > 0 ==> base64_bytes(data).len() >= 4,
        forall|i: int| 0 <= i < base64_bytes(data).len() ==> #[trigger] base64_bytes(data)[i] < 128,
    decreases data.len(),
{
    if data.len() > 0 {
        let a = data[0];
        let b = if data.len() > 1 { data[1] } else { 0u8 };
        let c = if data.len() > 2 { data[2] } else { 0u8 };
        lemma_group_pieces(a, b, c, a, b, c);
        lemma_sextet_char(a >> 2, 0);
        lemma_sextet_char(((a & 3) << 4) | (b >> 4), 0);
        lemma_sextet_char(((b & 15) << 2) | (c >> 6), 0);
        lemma_sextet_char(c & 63, 0);
        lemma_sextet_char((a & 3) << 4, 0);
        lemma_sextet_char((b & 15) << 2, 0);
        if data.len() > 2 {
            lemma_base64_ascii(data.skip(3));
            let s = base64_bytes(data);
            assert forall|i: int| 0 <= i < s.len() implies #[trigger] s[i] < 128 by {
                if i >= 4 {
                    assert(s[i] == base64_bytes(data.skip(3))[i - 4]);
                }
            }
        }
    }
}

/// Different bytes have different base64 forms.
pub proof fn lemma_base64_one_to_one(x: Seq<u8>, y: Seq<u8>)
    requires
        base64_bytes(x) == base64_bytes(y),
    ensures
        x == y,
    decreases x.len(),
{
    lemma_base64_ascii(x);
    lemma_base64_ascii(y);
    let s = base64_bytes(x);
    if x.len() == 0 {
        assert(y.len() == 0);
        assert(x =~= y);
        return;
    }
    assert(y.len() > 0);
    let a = x[0];
    let b = if x.len() > 1 { x[1] } else { 0u8 };
    let c = if x.len() > 2 { x[2] } else { 0u8 };
    let d = y[0];
    let e = if y.len() > 1 { y[1] } else { 0u8 };
    let f = if y.len() > 2 { y[2] } else { 0u8 };
    lemma_group_pieces(a, b, c, d, e, f);
    lemma_group_pieces(d, e, f, a, b, c);
    lemma_sextet_char(a >> 2, d >> 2);
    lemma_sextet_char(((a & 3) << 4) | (b >> 4), ((d & 3) << 4) | (e >> 4));
    lemma_sextet_char(((b & 15) << 2) | (c >> 6), ((e & 15) << 2) | (f >> 6));
    lemma_sextet_char(c & 63, f & 63);
    lemma_sextet_char((a & 3) << 4, (d & 3) << 4);
    lemma_sextet_char((b & 15) << 2, (e & 15) << 2);
    lemma_sextet_char((a & 3) << 4, ((d & 3) << 4) | (e >> 4));
    lemma_sextet_char(((a & 3) << 4) | (b >> 4), (d & 3) << 4);
    lemma_sextet_char((b & 15) << 2, ((e & 15) << 2) | (f >> 6));
    lemma_sextet_char(((b & 15) << 2) | (c >> 6), (e & 15) << 2);
    // The padding in the first group tells how many bytes the last group had.
    if x.len() == 1 {
        assert(s[2] == pad());
        assert(y.len() == 1);
        assert(x =~= y);
    } else if x.len() == 2 {
        assert(s[2] != pad() && s[3] == pad());
        assert(y.len() == 2);
        assert(x =~= y);
    } else {
        assert(s[3] != pad());
        assert(y.len() > 2);
        assert(s[0] == sextet_char(a >> 2) && s[0] == sextet_char(d >> 2));
        assert(s[1] == sextet_char(((a & 3) << 4) | (b >> 4)));
        assert(s[1] == sextet_char(((d & 3) << 4) | (e >> 4)));
        assert(s[2] == sextet_char(((b & 15) << 2) | (c >> 6)));
        assert(s[2] == sextet_char(((e & 15) << 2) | (f >> 6)));
        assert(s[3] == sextet_char(c & 63) && s[3] == sextet_char(f & 63));
        assert(a == d && b == e && c == f);
        assert(s.skip(4) =~= base64_bytes(x.skip(3)));
        assert(s.skip(4) =~= base64_bytes(y.skip(3)));
        lemma_base64_one_to_one(x.skip(3), y.skip(3));
        assert(x =~= seq![a, b, c] + x.skip(3));
        assert(y =~= seq![d, e, f] + y.skip(3));
    }
}

/// Decoding the base64 form of `data` gives `data` back.
pub proof fn law_base64_round_trip(data: Seq<u8>)
    ensures
        base64_decoding(base64_bytes(data)) == Some(data),
        encode_utf8(base64_text(data)) == base64_bytes(data),
{
    let text = base64_bytes(data);
    assert(base64_bytes(data) == text);
    let x = choose|x: Seq<u8>| base64_bytes(x) == text;
    lemma_base64_one_to_one(x, data);
    lemma_base64_ascii(data);
    let chars = base64_text(data);
    assert(is_ascii_chars(chars)) by {
        assert forall|i: int| 0 <= i < chars.len() implies '\0' <= #[trigger] chars[i] <= '\u{7f}' by {
            assert(text[i] < 128);
        }
    }
    is_ascii_chars_encode_utf8(chars);
    assert forall|i: int| 0 <= i < chars.len() implies encode_utf8(chars)[i] == text[i] by {
        assert(chars[i] as u8 == encode_utf8(chars)[i]);
        assert(text[i] < 128);
    }
    assert(encode_utf8(chars) =~= text);
}

} // verus!
