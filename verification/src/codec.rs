//! The text-safe encoding of a storage unit: base64 with the standard
//! alphabet and padding. It hides nothing; it only keeps the stored document
//! from being mangled as text.

use vstd::prelude::*;
use vstd::utf8::{decode_utf8, encode_utf8, valid_utf8};
use crate::error::{other_error, ErrorKind, StoreError};
use crate::text::chars_of;

verus! {

/// The character that stands for the six-bit value `v`.
pub open spec fn sextet_char(v: int) -> char {
    if v < 26 {
        ((v + 65) as u8) as char
    } else if v < 52 {
        ((v + 71) as u8) as char
    } else if v < 62 {
        ((v - 4) as u8) as char
    } else if v == 62 {
        '+'
    } else {
        '/'
    }
}

/// Whether `c` is one of the sixty-four characters of the alphabet.
pub open spec fn is_sextet_char(c: char) -> bool {
    ('A' <= c && c <= 'Z') || ('a' <= c && c <= 'z') || ('0' <= c && c <= '9') || c == '+' || c
        == '/'
}

/// The six-bit value that a character of the alphabet stands for.
pub open spec fn char_sextet(c: char) -> int {
    if 'A' <= c && c <= 'Z' {
        c as int - 65
    } else if 'a' <= c && c <= 'z' {
        c as int - 71
    } else if '0' <= c && c <= '9' {
        c as int + 4
    } else if c == '+' {
        62
    } else {
        63
    }
}

/// The four characters that encode a group of three bytes.
pub open spec fn encode_three(a: u8, b: u8, c: u8) -> Seq<char> {
    seq![
        sextet_char(a as int / 4),
        sextet_char((a as int % 4) * 16 + b as int / 16),
        sextet_char((b as int % 16) * 4 + c as int / 64),
        sextet_char(c as int % 64),
    ]
}

/// The four characters that encode a last group of two bytes.
pub open spec fn encode_two(a: u8, b: u8) -> Seq<char> {
    seq![
        sextet_char(a as int / 4),
        sextet_char((a as int % 4) * 16 + b as int / 16),
        sextet_char((b as int % 16) * 4),
        '=',
    ]
}

/// The four characters that encode a last group of one byte.
pub open spec fn encode_one(a: u8) -> Seq<char> {
    seq![sextet_char(a as int / 4), sextet_char((a as int % 4) * 16), '=', '=']
}

/// The base64 text of `bytes`.
pub open spec fn encode_spec(bytes: Seq<u8>) -> Seq<char>
    decreases bytes.len(),
{
    if bytes.len() == 0 {
        Seq::empty()
    } else if bytes.len() == 1 {
        encode_one(bytes[0])
    } else if bytes.len() == 2 {
        encode_two(bytes[0], bytes[1])
    } else {
        encode_three(bytes[0], bytes[1], bytes[2]) + encode_spec(bytes.skip(3))
    }
}

/// The bytes that `text` is the base64 text of, if there are any. Text that
/// encodes nothing is rejected: text of the wrong length, with a character
/// outside the alphabet, with misplaced padding or with stray bits in its
/// last group.
pub open spec fn decode_spec(text: Seq<char>) -> Option<Seq<u8>> {
    if exists|bytes: Seq<u8>| encode_spec(bytes) == text {
        Some(choose|bytes: Seq<u8>| encode_spec(bytes) == text)
    } else {
        None
    }
}

/// Each value has its own character, none of them the padding character.
pub proof fn lemma_sextet_char(v: int)
    requires
        0 <= v < 64,
    ensures
        is_sextet_char(sextet_char(v)),
        char_sextet(sextet_char(v)) == v,
        sextet_char(v) != '=',
{
}

/// Each character of the alphabet stands for one value.
pub proof fn lemma_char_sextet(c: char)
    requires
        is_sextet_char(c),
    ensures
        0 <= char_sextet(c) < 64,
        sextet_char(char_sextet(c)) == c,
{
}

/// The values that the four characters of a full group stand for are those
/// of the bytes' bits, six at a time.
pub proof fn lemma_group_values(a: u8, b: u8, c: u8)
    ensures
        0 <= a as int / 4 < 64,
        0 <= (a as int % 4) * 16 + b as int / 16 < 64,
        0 <= (b as int % 16) * 4 + c as int / 64 < 64,
        0 <= c as int % 64 < 64,
        0 <= (a as int % 4) * 16 < 64,
        0 <= (b as int % 16) * 4 < 64,
{
}

/// Two full groups with the same characters hold the same bytes.
pub proof fn lemma_three_injective(a0: u8, a1: u8, a2: u8, b0: u8, b1: u8, b2: u8)
    requires
        encode_three(a0, a1, a2) == encode_three(b0, b1, b2),
    ensures
        a0 == b0,
        a1 == b1,
        a2 == b2,
{
    let x = encode_three(a0, a1, a2);
    let y = encode_three(b0, b1, b2);
    assert(x[0] == y[0] && x[1] == y[1] && x[2] == y[2] && x[3] == y[3]);
    lemma_group_values(a0, a1, a2);
    lemma_group_values(b0, b1, b2);
    lemma_sextet_char(a0 as int / 4);
    lemma_sextet_char(b0 as int / 4);
    lemma_sextet_char((a0 as int % 4) * 16 + a1 as int / 16);
    lemma_sextet_char((b0 as int % 4) * 16 + b1 as int / 16);
    lemma_sextet_char((a1 as int % 16) * 4 + a2 as int / 64);
    lemma_sextet_char((b1 as int % 16) * 4 + b2 as int / 64);
    lemma_sextet_char(a2 as int % 64);
    lemma_sextet_char(b2 as int % 64);
}

/// Two last groups of two bytes with the same characters hold the same
/// bytes.
pub proof fn lemma_two_injective(a0: u8, a1: u8, b0: u8, b1: u8)
    requires
        encode_two(a0, a1) == encode_two(b0, b1),
    ensures
        a0 == b0,
        a1 == b1,
{
    let x = encode_two(a0, a1);
    let y = encode_two(b0, b1);
    assert(x[0] == y[0] && x[1] == y[1] && x[2] == y[2]);
    lemma_group_values(a0, a1, 0);
    lemma_group_values(b0, b1, 0);
    lemma_sextet_char(a0 as int / 4);
    lemma_sextet_char(b0 as int / 4);
    lemma_sextet_char((a0 as int % 4) * 16 + a1 as int / 16);
    lemma_sextet_char((b0 as int % 4) * 16 + b1 as int / 16);
    lemma_sextet_char((a1 as int % 16) * 4);
    lemma_sextet_char((b1 as int % 16) * 4);
}

/// Two last groups of one byte with the same characters hold the same byte.
pub proof fn lemma_one_injective(a0: u8, b0: u8)
    requires
        encode_one(a0) == encode_one(b0),
    ensures
        a0 == b0,
{
    let x = encode_one(a0);
    let y = encode_one(b0);
    assert(x[0] == y[0] && x[1] == y[1]);
    lemma_group_values(a0, 0, 0);
    lemma_group_values(b0, 0, 0);
    lemma_sextet_char(a0 as int / 4);
    lemma_sextet_char(b0 as int / 4);
    lemma_sextet_char((a0 as int % 4) * 16);
    lemma_sextet_char((b0 as int % 4) * 16);
}

/// The text of `bytes` has four characters for every three bytes begun.
pub proof fn lemma_encode_len(bytes: Seq<u8>)
    ensures
        encode_spec(bytes).len() == 4 * ((bytes.len() + 2) / 3),
    decreases bytes.len(),
{
    if bytes.len() >= 3 {
        lemma_encode_len(bytes.skip(3));
    }
}

/// The first group of the text of `bytes`, and what follows it.
pub proof fn lemma_encode_front(bytes: Seq<u8>)
    requires
        bytes.len() >= 3,
    ensures
        encode_spec(bytes).len() >= 4,
        encode_spec(bytes).subrange(0, 4) == encode_three(bytes[0], bytes[1], bytes[2]),
        encode_spec(bytes).subrange(4, encode_spec(bytes).len() as int) == encode_spec(
            bytes.skip(3),
        ),
{
    let g = encode_three(bytes[0], bytes[1], bytes[2]);
    let rest = encode_spec(bytes.skip(3));
    assert((g + rest).subrange(0, 4) =~= g);
    assert((g + rest).subrange(4, (g + rest).len() as int) =~= rest);
}

/// Encoding whole groups and then the rest is encoding all of it.
pub proof fn lemma_encode_append(a: Seq<u8>, b: Seq<u8>)
    requires
        a.len() % 3 == 0,
    ensures
        encode_spec(a + b) == encode_spec(a) + encode_spec(b),
    decreases a.len(),
{
    if a.len() == 0 {
        assert(a + b =~= b);
        assert(encode_spec(a) + encode_spec(b) =~= encode_spec(b));
    } else {
        let ab = a + b;
        assert(ab.skip(3) =~= a.skip(3) + b);
        lemma_encode_append(a.skip(3), b);
        let g = encode_three(a[0], a[1], a[2]);
        assert(encode_spec(ab) == g + encode_spec(ab.skip(3)));
        assert(g + (encode_spec(a.skip(3)) + encode_spec(b)) =~= (g + encode_spec(a.skip(3)))
            + encode_spec(b));
    }
}

/// Two sequences of bytes with the same text are the same.
pub proof fn lemma_encode_injective(a: Seq<u8>, b: Seq<u8>)
    requires
        encode_spec(a) == encode_spec(b),
    ensures
        a == b,
    decreases a.len(),
{
    lemma_encode_len(a);
    lemma_encode_len(b);
    let x = encode_spec(a);
    let y = encode_spec(b);
    if a.len() == 0 || b.len() == 0 {
        assert(a =~= b);
    } else {
        assert(x[2] == y[2] && x[3] == y[3]);
        lemma_group_values(a[0], if a.len() > 1 { a[1] } else { 0 }, if a.len() > 2 { a[2] } else { 0 });
        lemma_group_values(b[0], if b.len() > 1 { b[1] } else { 0 }, if b.len() > 2 { b[2] } else { 0 });
        if a.len() >= 3 {
            lemma_encode_front(a);
            assert(x[2] == x.subrange(0, 4)[2] && x[3] == x.subrange(0, 4)[3]);
            lemma_sextet_char((a[1] as int % 16) * 4 + a[2] as int / 64);
            lemma_sextet_char(a[2] as int % 64);
        } else if a.len() == 2 {
            lemma_sextet_char((a[1] as int % 16) * 4);
        }
        if b.len() >= 3 {
            lemma_encode_front(b);
            assert(y[2] == y.subrange(0, 4)[2] && y[3] == y.subrange(0, 4)[3]);
            lemma_sextet_char((b[1] as int % 16) * 4 + b[2] as int / 64);
            lemma_sextet_char(b[2] as int % 64);
        } else if b.len() == 2 {
            lemma_sextet_char((b[1] as int % 16) * 4);
        }
        if a.len() == 1 {
            assert(b.len() == 1);
            lemma_one_injective(a[0], b[0]);
            assert(a =~= b);
        } else if a.len() == 2 {
            assert(b.len() == 2);
            lemma_two_injective(a[0], a[1], b[0], b[1]);
            assert(a =~= b);
        } else {
            assert(b.len() >= 3);
            lemma_three_injective(a[0], a[1], a[2], b[0], b[1], b[2]);
            lemma_encode_injective(a.skip(3), b.skip(3));
            assert forall|i: int| 0 <= i < a.len() implies a[i] == b[i] by {
                if i >= 3 {
                    assert(a[i] == a.skip(3)[i - 3]);
                    assert(b[i] == b.skip(3)[i - 3]);
                }
            }
            assert(a.len() == b.len()) by {
                assert(a.skip(3).len() == b.skip(3).len());
            }
            assert(a =~= b);
        }
    }
}

/// Round trip, on bytes: decoding the text of `bytes` gives `bytes` back.
pub proof fn lemma_decode_encode(bytes: Seq<u8>)
    ensures
        decode_spec(encode_spec(bytes)) == Some(bytes),
{
    let text = encode_spec(bytes);
    let found = choose|b: Seq<u8>| encode_spec(b) == text;
    lemma_encode_injective(found, bytes);
}

/// The bytes whose text is `text` are what decoding `text` gives.
pub proof fn lemma_decoded(text: Seq<char>, bytes: Seq<u8>)
    requires
        encode_spec(bytes) == text,
    ensures
        decode_spec(text) == Some(bytes),
{
    lemma_decode_encode(bytes);
}

/// What the last three characters of a text must be: a padding character
/// is followed by padding only, and the character before the padding
/// carries no bits beyond those of the bytes.
pub open spec fn is_last_group(c1: char, c2: char, c3: char) -> bool {
    if c2 == '=' {
        c3 == '=' && char_sextet(c1) % 16 == 0
    } else if c3 == '=' {
        is_sextet_char(c2) && char_sextet(c2) % 4 == 0
    } else {
        is_sextet_char(c2) && is_sextet_char(c3)
    }
}

/// The shape of every base64 text: groups of four characters of the
/// alphabet, with padding in the last group only.
pub open spec fn is_well_formed_text(t: Seq<char>) -> bool {
    &&& t.len() % 4 == 0
    &&& forall|k: int| 0 <= k < t.len() - 2 ==> is_sextet_char(#[trigger] t[k])
    &&& t.len() > 0 ==> is_last_group(t[t.len() - 3], t[t.len() - 2], t[t.len() - 1])
}

/// The text of any bytes is well formed.
pub proof fn lemma_encoded_shape(bytes: Seq<u8>)
    ensures
        is_well_formed_text(encode_spec(bytes)),
    decreases bytes.len(),
{
    let t = encode_spec(bytes);
    lemma_encode_len(bytes);
    if bytes.len() == 0 {
    } else if bytes.len() == 1 {
        lemma_group_values(bytes[0], 0, 0);
        lemma_sextet_char(bytes[0] as int / 4);
        lemma_sextet_char((bytes[0] as int % 4) * 16);
    } else if bytes.len() == 2 {
        lemma_group_values(bytes[0], bytes[1], 0);
        lemma_sextet_char(bytes[0] as int / 4);
        lemma_sextet_char((bytes[0] as int % 4) * 16 + bytes[1] as int / 16);
        lemma_sextet_char((bytes[1] as int % 16) * 4);
    } else {
        let g = encode_three(bytes[0], bytes[1], bytes[2]);
        let rest = encode_spec(bytes.skip(3));
        lemma_encoded_shape(bytes.skip(3));
        lemma_encode_len(bytes.skip(3));
        lemma_group_values(bytes[0], bytes[1], bytes[2]);
        lemma_sextet_char(bytes[0] as int / 4);
        lemma_sextet_char((bytes[0] as int % 4) * 16 + bytes[1] as int / 16);
        lemma_sextet_char((bytes[1] as int % 16) * 4 + bytes[2] as int / 64);
        lemma_sextet_char(bytes[2] as int % 64);
        assert forall|k: int| 0 <= k < t.len() - 2 implies is_sextet_char(#[trigger] t[k]) by {
            if k >= 4 {
                assert(t[k] == rest[k - 4]);
            } else {
                assert(t[k] == g[k]);
            }
        }
        if rest.len() > 0 {
            assert(t[t.len() - 3] == rest[rest.len() - 3]);
            assert(t[t.len() - 2] == rest[rest.len() - 2]);
            assert(t[t.len() - 1] == rest[rest.len() - 1]);
        } else {
            assert(t[1] == g[1] && t[2] == g[2] && t[3] == g[3]);
        }
    }
}

/// Text that is not well formed encodes nothing.
pub proof fn lemma_not_encoded(text: Seq<char>)
    requires
        !is_well_formed_text(text),
    ensures
        decode_spec(text) is None,
{
    assert forall|bytes: Seq<u8>| encode_spec(bytes) != text by {
        lemma_encoded_shape(bytes);
    }
}

/// The character that stands for the six-bit value `v`.
pub fn char_of_sextet(v: u8) -> (out: char)
    requires
        v < 64,
    ensures
        out == sextet_char(v as int),
{
    if v < 26 {
        (v + 65) as char
    } else if v < 52 {
        (v + 71) as char
    } else if v < 62 {
        (v - 4) as char
    } else if v == 62 {
        '+'
    } else {
        '/'
    }
}

/// The six-bit value that `c` stands for, if `c` is of the alphabet.
pub fn sextet_of(c: char) -> (out: Option<u8>)
    ensures
        out is Some <==> is_sextet_char(c),
        out matches Some(v) ==> v == char_sextet(c) && v < 64,
{
    let code: u32 = c as u32;
    if 'A' <= c && c <= 'Z' {
        Some((code - 65) as u8)
    } else if 'a' <= c && c <= 'z' {
        Some((code - 71) as u8)
    } else if '0' <= c && c <= '9' {
        Some((code + 4) as u8)
    } else if c == '+' {
        Some(62)
    } else if c == '/' {
        Some(63)
    } else {
        None
    }
}

/// The base64 text of `bytes`.
pub fn base64_encode(bytes: &Vec<u8>) -> (out: String)
    ensures
        out@ == encode_spec(bytes@),
{
    let n = bytes.len();
    let mut out = String::new();
    let mut i: usize = 0;
    assert(bytes@.skip(0) =~= bytes@);
    assert(out@ + encode_spec(bytes@) =~= encode_spec(bytes@));
    while n - i >= 3
        invariant
            i <= n,
            n == bytes.len(),
            encode_spec(bytes@) == out@ + encode_spec(bytes@.skip(i as int)),
        decreases n - i,
    {
        let a = bytes[i];
        let b = bytes[i + 1];
        let c = bytes[i + 2];
        proof {
            lemma_group_values(a, b, c);
            assert(bytes@.skip(i as int).skip(3) =~= bytes@.skip(i + 3));
        }
        let ghost before = out@;
        out.push(char_of_sextet(a / 4));
        out.push(char_of_sextet((a % 4) * 16 + b / 16));
        out.push(char_of_sextet((b % 16) * 4 + c / 64));
        out.push(char_of_sextet(c % 64));
        assert(out@ =~= before + encode_three(a, b, c));
        assert(before + (encode_three(a, b, c) + encode_spec(bytes@.skip(i + 3))) =~= (before
            + encode_three(a, b, c)) + encode_spec(bytes@.skip(i + 3)));
        i += 3;
    }
    let ghost before = out@;
    if n - i == 1 {
        let a = bytes[i];
        proof {
            lemma_group_values(a, 0, 0);
        }
        out.push(char_of_sextet(a / 4));
        out.push(char_of_sextet((a % 4) * 16));
        out.push('=');
        out.push('=');
        assert(out@ =~= before + encode_one(a));
    } else if n - i == 2 {
        let a = bytes[i];
        let b = bytes[i + 1];
        proof {
            lemma_group_values(a, b, 0);
        }
        out.push(char_of_sextet(a / 4));
        out.push(char_of_sextet((a % 4) * 16 + b / 16));
        out.push(char_of_sextet((b % 16) * 4));
        out.push('=');
        assert(out@ =~= before + encode_two(a, b));
    } else {
        assert(out@ =~= before + Seq::<char>::empty());
    }
    out
}

/// The bytes of an optional vector.
pub open spec fn bytes_view(bytes: Option<Vec<u8>>) -> Option<Seq<u8>> {
    match bytes {
        Some(v) => Some(v@),
        None => None,
    }
}

/// The text of three bytes is their group.
pub proof fn lemma_encode_three(x: u8, y: u8, z: u8)
    ensures
        encode_spec(seq![x, y, z]) == encode_three(x, y, z),
{
    let group = seq![x, y, z];
    assert(group.skip(3) =~= Seq::<u8>::empty());
    assert(encode_spec(group.skip(3)) =~= Seq::<char>::empty());
    assert(encode_spec(group) =~= encode_three(x, y, z));
}

/// A full group of characters of the alphabet is the text of the three
/// bytes that its values spell.
pub proof fn lemma_regroup_three(c0: char, c1: char, c2: char, c3: char)
    requires
        is_sextet_char(c0),
        is_sextet_char(c1),
        is_sextet_char(c2),
        is_sextet_char(c3),
    ensures
        ({
            let x = char_sextet(c0) * 4 + char_sextet(c1) / 16;
            let y = (char_sextet(c1) % 16) * 16 + char_sextet(c2) / 4;
            let z = (char_sextet(c2) % 4) * 64 + char_sextet(c3);
            &&& 0 <= x < 256
            &&& 0 <= y < 256
            &&& 0 <= z < 256
            &&& encode_three(x as u8, y as u8, z as u8) == seq![c0, c1, c2, c3]
        }),
{
    lemma_char_sextet(c0);
    lemma_char_sextet(c1);
    lemma_char_sextet(c2);
    lemma_char_sextet(c3);
    let x = char_sextet(c0) * 4 + char_sextet(c1) / 16;
    let y = (char_sextet(c1) % 16) * 16 + char_sextet(c2) / 4;
    let z = (char_sextet(c2) % 4) * 64 + char_sextet(c3);
    assert(x / 4 == char_sextet(c0));
    assert((x % 4) * 16 + y / 16 == char_sextet(c1));
    assert((y % 16) * 4 + z / 64 == char_sextet(c2));
    assert(z % 64 == char_sextet(c3));
    assert(encode_three(x as u8, y as u8, z as u8) =~= seq![c0, c1, c2, c3]);
}

/// A last group with one padding character is the text of the two bytes
/// that its values spell, where its third character carries no stray bits.
pub proof fn lemma_regroup_two(c0: char, c1: char, c2: char)
    requires
        is_sextet_char(c0),
        is_sextet_char(c1),
        is_sextet_char(c2),
        char_sextet(c2) % 4 == 0,
    ensures
        ({
            let x = char_sextet(c0) * 4 + char_sextet(c1) / 16;
            let y = (char_sextet(c1) % 16) * 16 + char_sextet(c2) / 4;
            &&& 0 <= x < 256
            &&& 0 <= y < 256
            &&& encode_two(x as u8, y as u8) == seq![c0, c1, c2, '=']
        }),
{
    lemma_char_sextet(c0);
    lemma_char_sextet(c1);
    lemma_char_sextet(c2);
    let x = char_sextet(c0) * 4 + char_sextet(c1) / 16;
    let y = (char_sextet(c1) % 16) * 16 + char_sextet(c2) / 4;
    assert(x / 4 == char_sextet(c0));
    assert((x % 4) * 16 + y / 16 == char_sextet(c1));
    assert((y % 16) * 4 == char_sextet(c2));
    assert(encode_two(x as u8, y as u8) =~= seq![c0, c1, c2, '=']);
}

/// A last group with two padding characters is the text of the byte that
/// its values spell, where its second character carries no stray bits.
pub proof fn lemma_regroup_one(c0: char, c1: char)
    requires
        is_sextet_char(c0),
        is_sextet_char(c1),
        char_sextet(c1) % 16 == 0,
    ensures
        ({
            let x = char_sextet(c0) * 4 + char_sextet(c1) / 16;
            &&& 0 <= x < 256
            &&& encode_one(x as u8) == seq![c0, c1, '=', '=']
        }),
{
    lemma_char_sextet(c0);
    lemma_char_sextet(c1);
    let x = char_sextet(c0) * 4 + char_sextet(c1) / 16;
    assert(x / 4 == char_sextet(c0));
    assert((x % 4) * 16 == char_sextet(c1));
    assert(encode_one(x as u8) =~= seq![c0, c1, '=', '=']);
}

/// The three bytes of a full group, or `None` where one of its characters
/// is not of the alphabet.
fn decode_full_group(c0: char, c1: char, c2: char, c3: char) -> (out: Option<Vec<u8>>)
    ensures
        out is Some <==> is_sextet_char(c0) && is_sextet_char(c1) && is_sextet_char(c2)
            && is_sextet_char(c3),
        out matches Some(group) ==> group@.len() == 3 && encode_spec(group@) == seq![
            c0,
            c1,
            c2,
            c3,
        ],
{
    match (sextet_of(c0), sextet_of(c1), sextet_of(c2), sextet_of(c3)) {
        (Some(v0), Some(v1), Some(v2), Some(v3)) => {
            proof {
                lemma_regroup_three(c0, c1, c2, c3);
            }
            let x: u8 = v0 * 4 + v1 / 16;
            let y: u8 = (v1 % 16) * 16 + v2 / 4;
            let z: u8 = (v2 % 4) * 64 + v3;
            let group = vec![x, y, z];
            proof {
                assert(group@ =~= seq![x, y, z]);
                lemma_encode_three(x, y, z);
            }
            Some(group)
        },
        _ => None,
    }
}

/// The bytes of a last group, or `None` where the group is not one that
/// ends a text.
fn decode_last_group(c0: char, c1: char, c2: char, c3: char) -> (out: Option<Vec<u8>>)
    ensures
        out is Some <==> is_sextet_char(c0) && is_sextet_char(c1) && is_last_group(c1, c2, c3),
        out matches Some(group) ==> encode_spec(group@) == seq![c0, c1, c2, c3],
{
    if c2 != '=' && c3 != '=' {
        return decode_full_group(c0, c1, c2, c3);
    }
    let (v0, v1) = match (sextet_of(c0), sextet_of(c1)) {
        (Some(v0), Some(v1)) => (v0, v1),
        _ => {
            return None;
        },
    };
    if c2 == '=' {
        if c3 != '=' || v1 % 16 != 0 {
            return None;
        }
        proof {
            lemma_regroup_one(c0, c1);
        }
        let x: u8 = v0 * 4 + v1 / 16;
        let group = vec![x];
        assert(group@ =~= seq![x]);
        assert(encode_spec(group@) =~= encode_one(x));
        Some(group)
    } else {
        let v2 = match sextet_of(c2) {
            Some(v2) => v2,
            None => {
                return None;
            },
        };
        if v2 % 4 != 0 {
            return None;
        }
        proof {
            lemma_regroup_two(c0, c1, c2);
        }
        let x: u8 = v0 * 4 + v1 / 16;
        let y: u8 = (v1 % 16) * 16 + v2 / 4;
        let group = vec![x, y];
        assert(group@ =~= seq![x, y]);
        assert(encode_spec(group@) =~= encode_two(x, y));
        Some(group)
    }
}

/// Appends `group` to `out`.
fn append_bytes(out: &mut Vec<u8>, group: &Vec<u8>)
    ensures
        final(out)@ == old(out)@ + group@,
{
    let mut k: usize = 0;
    while k < group.len()
        invariant
            k <= group.len(),
            out@ == old(out)@ + group@.take(k as int),
        decreases group.len() - k,
    {
        out.push(group[k]);
        k += 1;
        assert(out@ =~= old(out)@ + group@.take(k as int));
    }
    assert(group@.take(group@.len() as int) =~= group@);
}

/// The bytes that `text` is the base64 text of, or `None` where it is the
/// text of none.
pub fn base64_decode(text: &str) -> (out: Option<Vec<u8>>)
    ensures
        bytes_view(out) == decode_spec(text@),
{
    let chars = chars_of(text);
    let n = chars.len();
    let mut out: Vec<u8> = Vec::new();
    if n % 4 != 0 {
        proof {
            lemma_not_encoded(text@);
        }
        return None;
    }
    if n == 0 {
        proof {
            assert(encode_spec(out@) =~= text@);
            lemma_decoded(text@, out@);
        }
        return Some(out);
    }
    let mut i: usize = 0;
    assert(encode_spec(out@) =~= text@.take(0));
    while n - i > 4
        invariant
            i % 4 == 0,
            n % 4 == 0,
            i + 4 <= n,
            n == chars.len(),
            chars@ == text@,
            out@.len() % 3 == 0,
            encode_spec(out@) == text@.take(i as int),
        decreases n - i,
    {
        let group = match decode_full_group(chars[i], chars[i + 1], chars[i + 2], chars[i + 3]) {
            Some(group) => group,
            None => {
                proof {
                    lemma_not_encoded(text@);
                }
                return None;
            },
        };
        proof {
            lemma_encode_append(out@, group@);
            assert(text@.take(i + 4) =~= text@.take(i as int) + seq![
                text@[i as int],
                text@[i + 1],
                text@[i + 2],
                text@[i + 3],
            ]);
        }
        append_bytes(&mut out, &group);
        i += 4;
    }
    let group = match decode_last_group(chars[i], chars[i + 1], chars[i + 2], chars[i + 3]) {
        Some(group) => group,
        None => {
            proof {
                lemma_not_encoded(text@);
            }
            return None;
        },
    };
    proof {
        lemma_encode_append(out@, group@);
        assert(text@ =~= text@.take(i as int) + seq![
            text@[i as int],
            text@[i + 1],
            text@[i + 2],
            text@[i + 3],
        ]);
    }
    append_bytes(&mut out, &group);
    proof {
        lemma_decoded(text@, out@);
    }
    Some(out)
}

/// `String::from_utf8` turns bytes into the string they spell: it succeeds
/// on valid UTF-8, with the characters that the bytes decode to, and fails
/// on anything else.
#[verifier::external_body]
fn string_from_utf8(bytes: Vec<u8>) -> (out: Option<String>)
    ensures
        out is Some <==> valid_utf8(bytes@),
        out matches Some(s) ==> s@ == decode_utf8(bytes@),
{
    String::from_utf8(bytes).ok()
}

/// The content of a storage unit that holds `document`: the base64 text of
/// the document's UTF-8 bytes.
pub open spec fn storage_text(document: Seq<char>) -> Seq<char> {
    encode_spec(encode_utf8(document))
}

/// The document that a storage unit with content `text` holds, or `None`
/// where the content is not the base64 text of UTF-8 bytes.
pub open spec fn stored_document(text: Seq<char>) -> Option<Seq<char>> {
    match decode_spec(text) {
        Some(bytes) => if valid_utf8(bytes) {
            Some(decode_utf8(bytes))
        } else {
            None
        },
        None => None,
    }
}

/// Encoding round trip: the content written for a document is read back as
/// that document.
pub proof fn law_storage_round_trip(document: Seq<char>)
    ensures
        stored_document(storage_text(document)) == Some(document),
{
    lemma_decode_encode(encode_utf8(document));
    vstd::utf8::encode_utf8_valid_utf8(document);
    vstd::utf8::encode_utf8_decode_utf8(document);
}

/// The content to write to a storage unit that is to hold `document`.
pub fn encode(document: &str) -> (out: String)
    ensures
        out@ == storage_text(document@),
{
    let bytes = document.as_bytes_vec();
    base64_encode(&bytes)
}

/// The document that a storage unit with content `stored` holds. Content
/// that is not the base64 text of UTF-8 bytes is corrupt: an `Other`
/// failure.
pub fn decode(stored: &str) -> (out: Result<String, StoreError>)
    ensures
        match stored_document(stored@) {
            Some(document) => out matches Ok(s) && s@ == document,
            None => out matches Err(e) && e.kind == ErrorKind::Other,
        },
{
    let bytes = match base64_decode(stored) {
        Some(bytes) => bytes,
        None => {
            return Err(other_error("The storage unit is not valid base64."));
        },
    };
    match string_from_utf8(bytes) {
        Some(document) => Ok(document),
        None => Err(other_error("The storage unit does not hold text.")),
    }
}

} // verus!
