//! The text-safe encoding of byte strings that are used as relational keys
//! or stored in text columns: base64 with the standard alphabet and padding.
//!
//! Encoding and decoding are stated over byte sequences and proved to be
//! inverse to each other, so that a key is found again under exactly the
//! bytes it was stored with.

use vstd::prelude::*;
use vstd::utf8::*;

verus! {

/// The padding symbol, `=`.
pub const PAD: u8 = 61;

/// The symbol that stands for the six-bit value `v`.
pub open spec fn symbol_of(v: int) -> u8 {
    if v < 26 {
        (v + 65) as u8
    } else if v < 52 {
        (v + 71) as u8
    } else if v < 62 {
        (v - 4) as u8
    } else if v == 62 {
        43u8
    } else {
        47u8
    }
}

/// The six-bit value that the symbol `c` stands for, if it is one of the
/// sixty-four symbols of the alphabet.
pub open spec fn value_of(c: u8) -> Option<int> {
    if 65 <= c <= 90 {
        Some(c - 65)
    } else if 97 <= c <= 122 {
        Some(c - 71)
    } else if 48 <= c <= 57 {
        Some(c + 4)
    } else if c == 43 {
        Some(62)
    } else if c == 47 {
        Some(63)
    } else {
        None
    }
}

/// The four symbols of a full group of three bytes.
pub open spec fn encode_group(a: u8, b: u8, c: u8) -> Seq<u8> {
    seq![
        symbol_of(a as int / 4),
        symbol_of((a as int % 4) * 16 + b as int / 16),
        symbol_of((b as int % 16) * 4 + c as int / 64),
        symbol_of(c as int % 64),
    ]
}

/// The encoding of a byte string: full groups of three bytes give four
/// symbols each, a last group of one or two bytes is padded to four.
pub open spec fn encode_spec(bytes: Seq<u8>) -> Seq<u8>
    decreases bytes.len(),
{
    if bytes.len() == 0 {
        Seq::empty()
    } else if bytes.len() == 1 {
        seq![symbol_of(bytes[0] as int / 4), symbol_of((bytes[0] as int % 4) * 16), PAD, PAD]
    } else if bytes.len() == 2 {
        seq![
            symbol_of(bytes[0] as int / 4),
            symbol_of((bytes[0] as int % 4) * 16 + bytes[1] as int / 16),
            symbol_of((bytes[1] as int % 16) * 4),
            PAD,
        ]
    } else {
        encode_group(bytes[0], bytes[1], bytes[2]) + encode_spec(
            bytes.subrange(3, bytes.len() as int),
        )
    }
}

/// The three bytes of four symbols, if all four belong to the alphabet.
pub open spec fn decode_group(w: u8, x: u8, y: u8, z: u8) -> Option<Seq<u8>> {
    match (value_of(w), value_of(x), value_of(y), value_of(z)) {
        (Some(p), Some(q), Some(r), Some(s)) => Some(
            seq![(p * 4 + q / 16) as u8, ((q % 16) * 16 + r / 4) as u8, ((r % 4) * 64 + s) as u8],
        ),
        _ => None,
    }
}

/// The bytes of the last four symbols of a text, which may end in one or
/// two padding symbols. Bits that no byte takes up must be zero.
pub open spec fn decode_last(w: u8, x: u8, y: u8, z: u8) -> Option<Seq<u8>> {
    if z != PAD {
        decode_group(w, x, y, z)
    } else if y != PAD {
        match (value_of(w), value_of(x), value_of(y)) {
            (Some(p), Some(q), Some(r)) => if r % 4 == 0 {
                Some(seq![(p * 4 + q / 16) as u8, ((q % 16) * 16 + r / 4) as u8])
            } else {
                None
            },
            _ => None,
        }
    } else {
        match (value_of(w), value_of(x)) {
            (Some(p), Some(q)) => if q % 16 == 0 {
                Some(seq![(p * 4 + q / 16) as u8])
            } else {
                None
            },
            _ => None,
        }
    }
}

/// The byte string that a text encodes, or `None` where the text is not the
/// encoding of any byte string.
pub open spec fn decode_spec(text: Seq<u8>) -> Option<Seq<u8>>
    decreases text.len(),
{
    if text.len() == 0 {
        Some(Seq::empty())
    } else if text.len() < 4 {
        None
    } else if text.len() == 4 {
        decode_last(text[0], text[1], text[2], text[3])
    } else {
        match (
            decode_group(text[0], text[1], text[2], text[3]),
            decode_spec(text.subrange(4, text.len() as int)),
        ) {
            (Some(head), Some(rest)) => Some(head + rest),
            _ => None,
        }
    }
}

/// Every six-bit value has a symbol of the alphabet, which is not the
/// padding symbol and stands for that value again.
pub proof fn lemma_symbol_value(v: int)
    requires
        0 <= v < 64,
    ensures
        value_of(symbol_of(v)) == Some(v),
        symbol_of(v) != PAD,
        symbol_of(v) < 128,
{
}

/// Every symbol of the alphabet is the symbol of its value.
pub proof fn lemma_value_symbol(c: u8)
    requires
        value_of(c) is Some,
    ensures
        0 <= value_of(c)->0 < 64,
        symbol_of(value_of(c)->0) == c,
{
}

/// The encoding has four symbols for every three bytes begun.
pub proof fn lemma_encode_len(bytes: Seq<u8>)
    ensures
        encode_spec(bytes).len() == 4 * ((bytes.len() + 2) / 3),
    decreases bytes.len(),
{
    if bytes.len() >= 3 {
        lemma_encode_len(bytes.subrange(3, bytes.len() as int));
    }
}

/// The four symbols of three bytes give those three bytes again.
proof fn lemma_symbols_group(a: u8, b: u8, c: u8)
    ensures
        encode_group(a, b, c).len() == 4,
        decode_group(
            encode_group(a, b, c)[0],
            encode_group(a, b, c)[1],
            encode_group(a, b, c)[2],
            encode_group(a, b, c)[3],
        ) == Some(seq![a, b, c]),
        encode_group(a, b, c)[3] != PAD,
{
    let p = a as int / 4;
    let q = (a as int % 4) * 16 + b as int / 16;
    let r = (b as int % 16) * 4 + c as int / 64;
    let s = c as int % 64;
    lemma_symbol_value(p);
    lemma_symbol_value(q);
    lemma_symbol_value(r);
    lemma_symbol_value(s);
    assert(p * 4 + q / 16 == a && (q % 16) * 16 + r / 4 == b && (r % 4) * 64 + s == c);
    let g = encode_group(a, b, c);
    assert(decode_group(g[0], g[1], g[2], g[3])->0 =~= seq![a, b, c]);
}

/// The padded symbols of one or two last bytes give those bytes again.
proof fn lemma_symbols_last(bytes: Seq<u8>)
    requires
        1 <= bytes.len() <= 2,
    ensures
        encode_spec(bytes).len() == 4,
        decode_last(
            encode_spec(bytes)[0],
            encode_spec(bytes)[1],
            encode_spec(bytes)[2],
            encode_spec(bytes)[3],
        ) == Some(bytes),
{
    let t = encode_spec(bytes);
    let a = bytes[0] as int;
    if bytes.len() == 1 {
        let p = a / 4;
        let q = (a % 4) * 16;
        lemma_symbol_value(p);
        lemma_symbol_value(q);
        assert(p * 4 + q / 16 == a && q % 16 == 0);
        assert(decode_last(t[0], t[1], t[2], t[3])->0 =~= bytes);
    } else {
        let b = bytes[1] as int;
        let p = a / 4;
        let q = (a % 4) * 16 + b / 16;
        let r = (b % 16) * 4;
        lemma_symbol_value(p);
        lemma_symbol_value(q);
        lemma_symbol_value(r);
        assert(p * 4 + q / 16 == a && (q % 16) * 16 + r / 4 == b && r % 4 == 0);
        assert(decode_last(t[0], t[1], t[2], t[3])->0 =~= bytes);
    }
}

/// Decoding an encoding gives the bytes back, whatever they are.
pub proof fn lemma_decode_encode(bytes: Seq<u8>)
    ensures
        decode_spec(encode_spec(bytes)) == Some(bytes),
    decreases bytes.len(),
{
    let text = encode_spec(bytes);
    if bytes.len() == 0 {
    } else if bytes.len() <= 2 {
        lemma_symbols_last(bytes);
    } else {
        let rest = bytes.subrange(3, bytes.len() as int);
        let group = encode_group(bytes[0], bytes[1], bytes[2]);
        lemma_symbols_group(bytes[0], bytes[1], bytes[2]);
        lemma_decode_encode(rest);
        lemma_encode_len(rest);
        let head = seq![bytes[0], bytes[1], bytes[2]];
        assert(text == group + encode_spec(rest));
        assert(text[0] == group[0] && text[1] == group[1] && text[2] == group[2] && text[3]
            == group[3]);
        assert(head + rest =~= bytes);
        if rest.len() == 0 {
            assert(text.len() == 4);
            assert(bytes =~= head);
        } else {
            assert(text.subrange(4, text.len() as int) =~= encode_spec(rest));
        }
    }
}

/// Three bytes taken from four symbols give those four symbols again.
proof fn lemma_group_symbols(w: u8, x: u8, y: u8, z: u8)
    requires
        decode_group(w, x, y, z) is Some,
    ensures
        decode_group(w, x, y, z)->0.len() == 3,
        encode_group(
            decode_group(w, x, y, z)->0[0],
            decode_group(w, x, y, z)->0[1],
            decode_group(w, x, y, z)->0[2],
        ) == seq![w, x, y, z],
{
    lemma_value_symbol(w);
    lemma_value_symbol(x);
    lemma_value_symbol(y);
    lemma_value_symbol(z);
    let p = value_of(w)->0;
    let q = value_of(x)->0;
    let r = value_of(y)->0;
    let s = value_of(z)->0;
    let a = p * 4 + q / 16;
    let b = (q % 16) * 16 + r / 4;
    let c = (r % 4) * 64 + s;
    assert(a / 4 == p && (a % 4) * 16 + b / 16 == q);
    assert((b % 16) * 4 + c / 64 == r && c % 64 == s);
    let g = decode_group(w, x, y, z)->0;
    assert(g[0] as int == a && g[1] as int == b && g[2] as int == c);
    assert(encode_group(g[0], g[1], g[2]) =~= seq![w, x, y, z]);
}

/// The bytes of a last group of four symbols give those symbols again.
proof fn lemma_last_symbols(w: u8, x: u8, y: u8, z: u8)
    requires
        decode_last(w, x, y, z) is Some,
    ensures
        encode_spec(decode_last(w, x, y, z)->0) == seq![w, x, y, z],
{
    let bytes = decode_last(w, x, y, z)->0;
    if z != PAD {
        lemma_group_symbols(w, x, y, z);
        let rest = bytes.subrange(3, bytes.len() as int);
        assert(rest =~= Seq::<u8>::empty());
        assert(encode_spec(rest) =~= Seq::<u8>::empty());
        assert(encode_spec(bytes) =~= encode_group(bytes[0], bytes[1], bytes[2]));
    } else if y != PAD {
        lemma_value_symbol(w);
        lemma_value_symbol(x);
        lemma_value_symbol(y);
        let p = value_of(w)->0;
        let q = value_of(x)->0;
        let r = value_of(y)->0;
        let a = p * 4 + q / 16;
        let b = (q % 16) * 16 + r / 4;
        assert(a / 4 == p && (a % 4) * 16 + b / 16 == q && (b % 16) * 4 == r);
        assert(bytes[0] as int == a && bytes[1] as int == b);
        assert(encode_spec(bytes) =~= seq![w, x, y, z]);
    } else {
        lemma_value_symbol(w);
        lemma_value_symbol(x);
        let p = value_of(w)->0;
        let q = value_of(x)->0;
        let a = p * 4 + q / 16;
        assert(a / 4 == p && (a % 4) * 16 == q);
        assert(bytes[0] as int == a);
        assert(encode_spec(bytes) =~= seq![w, x, y, z]);
    }
}

/// A text that decodes is the encoding of what it decodes to: no byte string
/// has two texts.
pub proof fn lemma_encode_decode(text: Seq<u8>)
    requires
        decode_spec(text) is Some,
    ensures
        encode_spec(decode_spec(text)->0) == text,
    decreases text.len(),
{
    let bytes = decode_spec(text)->0;
    if text.len() == 0 {
    } else if text.len() == 4 {
        lemma_last_symbols(text[0], text[1], text[2], text[3]);
        assert(text =~= seq![text[0], text[1], text[2], text[3]]);
    } else {
        let tail = text.subrange(4, text.len() as int);
        let head = decode_group(text[0], text[1], text[2], text[3])->0;
        let rest = decode_spec(tail)->0;
        lemma_group_symbols(text[0], text[1], text[2], text[3]);
        lemma_encode_decode(tail);
        assert(bytes == head + rest);
        assert(bytes.subrange(3, bytes.len() as int) =~= rest);
        assert(bytes[0] == head[0] && bytes[1] == head[1] && bytes[2] == head[2]);
        assert(seq![text[0], text[1], text[2], text[3]] + tail =~= text);
    }
}

/// The symbol of a six-bit value.
fn symbol(v: u8) -> (c: u8)
    requires
        v < 64,
    ensures
        c == symbol_of(v as int),
{
    if v < 26 {
        v + 65
    } else if v < 52 {
        v + 71
    } else if v < 62 {
        v - 4
    } else if v == 62 {
        43
    } else {
        47
    }
}

/// The six-bit value of a symbol, or `None` for a byte outside the alphabet.
fn value(c: u8) -> (v: Option<u8>)
    ensures
        match v {
            Some(x) => value_of(c) == Some(x as int) && x < 64,
            None => value_of(c) is None,
        },
{
    if 65 <= c && c <= 90 {
        Some(c - 65)
    } else if 97 <= c && c <= 122 {
        Some(c - 71)
    } else if 48 <= c && c <= 57 {
        Some(c + 4)
    } else if c == 43 {
        Some(62)
    } else if c == 47 {
        Some(63)
    } else {
        None
    }
}

/// Encodes a byte string as text. Any bytes are accepted, also those that
/// are no valid text themselves.
pub fn encode(bytes: &[u8]) -> (text: Vec<u8>)
    ensures
        text@ == encode_spec(bytes@),
{
    let n: usize = bytes.len();
    let mut text: Vec<u8> = Vec::new();
    let mut i: usize = 0;
    proof {
        assert(bytes@.subrange(0, n as int) =~= bytes@);
        assert(text@ + encode_spec(bytes@) =~= encode_spec(bytes@));
    }
    while n - i >= 3
        invariant
            i <= n,
            n == bytes@.len(),
            encode_spec(bytes@) == text@ + encode_spec(bytes@.subrange(i as int, n as int)),
        decreases n - i,
    {
        let a: u8 = bytes[i];
        let b: u8 = bytes[i + 1];
        let c: u8 = bytes[i + 2];
        proof {
            let rest = bytes@.subrange(i as int, n as int);
            assert(rest.subrange(3, rest.len() as int) =~= bytes@.subrange(i + 3, n as int));
            assert(text@ + (encode_group(a, b, c) + encode_spec(bytes@.subrange(i + 3, n as int)))
                =~= text@ + encode_group(a, b, c) + encode_spec(
                bytes@.subrange(i + 3, n as int),
            ));
            assert(text@ + encode_group(a, b, c) =~= text@.push(encode_group(a, b, c)[0]).push(
                encode_group(a, b, c)[1],
            ).push(encode_group(a, b, c)[2]).push(encode_group(a, b, c)[3]));
        }
        text.push(symbol(a / 4));
        text.push(symbol((a % 4) * 16 + b / 16));
        text.push(symbol((b % 16) * 4 + c / 64));
        text.push(symbol(c % 64));
        i += 3;
    }
    let ghost rest = bytes@.subrange(i as int, n as int);
    let ghost done = text@;
    if n - i == 1 {
        let a: u8 = bytes[i];
        text.push(symbol(a / 4));
        text.push(symbol((a % 4) * 16));
        text.push(PAD);
        text.push(PAD);
        assert(text@ =~= done + encode_spec(rest));
    } else if n - i == 2 {
        let a: u8 = bytes[i];
        let b: u8 = bytes[i + 1];
        text.push(symbol(a / 4));
        text.push(symbol((a % 4) * 16 + b / 16));
        text.push(symbol((b % 16) * 4));
        text.push(PAD);
        assert(text@ =~= done + encode_spec(rest));
    } else {
        assert(text@ =~= done + encode_spec(rest));
    }
    text
}

/// Decodes a text. Gives the bytes where the text is the encoding of a byte
/// string, and `None` for every other text: a length that is no multiple of
/// four, a byte outside the alphabet, padding out of place, or set bits that
/// no byte takes up.
pub fn decode(text: &[u8]) -> (bytes: Option<Vec<u8>>)
    ensures
        match bytes {
            Some(b) => decode_spec(text@) == Some(b@),
            None => decode_spec(text@) is None,
        },
{
    let n: usize = text.len();
    let mut bytes: Vec<u8> = Vec::new();
    if n == 0 {
        assert(bytes@ =~= Seq::<u8>::empty());
        return Some(bytes);
    }
    let mut i: usize = 0;
    proof {
        assert(text@.subrange(0, n as int) =~= text@);
        match decode_spec(text@) {
            Some(rest) => {
                assert(bytes@ + rest =~= rest);
            },
            None => {},
        }
    }
    while n - i > 4
        invariant
            i < n,
            n == text@.len(),
            decode_spec(text@) == match decode_spec(text@.subrange(i as int, n as int)) {
                Some(rest) => Some(bytes@ + rest),
                None => None::<Seq<u8>>,
            },
        decreases n - i,
    {
        let ghost here = text@.subrange(i as int, n as int);
        proof {
            assert(here.subrange(4, here.len() as int) =~= text@.subrange(i + 4, n as int));
        }
        let group: Option<(u8, u8, u8)> = decode_full(text[i], text[i + 1], text[i + 2], text[i + 3]);
        match group {
            None => {
                return None;
            },
            Some((a, b, c)) => {
                let ghost before = bytes@;
                bytes.push(a);
                bytes.push(b);
                bytes.push(c);
                proof {
                    let head = seq![a, b, c];
                    assert(bytes@ =~= before + head);
                    match decode_spec(text@.subrange(i + 4, n as int)) {
                        Some(rest) => {
                            assert(before + (head + rest) =~= bytes@ + rest);
                        },
                        None => {},
                    }
                }
            },
        }
        i += 4;
    }
    if n - i < 4 {
        return None;
    }
    let w: u8 = text[i];
    let x: u8 = text[i + 1];
    let y: u8 = text[i + 2];
    let z: u8 = text[i + 3];
    let ghost before = bytes@;
    if z != PAD {
        match decode_full(w, x, y, z) {
            None => None,
            Some((a, b, c)) => {
                bytes.push(a);
                bytes.push(b);
                bytes.push(c);
                assert(bytes@ =~= before + seq![a, b, c]);
                Some(bytes)
            },
        }
    } else if y != PAD {
        match (value(w), value(x), value(y)) {
            (Some(p), Some(q), Some(r)) => {
                if r % 4 == 0 {
                    bytes.push(p * 4 + q / 16);
                    bytes.push((q % 16) * 16 + r / 4);
                    assert(bytes@ =~= before + decode_last(w, x, y, z)->0);
                    Some(bytes)
                } else {
                    None
                }
            },
            _ => None,
        }
    } else {
        match (value(w), value(x)) {
            (Some(p), Some(q)) => {
                if q % 16 == 0 {
                    bytes.push(p * 4 + q / 16);
                    assert(bytes@ =~= before + decode_last(w, x, y, z)->0);
                    Some(bytes)
                } else {
                    None
                }
            },
            _ => None,
        }
    }
}

/// The three bytes of four symbols of the alphabet.
fn decode_full(w: u8, x: u8, y: u8, z: u8) -> (group: Option<(u8, u8, u8)>)
    ensures
        match group {
            Some((a, b, c)) => decode_group(w, x, y, z) == Some(seq![a, b, c]),
            None => decode_group(w, x, y, z) is None,
        },
{
    match (value(w), value(x), value(y), value(z)) {
        (Some(p), Some(q), Some(r), Some(s)) => Some(
            (p * 4 + q / 16, (q % 16) * 16 + r / 4, (r % 4) * 64 + s),
        ),
        _ => None,
    }
}

/// The bytes of a text: its UTF-8 form.
pub open spec fn text_bytes(text: Seq<char>) -> Seq<u8> {
    encode_utf8(text)
}

/// An encoding holds symbols of the alphabet and padding only: plain ASCII.
pub proof fn lemma_encode_ascii(bytes: Seq<u8>)
    ensures
        forall|i: int| 0 <= i < encode_spec(bytes).len() ==> encode_spec(bytes)[i] < 128,
    decreases bytes.len(),
{
    if bytes.len() == 0 {
    } else if bytes.len() == 1 {
        let a = bytes[0] as int;
        lemma_symbol_value(a / 4);
        lemma_symbol_value((a % 4) * 16);
    } else if bytes.len() == 2 {
        let a = bytes[0] as int;
        let b = bytes[1] as int;
        lemma_symbol_value(a / 4);
        lemma_symbol_value((a % 4) * 16 + b / 16);
        lemma_symbol_value((b % 16) * 4);
    } else {
        let a = bytes[0] as int;
        let b = bytes[1] as int;
        let c = bytes[2] as int;
        lemma_symbol_value(a / 4);
        lemma_symbol_value((a % 4) * 16 + b / 16);
        lemma_symbol_value((b % 16) * 4 + c / 64);
        lemma_symbol_value(c % 64);
        let rest = encode_spec(bytes.subrange(3, bytes.len() as int));
        lemma_encode_ascii(bytes.subrange(3, bytes.len() as int));
        let text = encode_spec(bytes);
        assert forall|i: int| 0 <= i < text.len() implies text[i] < 128 by {
            if i >= 4 {
                assert(text[i] == rest[i - 4]);
            }
        }
    }
}

/// Bytes below 128 are a text of as many characters, one for each byte.
pub proof fn lemma_ascii_is_text(bytes: Seq<u8>)
    requires
        forall|i: int| 0 <= i < bytes.len() ==> bytes[i] < 128,
    ensures
        valid_utf8(bytes),
        decode_utf8(bytes) == Seq::new(bytes.len(), |i: int| bytes[i] as char),
        text_bytes(Seq::new(bytes.len(), |i: int| bytes[i] as char)) == bytes,
{
    let chars = Seq::new(bytes.len(), |i: int| bytes[i] as char);
    assert(is_ascii_chars(chars));
    is_ascii_chars_encode_utf8(chars);
    assert(encode_utf8(chars) =~= bytes);
    encode_utf8_valid_utf8(chars);
    encode_utf8_decode_utf8(chars);
}

/// `String::from_utf8` of the standard library: gives the text whose UTF-8
/// form the bytes are, and nothing where they are no UTF-8 form of a text.
#[verifier::external_body]
fn string_from_utf8(bytes: Vec<u8>) -> (text: Option<String>)
    ensures
        text is Some <==> valid_utf8(bytes@),
        text matches Some(s) ==> s@ == decode_utf8(bytes@),
{
    String::from_utf8(bytes).ok()
}

/// The text that the bytes are the UTF-8 form of, or `None` where they are
/// the form of no text.
pub fn text_from_bytes(bytes: Vec<u8>) -> (text: Option<String>)
    ensures
        match text {
            Some(s) => valid_utf8(bytes@) && text_bytes(s@) == bytes@,
            None => !valid_utf8(bytes@),
        },
{
    proof {
        if valid_utf8(bytes@) {
            decode_utf8_encode_utf8(bytes@);
        }
    }
    string_from_utf8(bytes)
}

/// The text that encodes a byte string.
pub closed spec fn encoded_text(bytes: Seq<u8>) -> Seq<char> {
    decode_utf8(encode_spec(bytes))
}

/// The byte string that a text encodes, or `None` where it encodes none.
pub closed spec fn decoded_text(text: Seq<char>) -> Option<Seq<u8>> {
    decode_spec(text_bytes(text))
}

/// What a text decodes to is what its bytes decode to.
pub proof fn lemma_decoded_text_of_bytes(text: Seq<char>)
    ensures
        decoded_text(text) == decode_spec(text_bytes(text)),
{
}

/// A text that encodes a byte string decodes to it, whatever the bytes are:
/// nothing is lost on the way into a text column and back.
pub proof fn lemma_decoded_encoded_text(bytes: Seq<u8>)
    ensures
        decoded_text(encoded_text(bytes)) == Some(bytes),
        text_bytes(encoded_text(bytes)) == encode_spec(bytes),
{
    lemma_encode_ascii(bytes);
    lemma_ascii_is_text(encode_spec(bytes));
    decode_utf8_encode_utf8(encode_spec(bytes));
    lemma_decode_encode(bytes);
}

/// A text that decodes is the text that encodes what it decodes to: two
/// different texts never stand for the same bytes.
pub proof fn lemma_encoded_decoded_text(text: Seq<char>)
    requires
        decoded_text(text) is Some,
    ensures
        encoded_text(decoded_text(text)->0) == text,
{
    lemma_encode_decode(text_bytes(text));
    encode_utf8_decode_utf8(text);
}

/// Two byte strings with the same text are the same byte string: a key is
/// found under the bytes it was stored with, and under no others.
pub proof fn lemma_encoded_text_injective(a: Seq<u8>, b: Seq<u8>)
    requires
        encoded_text(a) == encoded_text(b),
    ensures
        a == b,
{
    lemma_decoded_encoded_text(a);
    lemma_decoded_encoded_text(b);
}

/// Encodes a byte string as a text that is fit for a text column or a key.
pub fn encode_text(bytes: &[u8]) -> (text: String)
    ensures
        text@ == encoded_text(bytes@),
{
    let encoded: Vec<u8> = encode(bytes);
    proof {
        lemma_encode_ascii(bytes@);
        lemma_ascii_is_text(encoded@);
    }
    match text_from_bytes(encoded) {
        Some(text) => {
            proof {
                encode_utf8_decode_utf8(text@);
            }
            text
        },
        None => String::new(),
    }
}

/// Decodes a text. Gives `None` for every text that `encode_text` never
/// returns.
pub fn decode_text(text: &str) -> (bytes: Option<Vec<u8>>)
    ensures
        match bytes {
            Some(b) => decoded_text(text@) == Some(b@),
            None => decoded_text(text@) is None,
        },
{
    decode(text.as_bytes())
}

} // verus!
