//! Base64 for the binary leg of the wire protocol.
//!
//! Binary payloads ride a string channel, so they are base64-encoded for
//! transport (standard alphabet, `=` padding) and decoded back on receipt.
//! Encoding and decoding are defined here as specification functions over
//! byte and character sequences, the executable functions are proved against
//! them, and the decoder is proved to recover every encoded payload byte for
//! byte.

use crate::strutil::push_char;
use vstd::prelude::*;

verus! {

/// The character of the standard base64 alphabet at index `v`.
pub open spec fn b64_char_of(v: int) -> char
    recommends
        0 <= v < 64,
{
    if v < 26 {
        ('A' as int + v) as char
    } else if v < 52 {
        ('a' as int + (v - 26)) as char
    } else if v < 62 {
        ('0' as int + (v - 52)) as char
    } else if v == 62 {
        '+'
    } else {
        '/'
    }
}

/// The index of `c` in the standard base64 alphabet, or -1 if `c` is not in
/// it. The padding character `=` is not in the alphabet.
pub open spec fn b64_val_of(c: char) -> int {
    if 'A' <= c && c <= 'Z' {
        c as int - 'A' as int
    } else if 'a' <= c && c <= 'z' {
        26 + c as int - 'a' as int
    } else if '0' <= c && c <= '9' {
        52 + c as int - '0' as int
    } else if c == '+' {
        62
    } else if c == '/' {
        63
    } else {
        -1
    }
}

/// Whether `c` belongs to the base64 alphabet.
pub open spec fn is_b64_char(c: char) -> bool {
    b64_val_of(c) >= 0
}

/// Looking an alphabet character up recovers its index; no alphabet character
/// collides with the padding character, nor with the backtick and backslash
/// that script-literal quoting treats specially.
pub proof fn lemma_b64_char_val(v: int)
    requires
        0 <= v < 64,
    ensures
        b64_val_of(b64_char_of(v)) == v,
        b64_char_of(v) != '=',
        b64_char_of(v) != '`',
        b64_char_of(v) != '\\',
{
}

/// Base64 encoding of a byte sequence: four characters for every three bytes,
/// with `=` padding closing a final group of one or two bytes.
pub open spec fn encode_b64(s: Seq<u8>) -> Seq<char>
    decreases s.len(),
{
    if s.len() == 0 {
        Seq::empty()
    } else if s.len() == 1 {
        let b0 = s[0] as int;
        seq![b64_char_of(b0 / 4), b64_char_of((b0 % 4) * 16), '=', '=']
    } else if s.len() == 2 {
        let b0 = s[0] as int;
        let b1 = s[1] as int;
        seq![
            b64_char_of(b0 / 4),
            b64_char_of((b0 % 4) * 16 + b1 / 16),
            b64_char_of((b1 % 16) * 4),
            '=',
        ]
    } else {
        let b0 = s[0] as int;
        let b1 = s[1] as int;
        let b2 = s[2] as int;
        seq![
            b64_char_of(b0 / 4),
            b64_char_of((b0 % 4) * 16 + b1 / 16),
            b64_char_of((b1 % 16) * 4 + b2 / 64),
            b64_char_of(b2 % 64),
        ] + encode_b64(s.skip(3))
    }
}

/// The three bytes packed into a full group of four alphabet characters, or
/// `None` if any of the four is not an alphabet character.
pub open spec fn decode_b64_group(c0: char, c1: char, c2: char, c3: char) -> Option<Seq<u8>> {
    let v0 = b64_val_of(c0);
    let v1 = b64_val_of(c1);
    let v2 = b64_val_of(c2);
    let v3 = b64_val_of(c3);
    if v0 >= 0 && v1 >= 0 && v2 >= 0 && v3 >= 0 {
        Some(
            seq![
                (v0 * 4 + v1 / 16) as u8,
                ((v1 % 16) * 16 + v2 / 4) as u8,
                ((v2 % 4) * 64 + v3) as u8,
            ],
        )
    } else {
        None
    }
}

/// The bytes of a final group of four characters, which may close with one or
/// two `=` padding characters.
pub open spec fn decode_b64_tail(c0: char, c1: char, c2: char, c3: char) -> Option<Seq<u8>> {
    let v0 = b64_val_of(c0);
    let v1 = b64_val_of(c1);
    let v2 = b64_val_of(c2);
    if c3 == '=' {
        if c2 == '=' {
            if v0 >= 0 && v1 >= 0 {
                Some(seq![(v0 * 4 + v1 / 16) as u8])
            } else {
                None
            }
        } else {
            if v0 >= 0 && v1 >= 0 && v2 >= 0 {
                Some(seq![(v0 * 4 + v1 / 16) as u8, ((v1 % 16) * 16 + v2 / 4) as u8])
            } else {
                None
            }
        }
    } else {
        decode_b64_group(c0, c1, c2, c3)
    }
}

/// Base64 decoding of a character sequence: `None` unless the length is a
/// multiple of four and every group decodes, with padding admitted only in the
/// final group.
pub open spec fn decode_b64(s: Seq<char>) -> Option<Seq<u8>>
    decreases s.len(),
{
    if s.len() == 0 {
        Some(Seq::empty())
    } else if s.len() % 4 != 0 {
        None
    } else if s.len() == 4 {
        decode_b64_tail(s[0], s[1], s[2], s[3])
    } else {
        match decode_b64_group(s[0], s[1], s[2], s[3]) {
            Some(g) => match decode_b64(s.skip(4)) {
                Some(rest) => Some(g + rest),
                None => None,
            },
            None => None,
        }
    }
}

/// The alphabet character at index `v`.
fn b64_char(v: u8) -> (c: char)
    requires
        v < 64,
    ensures
        c == b64_char_of(v as int),
{
    if v < 26 {
        (('A' as u8) + v) as char
    } else if v < 52 {
        (('a' as u8) + (v - 26)) as char
    } else if v < 62 {
        (('0' as u8) + (v - 52)) as char
    } else if v == 62 {
        '+'
    } else {
        '/'
    }
}

/// The index of `c` in the alphabet, or `None` for any other character.
fn b64_val(c: char) -> (r: Option<u8>)
    ensures
        r is Some <==> is_b64_char(c),
        r matches Some(v) ==> v as int == b64_val_of(c) && v < 64,
{
    if c >= 'A' && c <= 'Z' {
        Some((c as u32 - 'A' as u32) as u8)
    } else if c >= 'a' && c <= 'z' {
        Some((26 + (c as u32 - 'a' as u32)) as u8)
    } else if c >= '0' && c <= '9' {
        Some((52 + (c as u32 - '0' as u32)) as u8)
    } else if c == '+' {
        Some(62)
    } else if c == '/' {
        Some(63)
    } else {
        None
    }
}

/// Base64-encode a byte sequence.
pub fn encode_base64(bytes: &Vec<u8>) -> (r: String)
    ensures
        r@ == encode_b64(bytes@),
{
    let n = bytes.len();
    let mut r = String::new();
    let mut i: usize = 0;
    proof {
        assert(bytes@.skip(0) =~= bytes@);
        assert(Seq::<char>::empty() + encode_b64(bytes@) =~= encode_b64(bytes@));
    }
    while i < n && n - i >= 3
        invariant
            i % 3 == 0,
            i <= n,
            n == bytes@.len(),
            encode_b64(bytes@) == r@ + encode_b64(bytes@.skip(i as int)),
        decreases n - i,
    {
        let b0 = bytes[i];
        let b1 = bytes[i + 1];
        let b2 = bytes[i + 2];
        proof {
            assert(bytes@.skip(i as int).skip(3) =~= bytes@.skip(i + 3));
        }
        push_char(&mut r, b64_char(b0 / 4));
        push_char(&mut r, b64_char((b0 % 4) * 16 + b1 / 16));
        push_char(&mut r, b64_char((b1 % 16) * 4 + b2 / 64));
        push_char(&mut r, b64_char(b2 % 64));
        i = i + 3;
    }
    if n - i == 1 {
        let b0 = bytes[i];
        push_char(&mut r, b64_char(b0 / 4));
        push_char(&mut r, b64_char((b0 % 4) * 16));
        push_char(&mut r, '=');
        push_char(&mut r, '=');
    } else if n - i == 2 {
        let b0 = bytes[i];
        let b1 = bytes[i + 1];
        push_char(&mut r, b64_char(b0 / 4));
        push_char(&mut r, b64_char((b0 % 4) * 16 + b1 / 16));
        push_char(&mut r, b64_char((b1 % 16) * 4));
        push_char(&mut r, '=');
    } else {
        proof {
            assert(bytes@.skip(i as int) =~= Seq::<u8>::empty());
        }
    }
    proof {
        assert(r@ =~= encode_b64(bytes@));
    }
    r
}

/// Base64-decode a string: the bytes it encodes, or `None` for any input that
/// is not a base64 encoding.
pub fn decode_base64(s: &str) -> (r: Option<Vec<u8>>)
    ensures
        match r {
            Some(v) => decode_b64(s@) == Some(v@),
            None => decode_b64(s@) is None,
        },
{
    let n = s.unicode_len();
    if n == 0 {
        let empty: Vec<u8> = Vec::new();
        return Some(empty);
    }
    if n % 4 != 0 {
        return None;
    }
    let mut out: Vec<u8> = Vec::new();
    let mut i: usize = 0;
    proof {
        assert(s@.skip(0) =~= s@);
        assert(Seq::<u8>::empty() + decode_b64(s@)->Some_0 =~= decode_b64(s@)->Some_0);
    }
    while n - i > 4
        invariant
            i % 4 == 0,
            i + 4 <= n,
            n == s@.len(),
            n % 4 == 0,
            ({
                match decode_b64(s@.skip(i as int)) {
                    Some(rest) => decode_b64(s@) == Some(out@ + rest),
                    None => decode_b64(s@) is None,
                }
            }),
        decreases n - i,
    {
        let c0 = s.get_char(i);
        let c1 = s.get_char(i + 1);
        let c2 = s.get_char(i + 2);
        let c3 = s.get_char(i + 3);
        proof {
            assert(s@.skip(i as int).skip(4) =~= s@.skip(i + 4));
        }
        let (v0, v1, v2, v3) = match (b64_val(c0), b64_val(c1), b64_val(c2), b64_val(c3)) {
            (Some(a), Some(b), Some(c), Some(d)) => (a, b, c, d),
            _ => {
                return None;
            },
        };
        let ghost out0 = out@;
        let ghost g = decode_b64_group(c0, c1, c2, c3)->Some_0;
        out.push(v0 * 4 + v1 / 16);
        out.push((v1 % 16) * 16 + v2 / 4);
        out.push((v2 % 4) * 64 + v3);
        i = i + 4;
        proof {
            assert(out@ =~= out0 + g);
            if decode_b64(s@.skip(i as int)) is Some {
                let rest2 = decode_b64(s@.skip(i as int))->Some_0;
                assert((out0 + g) + rest2 =~= out0 + (g + rest2));
            }
        }
    }
    let c0 = s.get_char(i);
    let c1 = s.get_char(i + 1);
    let c2 = s.get_char(i + 2);
    let c3 = s.get_char(i + 3);
    let ghost out0 = out@;
    let ghost tail = decode_b64_tail(c0, c1, c2, c3)->Some_0;
    if c3 == '=' {
        if c2 == '=' {
            match (b64_val(c0), b64_val(c1)) {
                (Some(v0), Some(v1)) => {
                    out.push(v0 * 4 + v1 / 16);
                    proof {
                        assert(out@ =~= out0 + tail);
                    }
                    Some(out)
                },
                _ => None,
            }
        } else {
            match (b64_val(c0), b64_val(c1), b64_val(c2)) {
                (Some(v0), Some(v1), Some(v2)) => {
                    out.push(v0 * 4 + v1 / 16);
                    out.push((v1 % 16) * 16 + v2 / 4);
                    proof {
                        assert(out@ =~= out0 + tail);
                    }
                    Some(out)
                },
                _ => None,
            }
        }
    } else {
        match (b64_val(c0), b64_val(c1), b64_val(c2), b64_val(c3)) {
            (Some(v0), Some(v1), Some(v2), Some(v3)) => {
                out.push(v0 * 4 + v1 / 16);
                out.push((v1 % 16) * 16 + v2 / 4);
                out.push((v2 % 4) * 64 + v3);
                proof {
                    assert(out@ =~= out0 + tail);
                }
                Some(out)
            },
            _ => None,
        }
    }
}

/// Encoding yields four characters for every started group of three bytes.
pub proof fn lemma_encode_b64_len(s: Seq<u8>)
    ensures
        encode_b64(s).len() == 4 * ((s.len() + 2) / 3),
    decreases s.len(),
{
    if s.len() >= 3 {
        lemma_encode_b64_len(s.skip(3));
    }
}

/// Decoding a base64 encoding recovers the encoded bytes exactly, for every
/// byte sequence: the empty one, and any bytes whatever their values.
pub proof fn lemma_b64_round_trip(s: Seq<u8>)
    ensures
        decode_b64(encode_b64(s)) == Some(s),
    decreases s.len(),
{
    let e = encode_b64(s);
    if s.len() == 0 {
        assert(s =~= Seq::<u8>::empty());
    } else if s.len() == 1 {
        let b0 = s[0] as int;
        lemma_b64_char_val(b0 / 4);
        lemma_b64_char_val((b0 % 4) * 16);
        assert((b0 / 4) * 4 + ((b0 % 4) * 16) / 16 == b0);
        assert(s =~= seq![s[0]]);
    } else if s.len() == 2 {
        let b0 = s[0] as int;
        let b1 = s[1] as int;
        lemma_b64_char_val(b0 / 4);
        lemma_b64_char_val((b0 % 4) * 16 + b1 / 16);
        lemma_b64_char_val((b1 % 16) * 4);
        let v0 = b0 / 4;
        let v1 = (b0 % 4) * 16 + b1 / 16;
        let v2 = (b1 % 16) * 4;
        assert(v0 * 4 + v1 / 16 == b0);
        assert((v1 % 16) * 16 + v2 / 4 == b1);
        assert(s =~= seq![s[0], s[1]]);
    } else {
        let b0 = s[0] as int;
        let b1 = s[1] as int;
        let b2 = s[2] as int;
        lemma_b64_char_val(b0 / 4);
        lemma_b64_char_val((b0 % 4) * 16 + b1 / 16);
        lemma_b64_char_val((b1 % 16) * 4 + b2 / 64);
        lemma_b64_char_val(b2 % 64);
        let v0 = b0 / 4;
        let v1 = (b0 % 4) * 16 + b1 / 16;
        let v2 = (b1 % 16) * 4 + b2 / 64;
        let v3 = b2 % 64;
        assert(v0 * 4 + v1 / 16 == b0);
        assert((v1 % 16) * 16 + v2 / 4 == b1);
        assert((v2 % 4) * 64 + v3 == b2);
        let rest = s.skip(3);
        lemma_b64_round_trip(rest);
        lemma_encode_b64_len(rest);
        let group = seq![
            b64_char_of(v0),
            b64_char_of(v1),
            b64_char_of(v2),
            b64_char_of(v3),
        ];
        assert(e == group + encode_b64(rest));
        if s.len() == 3 {
            assert(encode_b64(rest) =~= Seq::<char>::empty());
            assert(e =~= group);
            assert(s =~= seq![s[0], s[1], s[2]]);
        } else {
            assert(e.len() == 4 + encode_b64(rest).len());
            assert(encode_b64(rest).len() >= 4);
            assert(e.len() % 4 == 0);
            assert(e.skip(4) =~= encode_b64(rest));
            assert(decode_b64_group(e[0], e[1], e[2], e[3]) == Some(seq![s[0], s[1], s[2]]));
            assert(seq![s[0], s[1], s[2]] + rest =~= s);
        }
    }
}

} // verus!
