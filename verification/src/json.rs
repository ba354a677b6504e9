//! Byte-exact framing of the one JSON shape this service sends: an object
//! with a single string field, `{"<key>":"<value>"}`, with the value (and
//! key) escaped as JSON requires.

use vstd::prelude::*;
use vstd::utf8::encode_utf8;

verus! {

/// The lower-case hexadecimal digit for `n` (which must be below 16).
pub open spec fn spec_hex_digit(n: u8) -> u8 {
    if n < 10 {
        (0x30 + n) as u8  // '0'..'9'
    } else {
        (0x57 + n) as u8  // 'a'..'f'
    }
}

/// How one byte of a string appears inside a JSON string literal: the quote
/// and the backslash are escaped, the named control characters take their
/// short escapes, the remaining control bytes take the `\u00XX` form, and
/// every other byte stands as itself.
pub open spec fn json_escape_byte(b: u8) -> Seq<u8> {
    if b == 0x22 {  // '"'
        seq![0x5cu8, 0x22u8]
    } else if b == 0x5c {  // '\'
        seq![0x5cu8, 0x5cu8]
    } else if b == 0x08 {
        seq![0x5cu8, 0x62u8]  // \b
    } else if b == 0x09 {
        seq![0x5cu8, 0x74u8]  // \t
    } else if b == 0x0a {
        seq![0x5cu8, 0x6eu8]  // \n
    } else if b == 0x0c {
        seq![0x5cu8, 0x66u8]  // \f
    } else if b == 0x0d {
        seq![0x5cu8, 0x72u8]  // \r
    } else if b < 0x20 {
        seq![0x5cu8, 0x75u8, 0x30u8, 0x30u8, spec_hex_digit(b / 16), spec_hex_digit(b % 16)]
    } else {
        seq![b]
    }
}

/// A whole byte string escaped for use inside a JSON string literal.
pub open spec fn json_escaped(s: Seq<u8>) -> Seq<u8>
    decreases s.len(),
{
    if s.len() == 0 {
        Seq::empty()
    } else {
        json_escape_byte(s[0]) + json_escaped(s.drop_first())
    }
}

/// Escaping distributes over appending one byte at the end.
pub proof fn lemma_json_escaped_push(s: Seq<u8>, b: u8)
    ensures
        json_escaped(s.push(b)) == json_escaped(s) + json_escape_byte(b),
    decreases s.len(),
{
    if s.len() == 0 {
        assert(s.push(b)[0] == b);
        assert(s.push(b).drop_first() =~= Seq::<u8>::empty());
        assert(json_escaped(s.push(b)) == json_escape_byte(b) + json_escaped(Seq::<u8>::empty()));
        assert(json_escaped(s.push(b)) =~= json_escaped(s) + json_escape_byte(b));
    } else {
        assert(s.push(b).drop_first() =~= s.drop_first().push(b));
        lemma_json_escaped_push(s.drop_first(), b);
        assert(json_escaped(s.push(b)) =~= json_escaped(s) + json_escape_byte(b));
    }
}

/// True of a byte that stands for itself inside a JSON string literal:
/// neither the quote, nor the backslash, nor a control byte.
pub open spec fn json_plain_byte(b: u8) -> bool {
    b != 0x22 && b != 0x5c && b >= 0x20
}

/// Escaping changes nothing in a byte string whose bytes all stand for
/// themselves.
pub proof fn lemma_json_escaped_all_plain(s: Seq<u8>)
    requires
        forall|i: int| 0 <= i < s.len() ==> json_plain_byte(#[trigger] s[i]),
    ensures
        json_escaped(s) == s,
    decreases s.len(),
{
    if s.len() == 0 {
        assert(json_escaped(s) =~= s);
    } else {
        assert(json_escape_byte(s[0]) == seq![s[0]]);
        assert(forall|i: int|
            0 <= i < s.drop_first().len() ==> json_plain_byte(#[trigger] s.drop_first()[i]));
        lemma_json_escaped_all_plain(s.drop_first());
        assert(json_escaped(s) =~= s);
    }
}

/// The serialized bytes of the JSON object `{"<key>":"<value>"}`, both parts
/// escaped.
pub open spec fn json_string_object(key: Seq<u8>, value: Seq<u8>) -> Seq<u8> {
    seq![0x7bu8, 0x22u8] + json_escaped(key) + seq![0x22u8, 0x3au8, 0x22u8] + json_escaped(value)
        + seq![0x22u8, 0x7du8]
}

fn hex_digit(n: u8) -> (d: u8)
    requires
        n < 16,
    ensures
        d == spec_hex_digit(n),
{
    if n < 10 {
        0x30 + n
    } else {
        0x57 + n
    }
}

fn push_escaped_byte(out: &mut Vec<u8>, b: u8)
    ensures
        final(out)@ == old(out)@ + json_escape_byte(b),
{
    if b == 0x22 {
        out.push(0x5c);
        out.push(0x22);
    } else if b == 0x5c {
        out.push(0x5c);
        out.push(0x5c);
    } else if b == 0x08 {
        out.push(0x5c);
        out.push(0x62);
    } else if b == 0x09 {
        out.push(0x5c);
        out.push(0x74);
    } else if b == 0x0a {
        out.push(0x5c);
        out.push(0x6e);
    } else if b == 0x0c {
        out.push(0x5c);
        out.push(0x66);
    } else if b == 0x0d {
        out.push(0x5c);
        out.push(0x72);
    } else if b < 0x20 {
        out.push(0x5c);
        out.push(0x75);
        out.push(0x30);
        out.push(0x30);
        out.push(hex_digit(b / 16));
        out.push(hex_digit(b % 16));
    } else {
        out.push(b);
    }
    proof {
        assert(final(out)@ =~= old(out)@ + json_escape_byte(b));
    }
}

/// Appends the JSON-escaped form of `bytes` to `out`.
pub fn append_json_escaped(out: &mut Vec<u8>, bytes: &[u8])
    ensures
        final(out)@ == old(out)@ + json_escaped(bytes@),
{
    let mut i: usize = 0;
    while i < bytes.len()
        invariant
            i <= bytes.len(),
            out@ == old(out)@ + json_escaped(bytes@.subrange(0, i as int)),
        decreases bytes.len() - i,
    {
        let b = bytes[i];
        proof {
            assert(bytes@.subrange(0, i + 1) =~= bytes@.subrange(0, i as int).push(b));
            lemma_json_escaped_push(bytes@.subrange(0, i as int), b);
        }
        push_escaped_byte(out, b);
        i = i + 1;
    }
    proof {
        assert(bytes@.subrange(0, bytes@.len() as int) =~= bytes@);
    }
}

/// Serializes the object `{"<key>":"<value>"}`, escaping the UTF-8 bytes of
/// both strings.
pub fn encode_string_object(key: &str, value: &str) -> (r: Vec<u8>)
    ensures
        r@ == json_string_object(encode_utf8(key@), encode_utf8(value@)),
{
    let mut out: Vec<u8> = Vec::new();
    out.push(0x7b);  // '{'
    out.push(0x22);  // '"'
    append_json_escaped(&mut out, key.as_bytes());
    out.push(0x22);  // '"'
    out.push(0x3a);  // ':'
    out.push(0x22);  // '"'
    append_json_escaped(&mut out, value.as_bytes());
    out.push(0x22);  // '"'
    out.push(0x7d);  // '}'
    proof {
        assert(out@ =~= json_string_object(encode_utf8(key@), encode_utf8(value@)));
    }
    out
}

} // verus!
