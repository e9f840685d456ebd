//! Percent-encoding of query components, as the `urlencoding` crate does it, and the proof
//! that decoding gives back what encoding was handed.
use vstd::prelude::*;

verus! {

/// A byte that percent-encoding leaves as it is: ASCII letters, digits, `-`, `.`, `_`, `~`.
pub open spec fn is_unreserved_byte(b: u8) -> bool {
    (48 <= b <= 57) || (65 <= b <= 90) || (97 <= b <= 122) || b == 45 || b == 46 || b == 95 || b
        == 126
}

/// Upper-case hexadecimal digit of a value below 16.
pub open spec fn hex_digit(d: int) -> char {
    if d < 10 {
        (48 + d) as char
    } else {
        (55 + d) as char
    }
}

/// Percent-encoding of a byte sequence: unreserved bytes as themselves, every other byte as
/// `%` and two upper-case hex digits.
pub open spec fn percent_encoded(bytes: Seq<u8>) -> Seq<char>
    decreases bytes.len(),
{
    if bytes.len() == 0 {
        seq![]
    } else {
        let b = bytes[0];
        (if is_unreserved_byte(b) {
            seq![(b as int) as char]
        } else {
            seq!['%', hex_digit(b as int / 16), hex_digit(b as int % 16)]
        }) + percent_encoded(bytes.drop_first())
    }
}

/// The percent-encoding of a string's UTF-8 bytes.
pub open spec fn url_encoded(s: Seq<char>) -> Seq<char> {
    percent_encoded(vstd::utf8::encode_utf8(s))
}

/// The value of a hexadecimal digit byte, in either case.
pub open spec fn hex_value(b: u8) -> Option<int> {
    if 48 <= b <= 57 {
        Some(b - 48)
    } else if 65 <= b <= 70 {
        Some(b - 55)
    } else if 97 <= b <= 102 {
        Some(b - 87)
    } else {
        None
    }
}

/// Percent-decoding of bytes: `%` and two hex digits become the byte they spell; a `%` not
/// followed by two hex digits, and every other byte, stays as it is.
pub open spec fn percent_decoded(b: Seq<u8>) -> Seq<u8>
    decreases b.len(),
{
    if b.len() == 0 {
        seq![]
    } else if b[0] == 37 && b.len() >= 3 {
        match (hex_value(b[1]), hex_value(b[2])) {
            (Some(h), Some(l)) => seq![(h * 16 + l) as u8] + percent_decoded(b.skip(3)),
            (Some(_), None) => seq![37u8, b[1]] + percent_decoded(b.skip(2)),
            _ => seq![37u8] + percent_decoded(b.skip(1)),
        }
    } else {
        seq![b[0]] + percent_decoded(b.skip(1))
    }
}

/// The percent-decoding of a string's UTF-8 bytes, read back as UTF-8 text; nothing when the
/// decoded bytes are not UTF-8.
pub open spec fn url_decoded(s: Seq<char>) -> Option<Seq<char>> {
    let d = percent_decoded(vstd::utf8::encode_utf8(s));
    if vstd::utf8::valid_utf8(d) {
        Some(vstd::utf8::decode_utf8(d))
    } else {
        None
    }
}

/// Calls `urlencoding::encode`, which percent-encodes every UTF-8 byte of its input except
/// ASCII alphanumerics and `-`, `_`, `.`, `~`, writing upper-case hex digits.
#[verifier::external_body]
pub(crate) fn url_encode(s: &str) -> (r: String)
    ensures
        r@ == url_encoded(s@),
{
    urlencoding::encode(s).into_owned()
}

/// Calls `urlencoding::decode`, which percent-decodes the UTF-8 bytes of its input (see
/// `percent_decoded`) and fails when the result is not UTF-8.
#[verifier::external_body]
pub(crate) fn url_decode(s: &str) -> (r: Option<String>)
    ensures
        crate::token::opt_view(r) == url_decoded(s@),
{
    match urlencoding::decode(s) {
        Ok(v) => Some(v.into_owned()),
        Err(_) => None,
    }
}

/// The bytes of ASCII characters.
pub open spec fn ascii_bytes(c: Seq<char>) -> Seq<u8> {
    Seq::new(c.len(), |i: int| c[i] as u8)
}

proof fn lemma_hex_digit(d: int)
    requires
        0 <= d < 16,
    ensures
        (hex_digit(d) as int) < 128,
        hex_digit(d) != '&',
        hex_digit(d) != '=',
        hex_value(hex_digit(d) as u8) == Some(d),
{
}

/// Every character of a percent-encoding is ASCII, and none is `&` or `=`.
pub proof fn lemma_percent_encoded_chars(bytes: Seq<u8>)
    ensures
        forall|i: int|
            #![trigger percent_encoded(bytes)[i]]
            0 <= i < percent_encoded(bytes).len() ==> {
                let c = percent_encoded(bytes)[i];
                &&& '\0' <= c <= '\u{7f}'
                &&& c != '&'
                &&& c != '='
            },
    decreases bytes.len(),
{
    if bytes.len() > 0 {
        let b = bytes[0];
        lemma_percent_encoded_chars(bytes.drop_first());
        lemma_hex_digit(b as int / 16);
        lemma_hex_digit(b as int % 16);
        let rest = percent_encoded(bytes.drop_first());
        let e = percent_encoded(bytes);
        let h = e.len() - rest.len();
        assert forall|i: int| 0 <= i < e.len() implies {
            let c = #[trigger] e[i];
            &&& '\0' <= c <= '\u{7f}'
            &&& c != '&'
            &&& c != '='
        } by {
            if i >= h {
                assert(e[i] == rest[i - h]);
            }
        }
    }
}

/// Decoding the bytes of an encoding gives back the bytes that were encoded.
pub proof fn lemma_percent_round_trip(bytes: Seq<u8>)
    ensures
        percent_decoded(ascii_bytes(percent_encoded(bytes))) == bytes,
    decreases bytes.len(),
{
    if bytes.len() > 0 {
        let b = bytes[0];
        let rest = percent_encoded(bytes.drop_first());
        let e = percent_encoded(bytes);
        let z = ascii_bytes(e);
        lemma_percent_round_trip(bytes.drop_first());
        if is_unreserved_byte(b) {
            assert(z[0] == b);
            assert(z.skip(1) =~= ascii_bytes(rest));
        } else {
            lemma_hex_digit(b as int / 16);
            lemma_hex_digit(b as int % 16);
            assert(z[0] == 37);
            assert(hex_value(z[1]) == Some(b as int / 16));
            assert(hex_value(z[2]) == Some(b as int % 16));
            assert(((b as int / 16) * 16 + b as int % 16) as u8 == b);
            assert(z.skip(3) =~= ascii_bytes(rest));
        }
        assert(bytes =~= seq![b] + bytes.drop_first());
    }
}

/// Decoding an encoded string gives the string back.
pub proof fn lemma_url_round_trip(s: Seq<char>)
    ensures
        url_decoded(url_encoded(s)) == Some(s),
{
    let bytes = vstd::utf8::encode_utf8(s);
    let e = url_encoded(s);
    lemma_percent_encoded_chars(bytes);
    assert(vstd::utf8::is_ascii_chars(e));
    vstd::utf8::is_ascii_chars_encode_utf8(e);
    assert(vstd::utf8::encode_utf8(e) =~= ascii_bytes(e));
    lemma_percent_round_trip(bytes);
    vstd::utf8::encode_utf8_valid_utf8(s);
    vstd::utf8::encode_utf8_decode_utf8(s);
}

/// An unreserved character: ASCII letter, digit, `-`, `.`, `_` or `~`.
pub open spec fn is_unreserved_char(c: char) -> bool {
    ('0' <= c <= '9') || ('A' <= c <= 'Z') || ('a' <= c <= 'z') || c == '-' || c == '.' || c
        == '_' || c == '~'
}

proof fn lemma_unreserved_char(c: char)
    requires
        is_unreserved_char(c),
    ensures
        '\0' <= c <= '\u{7f}',
        is_unreserved_byte(c as u8),
        ((c as u8) as int) as char == c,
{
}

/// A text of unreserved characters is its own encoding.
pub proof fn lemma_url_encoded_unreserved(s: Seq<char>)
    requires
        forall|i: int| 0 <= i < s.len() ==> is_unreserved_char(#[trigger] s[i]),
    ensures
        url_encoded(s) == s,
{
    assert forall|i: int| 0 <= i < s.len() implies '\0' <= #[trigger] s[i] <= '\u{7f}' by {
        lemma_unreserved_char(s[i]);
    }
    vstd::utf8::is_ascii_chars_encode_utf8(s);
    assert(vstd::utf8::encode_utf8(s) =~= ascii_bytes(s));
    lemma_percent_encoded_ascii(s);
}

proof fn lemma_percent_encoded_ascii(s: Seq<char>)
    requires
        forall|i: int| 0 <= i < s.len() ==> is_unreserved_char(#[trigger] s[i]),
    ensures
        percent_encoded(ascii_bytes(s)) == s,
    decreases s.len(),
{
    if s.len() > 0 {
        let rest = s.drop_first();
        assert(ascii_bytes(s).drop_first() =~= ascii_bytes(rest));
        assert(forall|i: int| 0 <= i < rest.len() ==> #[trigger] rest[i] == s[i + 1]);
        lemma_percent_encoded_ascii(rest);
        lemma_unreserved_char(s[0]);
        assert(s =~= seq![s[0]] + rest);
    }
}

} // verus!
