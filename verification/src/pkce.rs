//! PKCE (RFC 7636) verifier, challenge and OAuth `state` generation.
use vstd::prelude::*;
use base64::Engine;
use rand::RngCore;
use sha2::Digest;

verus! {

/// Number of random bytes behind a PKCE code verifier.
pub const CODE_VERIFIER_LENGTH: usize = 32;

/// Number of random bytes behind an OAuth `state` value.
pub const STATE_LENGTH: usize = 18;

/// The character that the URL-safe base64 alphabet assigns to the 6-bit value `v`.
pub open spec fn b64url_symbol(v: int) -> char {
    if v < 26 {
        (65 + v) as char
    } else if v < 52 {
        (97 + v - 26) as char
    } else if v < 62 {
        (48 + v - 52) as char
    } else if v == 62 {
        '-'
    } else {
        '_'
    }
}

/// Unpadded URL-safe base64 (RFC 4648 section 5) of a byte sequence.
pub open spec fn b64url(bytes: Seq<u8>) -> Seq<char>
    decreases bytes.len(),
{
    if bytes.len() == 0 {
        seq![]
    } else if bytes.len() == 1 {
        let b0 = bytes[0] as int;
        seq![b64url_symbol(b0 / 4), b64url_symbol((b0 % 4) * 16)]
    } else if bytes.len() == 2 {
        let b0 = bytes[0] as int;
        let b1 = bytes[1] as int;
        seq![
            b64url_symbol(b0 / 4),
            b64url_symbol((b0 % 4) * 16 + b1 / 16),
            b64url_symbol((b1 % 16) * 4),
        ]
    } else {
        let b0 = bytes[0] as int;
        let b1 = bytes[1] as int;
        let b2 = bytes[2] as int;
        seq![
            b64url_symbol(b0 / 4),
            b64url_symbol((b0 % 4) * 16 + b1 / 16),
            b64url_symbol((b1 % 16) * 4 + b2 / 64),
            b64url_symbol(b2 % 64),
        ] + b64url(bytes.subrange(3, bytes.len() as int))
    }
}

/// Length of the unpadded base64 text of `n` bytes.
pub open spec fn b64url_len(n: nat) -> nat {
    4 * (n / 3) + if n % 3 == 0 {
        0nat
    } else {
        (n % 3 + 1) as nat
    }
}

/// A character of the URL-safe base64 alphabet: `A-Z`, `a-z`, `0-9`, `-`, `_`.
pub open spec fn is_b64url_char(c: char) -> bool {
    ('A' <= c && c <= 'Z') || ('a' <= c && c <= 'z') || ('0' <= c && c <= '9') || c == '-' || c
        == '_'
}

/// A character that RFC 7636 allows in a code verifier (its "unreserved" set).
pub open spec fn is_pkce_unreserved(c: char) -> bool {
    ('A' <= c && c <= 'Z') || ('a' <= c && c <= 'z') || ('0' <= c && c <= '9') || c == '-' || c
        == '.' || c == '_' || c == '~'
}

/// The result of SHA-256 on a byte sequence.
pub uninterp spec fn sha256_digest(data: Seq<u8>) -> Seq<u8>;

/// The PKCE `S256` code challenge of a verifier: base64url(SHA-256(ASCII bytes of verifier)).
pub open spec fn s256_challenge(verifier: Seq<char>) -> Seq<char> {
    b64url(sha256_digest(vstd::utf8::encode_utf8(verifier)))
}

pub proof fn lemma_b64url_symbol(v: int)
    requires
        0 <= v < 64,
    ensures
        is_b64url_char(b64url_symbol(v)),
        b64url_symbol(v) != '=',
{
}

/// The unpadded base64 text of `n` bytes has `b64url_len(n)` characters, all from the
/// URL-safe alphabet, none of them `=`.
pub proof fn lemma_b64url_shape(bytes: Seq<u8>)
    ensures
        b64url(bytes).len() == b64url_len(bytes.len()),
        forall|i: int|
            0 <= i < b64url(bytes).len() ==> #[trigger] is_b64url_char(b64url(bytes)[i]),
    decreases bytes.len(),
{
    if bytes.len() == 0 {
    } else if bytes.len() == 1 {
        let b0 = bytes[0] as int;
        lemma_b64url_symbol(b0 / 4);
        lemma_b64url_symbol((b0 % 4) * 16);
    } else if bytes.len() == 2 {
        let b0 = bytes[0] as int;
        let b1 = bytes[1] as int;
        lemma_b64url_symbol(b0 / 4);
        lemma_b64url_symbol((b0 % 4) * 16 + b1 / 16);
        lemma_b64url_symbol((b1 % 16) * 4);
    } else {
        let b0 = bytes[0] as int;
        let b1 = bytes[1] as int;
        let b2 = bytes[2] as int;
        lemma_b64url_symbol(b0 / 4);
        lemma_b64url_symbol((b0 % 4) * 16 + b1 / 16);
        lemma_b64url_symbol((b1 % 16) * 4 + b2 / 64);
        lemma_b64url_symbol(b2 % 64);
        let rest = bytes.subrange(3, bytes.len() as int);
        lemma_b64url_shape(rest);
        let head = seq![
            b64url_symbol(b0 / 4),
            b64url_symbol((b0 % 4) * 16 + b1 / 16),
            b64url_symbol((b1 % 16) * 4 + b2 / 64),
            b64url_symbol(b2 % 64),
        ];
        assert(b64url(bytes) == head + b64url(rest));
        assert forall|i: int| 0 <= i < b64url(bytes).len() implies #[trigger] is_b64url_char(
            b64url(bytes)[i],
        ) by {
            if i >= 4 {
                assert(b64url(bytes)[i] == b64url(rest)[i - 4]);
            }
        }
    }
}

proof fn lemma_b64url_symbol_injective(v: int, w: int)
    requires
        0 <= v < 64,
        0 <= w < 64,
        b64url_symbol(v) == b64url_symbol(w),
    ensures
        v == w,
{
    let c = b64url_symbol(v);
    assert(c as int == b64url_symbol(w) as int);
}

proof fn lemma_b64url_len_injective(n: nat, m: nat)
    requires
        b64url_len(n) == b64url_len(m),
    ensures
        n == m,
{
}

/// Distinct byte sequences have distinct base64url texts, so decoding recovers exactly the
/// bytes that were encoded.
pub proof fn b64url_injective(x: Seq<u8>, y: Seq<u8>)
    requires
        b64url(x) == b64url(y),
    ensures
        x == y,
    decreases x.len(),
{
    lemma_b64url_shape(x);
    lemma_b64url_shape(y);
    lemma_b64url_len_injective(x.len(), y.len());
    let e = b64url(x);
    if x.len() == 0 {
        assert(x =~= y);
    } else {
        let x0 = x[0] as int;
        let y0 = y[0] as int;
        assert(e[0] == b64url_symbol(x0 / 4) && e[0] == b64url_symbol(y0 / 4));
        lemma_b64url_symbol_injective(x0 / 4, y0 / 4);
        if x.len() == 1 {
            assert(e[1] == b64url_symbol((x0 % 4) * 16) && e[1] == b64url_symbol((y0 % 4) * 16));
            lemma_b64url_symbol_injective((x0 % 4) * 16, (y0 % 4) * 16);
            assert(x0 == y0);
            assert(x =~= y);
        } else {
            let x1 = x[1] as int;
            let y1 = y[1] as int;
            assert(e[1] == b64url_symbol((x0 % 4) * 16 + x1 / 16));
            assert(e[1] == b64url_symbol((y0 % 4) * 16 + y1 / 16));
            lemma_b64url_symbol_injective((x0 % 4) * 16 + x1 / 16, (y0 % 4) * 16 + y1 / 16);
            assert(x0 == y0);
            assert(x1 / 16 == y1 / 16);
            if x.len() == 2 {
                assert(e[2] == b64url_symbol((x1 % 16) * 4) && e[2] == b64url_symbol(
                    (y1 % 16) * 4,
                ));
                lemma_b64url_symbol_injective((x1 % 16) * 4, (y1 % 16) * 4);
                assert(x1 == y1);
                assert(x =~= y);
            } else {
                let x2 = x[2] as int;
                let y2 = y[2] as int;
                assert(e[2] == b64url_symbol((x1 % 16) * 4 + x2 / 64));
                assert(e[2] == b64url_symbol((y1 % 16) * 4 + y2 / 64));
                lemma_b64url_symbol_injective((x1 % 16) * 4 + x2 / 64, (y1 % 16) * 4 + y2 / 64);
                assert(e[3] == b64url_symbol(x2 % 64) && e[3] == b64url_symbol(y2 % 64));
                lemma_b64url_symbol_injective(x2 % 64, y2 % 64);
                assert(x1 == y1);
                assert(x2 == y2);
                let xr = x.subrange(3, x.len() as int);
                let yr = y.subrange(3, y.len() as int);
                assert(b64url(xr) =~= e.skip(4));
                assert(b64url(yr) =~= e.skip(4));
                b64url_injective(xr, yr);
                assert forall|i: int| 0 <= i < x.len() implies x[i] == y[i] by {
                    if i >= 3 {
                        assert(x[i] == xr[i - 3]);
                        assert(y[i] == yr[i - 3]);
                    }
                }
                assert(x =~= y);
            }
        }
    }
}

/// `bytes` filled with random values; only its length is known.
///
/// Calls `rand::thread_rng().fill_bytes`. Nothing is claimed of the values written. The
/// thread-local generator panics if the operating system cannot seed it; that case is not
/// excluded here.
#[verifier::external_body]
fn fill_random(bytes: &mut Vec<u8>)
    ensures
        final(bytes)@.len() == old(bytes)@.len(),
{
    rand::thread_rng().fill_bytes(bytes.as_mut_slice());
}

/// Calls `base64::engine::general_purpose::URL_SAFE_NO_PAD.encode`; claims that the result
/// is the unpadded URL-safe base64 text of the input. The crate panics when the length of
/// that text does not fit in `usize`, so that input is excluded.
#[verifier::external_body]
fn b64url_encode(bytes: &[u8]) -> (text: String)
    requires
        b64url_len(bytes@.len()) <= usize::MAX,
    ensures
        text@ == b64url(bytes@),
{
    base64::engine::general_purpose::URL_SAFE_NO_PAD.encode(bytes)
}

/// Calls `base64::engine::general_purpose::URL_SAFE_NO_PAD.decode`; claims that it accepts
/// exactly the canonical unpadded URL-safe base64 texts and returns the bytes they encode
/// (the engine rejects padding, symbols outside the alphabet, a length of 1 modulo 4 and
/// non-zero trailing bits).
#[verifier::external_body]
pub(crate) fn b64url_decode(text: &str) -> (bytes: Option<Vec<u8>>)
    ensures
        match bytes {
            Some(b) => b64url(b@) == text@,
            None => forall|b: Seq<u8>| b64url(b) != text@,
        },
{
    base64::engine::general_purpose::URL_SAFE_NO_PAD.decode(text).ok()
}

/// Calls `sha2::Sha256` (`new`, `update`, `finalize`); the result is named
/// `sha256_digest` of the input and is 32 bytes long, as the crate's output type fixes.
#[verifier::external_body]
fn sha256(data: &[u8]) -> (digest: Vec<u8>)
    ensures
        digest@ == sha256_digest(data@),
        digest@.len() == 32,
{
    let mut hasher = sha2::Sha256::new();
    hasher.update(data);
    hasher.finalize().to_vec()
}

/// Unpadded URL-safe base64 text of `bytes` (with any trailing `=` removed, of which this
/// encoding has none).
pub fn b64url_from_bytes(bytes: &[u8]) -> (text: String)
    requires
        b64url_len(bytes@.len()) <= usize::MAX,
    ensures
        text@ == b64url(bytes@),
        text@.len() == b64url_len(bytes@.len()),
        forall|i: int| 0 <= i < text@.len() ==> #[trigger] is_b64url_char(text@[i]),
{
    let encoded = b64url_encode(bytes);
    proof {
        lemma_b64url_shape(bytes@);
        assert forall|i: int| 0 <= i < encoded@.len() implies encoded@[i] != '=' by {
            assert(is_b64url_char(encoded@[i]));
        }
        crate::text::lemma_trim_end_char_absent(encoded@, '=');
    }
    crate::text::trim_end_matches_char(encoded.as_str(), '=')
}

/// `length` random bytes as unpadded URL-safe base64 text.
pub fn random_b64url(length: usize) -> (text: String)
    requires
        b64url_len(length as nat) <= usize::MAX,
    ensures
        exists|bytes: Seq<u8>| bytes.len() == length && text@ == b64url(bytes),
        text@.len() == b64url_len(length as nat),
        forall|i: int| 0 <= i < text@.len() ==> #[trigger] is_b64url_char(text@[i]),
{
    let mut bytes: Vec<u8> = Vec::new();
    let mut i: usize = 0;
    while i < length
        invariant
            i <= length,
            bytes@.len() == i,
        decreases length - i,
    {
        bytes.push(0u8);
        i += 1;
    }
    fill_random(&mut bytes);
    b64url_from_bytes(bytes.as_slice())
}

/// The `S256` challenge of a verifier: base64url of the SHA-256 digest of its UTF-8 bytes.
pub fn sha256_b64url(data: &str) -> (text: String)
    ensures
        text@ == b64url(sha256_digest(vstd::utf8::encode_utf8(data@))),
        text@.len() == 43,
        forall|i: int| 0 <= i < text@.len() ==> #[trigger] is_b64url_char(text@[i]),
{
    let digest = sha256(data.as_bytes());
    b64url_from_bytes(digest.as_slice())
}

/// A fresh PKCE pair `(verifier, challenge)`: the verifier is the base64url text of 32
/// random bytes (43 characters), the challenge its `S256` transform.
pub fn generate_pkce_pair() -> (pair: (String, String))
    ensures
        pair.0@.len() == 43,
        forall|i: int| 0 <= i < pair.0@.len() ==> #[trigger] is_b64url_char(pair.0@[i]),
        exists|bytes: Seq<u8>| bytes.len() == CODE_VERIFIER_LENGTH && pair.0@ == b64url(bytes),
        pair.1@ == s256_challenge(pair.0@),
        pair.1@.len() == 43,
{
    let verifier = random_b64url(CODE_VERIFIER_LENGTH);
    let challenge = sha256_b64url(verifier.as_str());
    (verifier, challenge)
}

/// A fresh OAuth `state`: the base64url text of 18 random bytes (24 characters).
pub fn generate_state() -> (state: String)
    ensures
        state@.len() == 24,
        forall|i: int| 0 <= i < state@.len() ==> #[trigger] is_b64url_char(state@[i]),
        exists|bytes: Seq<u8>| bytes.len() == STATE_LENGTH && state@ == b64url(bytes),
{
    random_b64url(STATE_LENGTH)
}

/// Every character of an unpadded base64url text is one that RFC 7636 allows in a code
/// verifier, and the 32-byte verifier length lies within the RFC's 43..=128 bounds.
pub proof fn pkce_verifier_is_rfc7636(bytes: Seq<u8>)
    requires
        bytes.len() == CODE_VERIFIER_LENGTH,
    ensures
        43 <= b64url(bytes).len() <= 128,
        forall|i: int|
            0 <= i < b64url(bytes).len() ==> #[trigger] is_pkce_unreserved(b64url(bytes)[i]),
{
    lemma_b64url_shape(bytes);
    assert forall|i: int| 0 <= i < b64url(bytes).len() implies #[trigger] is_pkce_unreserved(
        b64url(bytes)[i],
    ) by {
        assert(is_b64url_char(b64url(bytes)[i]));
    }
}

} // verus!
