//! Magic-link tokens: random generation and the hash under which they are stored.
use vstd::prelude::*;
use vstd::utf8::*;

use base64::Engine as _;
use rand::RngCore;
use sha2::Digest;

use crate::text::push_char;

verus! {

/// The SHA-256 digest of `data` (what `sha2::Sha256::digest` returns).
pub uninterp spec fn sha256_digest(data: Seq<u8>) -> Seq<u8>;

/// The unpadded URL-safe base64 encoding of `bytes` (what the `base64`
/// engine `URL_SAFE_NO_PAD` returns).
pub uninterp spec fn base64_url(bytes: Seq<u8>) -> Seq<char>;

/// The length of the unpadded base64 encoding of `n` bytes.
pub open spec fn unpadded_len(n: nat) -> nat {
    if n % 3 == 0 {
        4 * (n / 3)
    } else {
        4 * (n / 3) + n % 3 + 1
    }
}

/// A character of the URL-safe base64 alphabet.
pub open spec fn url_safe_char(c: char) -> bool {
    ('A' <= c <= 'Z') || ('a' <= c <= 'z') || ('0' <= c <= '9') || c == '-' || c == '_'
}

/// The shape of every token that `token` hands out: 43 URL-safe characters.
pub open spec fn is_token(t: Seq<char>) -> bool {
    &&& t.len() == 43
    &&& forall|i: int| 0 <= i < t.len() ==> url_safe_char(#[trigger] t[i])
}

/// The lowercase hexadecimal digit of `n` (below 16).
pub open spec fn hex_char(n: u8) -> char {
    if n < 10 {
        (('0' as u8) + n) as char
    } else {
        (('a' as u8) + n - 10) as char
    }
}

/// The lowercase hexadecimal text of `bytes`, two digits per byte, high digit first.
pub open spec fn hex_lower(bytes: Seq<u8>) -> Seq<char>
    decreases bytes.len(),
{
    if bytes.len() == 0 {
        Seq::empty()
    } else {
        hex_lower(bytes.drop_last()) + seq![hex_char(bytes.last() / 16), hex_char(bytes.last() % 16)]
    }
}

/// The stored form of a raw token: the hex text of the SHA-256 of its UTF-8 bytes.
pub open spec fn token_hash(raw: Seq<char>) -> Seq<char> {
    hex_lower(sha256_digest(encode_utf8(raw)))
}

/// Computes the SHA-256 digest of `data` with `sha2::Sha256::digest`.
#[verifier::external_body]
fn sha256(data: &[u8]) -> (r: Vec<u8>)
    ensures
        r@ == sha256_digest(data@),
        r@.len() == 32,
{
    sha2::Sha256::digest(data).to_vec()
}

/// Encodes `bytes` with the `base64` engine `URL_SAFE_NO_PAD`; the output
/// has the unpadded length and only characters of the URL-safe alphabet.
#[verifier::external_body]
fn encode_url_safe(bytes: &[u8]) -> (r: String)
    ensures
        r@ == base64_url(bytes@),
        r@.len() == unpadded_len(bytes@.len()),
        forall|i: int| 0 <= i < r@.len() ==> url_safe_char(#[trigger] r@[i]),
{
    base64::engine::general_purpose::URL_SAFE_NO_PAD.encode(bytes)
}

/// Fills 32 bytes from `rand::rng()`; nothing is promised of their values.
#[verifier::external_body]
fn random_bytes() -> (r: Vec<u8>)
    ensures
        r@.len() == 32,
{
    let mut bytes = [0u8; 32];
    rand::rng().fill_bytes(&mut bytes);
    bytes.to_vec()
}

fn hex_digit(n: u8) -> (c: char)
    requires
        n < 16,
    ensures
        c == hex_char(n),
{
    if n < 10 {
        (48u8 + n) as char
    } else {
        (97u8 + n - 10) as char
    }
}

/// The lowercase hexadecimal text of `bytes`.
pub fn hex(bytes: &Vec<u8>) -> (r: String)
    ensures
        r@ == hex_lower(bytes@),
        r@.len() == 2 * bytes@.len(),
{
    let mut out = String::new();
    let mut i: usize = 0;
    while i < bytes.len()
        invariant
            i <= bytes@.len(),
            out@ == hex_lower(bytes@.take(i as int)),
            out@.len() == 2 * i,
        decreases bytes@.len() - i,
    {
        let b = bytes[i];
        proof {
            let p = bytes@.take(i + 1);
            assert(p.drop_last() =~= bytes@.take(i as int));
            assert(p.last() == b);
        }
        push_char(&mut out, hex_digit(b / 16));
        push_char(&mut out, hex_digit(b % 16));
        i = i + 1;
    }
    assert(bytes@.take(bytes@.len() as int) =~= bytes@);
    out
}

/// A fresh random token: 32 random bytes in unpadded URL-safe base64.
pub fn token() -> (r: String)
    ensures
        is_token(r@),
        exists|b: Seq<u8>| b.len() == 32 && r@ == base64_url(b),
{
    let bytes = random_bytes();
    let r = encode_url_safe(bytes.as_slice());
    assert(r@.len() == 43);
    r
}

/// The stored form of a raw token: lowercase hex of its SHA-256 digest.
pub fn hash(value: &str) -> (r: String)
    ensures
        r@ == token_hash(value@),
        r@.len() == 64,
{
    let bytes = value.as_bytes();
    let digest = sha256(bytes);
    hex(&digest)
}

} // verus!
