//! Calls into the hashing, encoding, randomness and clock providers the
//! auth flows need. Each function here makes one outside call; its contract
//! is what the provider's source and documentation show.

use vstd::prelude::*;

use base64::Engine;
use hmac::Mac;
use rand::Rng;
use sha2::Digest;

verus! {

/// The HMAC-SHA1 tag of `msg` under `key`.
pub uninterp spec fn hmac_sha1(key: Seq<u8>, msg: Seq<u8>) -> Seq<u8>;

/// The HMAC-SHA256 tag of `msg` under `key`.
pub uninterp spec fn hmac_sha256(key: Seq<u8>, msg: Seq<u8>) -> Seq<u8>;

/// The base64 digit for a six-bit value (RFC 4648): `A`-`Z`, `a`-`z`,
/// `0`-`9`, then `+` and `/`, or `-` and `_` in the URL-safe alphabet.
pub open spec fn base64_digit(v: int, url_safe: bool) -> char {
    if v < 26 {
        (65 + v) as char
    } else if v < 52 {
        (97 + v - 26) as char
    } else if v < 62 {
        (48 + v - 52) as char
    } else if v == 62 {
        if url_safe { '-' } else { '+' }
    } else {
        if url_safe { '_' } else { '/' }
    }
}

/// The digits for a group of one to three bytes, without padding: the
/// group's 24 bits (missing bytes as zero) cut into four six-bit values,
/// of which the first `len + 1` are written.
pub open spec fn base64_group(g: Seq<u8>, url_safe: bool) -> Seq<char> {
    let b0: int = g[0] as int;
    let b1: int = if g.len() > 1 { g[1] as int } else { 0 };
    let b2: int = if g.len() > 2 { g[2] as int } else { 0 };
    let n = b0 * 65536 + b1 * 256 + b2;
    seq![
        base64_digit(n / 262144, url_safe),
        base64_digit((n / 4096) % 64, url_safe),
        base64_digit((n / 64) % 64, url_safe),
        base64_digit(n % 64, url_safe),
    ].take(g.len() as int + 1)
}

/// The unpadded base64 digits of `bytes`, three bytes at a time.
pub open spec fn base64_digits(bytes: Seq<u8>, url_safe: bool) -> Seq<char>
    decreases bytes.len(),
{
    if bytes.len() == 0 {
        Seq::empty()
    } else if bytes.len() <= 3 {
        base64_group(bytes, url_safe)
    } else {
        base64_group(bytes.take(3), url_safe) + base64_digits(bytes.skip(3), url_safe)
    }
}

/// The standard (RFC 4648, padded) base64 text of `bytes`: the digits,
/// then `=` until the length is a multiple of four.
pub open spec fn base64_standard(bytes: Seq<u8>) -> Seq<char> {
    base64_digits(bytes, false) + Seq::new(((3 - bytes.len() % 3) % 3) as nat, |i: int| '=')
}

/// The URL-safe, unpadded base64 text of `bytes`.
pub open spec fn base64_url_nopad(bytes: Seq<u8>) -> Seq<char> {
    base64_digits(bytes, true)
}

/// The SHA-256 digest of `bytes`.
pub uninterp spec fn sha256(bytes: Seq<u8>) -> Seq<u8>;

/// `hmac::Hmac<sha1::Sha1>`: keyed with `key` (`new_from_slice`, which for
/// this digest accepts keys of any length), fed `msg`, finalised. The
/// contract names the 20-byte tag and claims nothing else.
#[verifier::external_body]
pub(crate) fn hmac_sha1_tag(key: &Vec<u8>, msg: &Vec<u8>) -> (r: Vec<u8>)
    ensures
        r@ == hmac_sha1(key@, msg@),
        r@.len() == 20,
{
    match hmac::Hmac::<sha1::Sha1>::new_from_slice(key.as_slice()) {
        Ok(mut mac) => {
            mac.update(msg.as_slice());
            mac.finalize().into_bytes().to_vec()
        },
        Err(_) => Vec::new(),
    }
}

/// `hmac::Hmac<sha2::Sha256>`: keyed with `key` (`new_from_slice`, which
/// for this digest accepts keys of any length), fed `msg`, finalised. The
/// contract names the 32-byte tag and claims nothing else.
#[verifier::external_body]
pub(crate) fn hmac_sha256_tag(key: &Vec<u8>, msg: &Vec<u8>) -> (r: Vec<u8>)
    ensures
        r@ == hmac_sha256(key@, msg@),
        r@.len() == 32,
{
    match hmac::Hmac::<sha2::Sha256>::new_from_slice(key.as_slice()) {
        Ok(mut mac) => {
            mac.update(msg.as_slice());
            mac.finalize().into_bytes().to_vec()
        },
        Err(_) => Vec::new(),
    }
}

/// `base64::engine::general_purpose::STANDARD.encode`: RFC 4648 base64 in
/// the standard alphabet, padded. It panics only when the encoded length
/// overflows `usize`, which `requires` rules out.
#[verifier::external_body]
pub(crate) fn base64_standard_encode(bytes: &Vec<u8>) -> (r: String)
    requires
        bytes@.len() <= usize::MAX / 2,
    ensures
        r@ == base64_standard(bytes@),
{
    base64::engine::general_purpose::STANDARD.encode(bytes.as_slice())
}

/// `base64::engine::general_purpose::URL_SAFE_NO_PAD.encode`: RFC 4648
/// base64 in the URL-safe alphabet, without padding, under the same bound
/// as the standard engine.
#[verifier::external_body]
pub(crate) fn base64_url_nopad_encode(bytes: &Vec<u8>) -> (r: String)
    requires
        bytes@.len() <= usize::MAX / 2,
    ensures
        r@ == base64_url_nopad(bytes@),
{
    base64::engine::general_purpose::URL_SAFE_NO_PAD.encode(bytes.as_slice())
}

/// `sha2::Sha256::digest`: the 32-byte digest of `bytes`.
#[verifier::external_body]
pub(crate) fn sha256_digest(bytes: &Vec<u8>) -> (r: Vec<u8>)
    ensures
        r@ == sha256(bytes@),
        r@.len() == 32,
{
    sha2::Sha256::digest(bytes.as_slice()).to_vec()
}

/// `rand::rng().random_range(0..1_000_000_000)`: a random number below one
/// billion; nothing else is known of it.
#[verifier::external_body]
pub(crate) fn random_below_billion() -> (r: u64)
    ensures
        r < 1_000_000_000,
{
    rand::rng().random_range(0..1_000_000_000u64)
}

/// `rand::random::<[u8; 32]>()`: 32 random bytes.
#[verifier::external_body]
pub(crate) fn random_32_bytes() -> (r: Vec<u8>)
    ensures
        r@.len() == 32,
{
    rand::random::<[u8; 32]>().to_vec()
}

/// `std::time::SystemTime::now()` as whole seconds since the Unix epoch,
/// zero for a clock set before it. Nothing is known of the value.
#[verifier::external_body]
pub(crate) fn unix_now() -> (r: u64) {
    std::time::SystemTime::now().duration_since(std::time::UNIX_EPOCH).unwrap_or_default().as_secs()
}

} // verus!
