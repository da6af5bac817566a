//! SHA-256 and unpadded URL-safe base64, as the PKCE challenge and the CSRF
//! state token need them. Both are computed by outside crates; this module
//! names their results so that contracts elsewhere can speak of them.

use vstd::prelude::*;

verus! {

/// The SHA-256 digest of `data`.
pub uninterp spec fn sha256_digest(data: Seq<u8>) -> Seq<u8>;

/// The base64 encoding of `data` in the URL-safe alphabet, without padding.
pub uninterp spec fn base64url_nopad(data: Seq<u8>) -> Seq<char>;

/// Length in bytes of a SHA-256 digest.
pub const SHA256_LEN: usize = 32;

/// A character of the URL-safe base64 alphabet. The padding sign `=` is not
/// one of them.
pub open spec fn is_base64url_char(c: char) -> bool {
    ||| 'A' <= c <= 'Z'
    ||| 'a' <= c <= 'z'
    ||| '0' <= c <= '9'
    ||| c == '-'
    ||| c == '_'
}

/// Number of characters that unpadded base64 needs for `n` bytes: four for
/// each full group of three, and one more than the bytes left over.
pub open spec fn base64_nopad_len(n: nat) -> nat {
    (n / 3) * 4 + if n % 3 == 0 {
        0nat
    } else {
        (n % 3 + 1) as nat
    }
}

/// Every character of `s` belongs to the URL-safe base64 alphabet.
pub open spec fn is_base64url(s: Seq<char>) -> bool {
    forall|i: int| 0 <= i < s.len() ==> is_base64url_char(#[trigger] s[i])
}

/// Calls `ring::digest::digest` with `ring::digest::SHA256`.
///
/// Trusted: the result is the SHA-256 digest of `data`, which is always 32
/// bytes long.
#[verifier::external_body]
pub(crate) fn sha256(data: &[u8]) -> (out: Vec<u8>)
    ensures
        out@ == sha256_digest(data@),
        out@.len() == SHA256_LEN,
{
    ring::digest::digest(&ring::digest::SHA256, data).as_ref().to_vec()
}

/// Calls `base64::encode_config` with `base64::URL_SAFE_NO_PAD`.
///
/// Trusted: the result is the unpadded URL-safe base64 text of `data`; it has
/// `base64_nopad_len` characters, all of them from that alphabet. The outside
/// function panics when the encoded size does not fit in `usize`, so such
/// inputs are excluded.
#[verifier::external_body]
pub(crate) fn base64url_encode(data: &[u8]) -> (out: String)
    requires
        base64_nopad_len(data@.len()) <= usize::MAX,
    ensures
        out@ == base64url_nopad(data@),
        out@.len() == base64_nopad_len(data@.len()),
        is_base64url(out@),
{
    base64::encode_config(data, base64::URL_SAFE_NO_PAD)
}

} // verus!
