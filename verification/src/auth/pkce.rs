//! Proof Key for Code Exchange: the secret verifier and the challenge that is
//! derived from it.

use vstd::prelude::*;
use vstd::string::*;
use crate::codec::{base64url_encode, base64url_nopad, is_base64url, sha256, sha256_digest};
use crate::entropy::next_u32;

verus! {

/// Number of characters in a code verifier.
pub const VERIFIER_LEN: usize = 128;

/// Number of characters in a code challenge.
pub const CHALLENGE_LEN: usize = 43;

/// Number of symbols in the verifier alphabet.
pub const ALPHABET_LEN: u32 = 66;

/// Draws after which `sample` stops rejecting.
pub const MAX_DRAWS: u32 = 0xffff_ffff;

/// The verifier alphabet in index order.
pub open spec fn alphabet() -> Seq<char> {
    "ABCDEFGHIJKLMNOPQRSTUVWXYZabcdefghijklmnopqrstuvwxyz0123456789_.-~"@
}

/// An "unreserved" character: a letter, a digit, or one of `_ . - ~`.
pub open spec fn is_unreserved(c: char) -> bool {
    ||| 'A' <= c <= 'Z'
    ||| 'a' <= c <= 'z'
    ||| '0' <= c <= '9'
    ||| c == '_'
    ||| c == '.'
    ||| c == '-'
    ||| c == '~'
}

/// A well-formed code verifier: 128 unreserved characters.
pub open spec fn is_verifier(s: Seq<char>) -> bool {
    &&& s.len() == VERIFIER_LEN
    &&& forall|i: int| 0 <= i < s.len() ==> is_unreserved(#[trigger] s[i])
}

/// The alphabet holds 66 symbols, and every one of them is unreserved.
pub proof fn lemma_alphabet()
    ensures
        alphabet().len() == ALPHABET_LEN,
        forall|i: int| 0 <= i < ALPHABET_LEN ==> is_unreserved(#[trigger] alphabet()[i]),
{
    reveal_strlit("ABCDEFGHIJKLMNOPQRSTUVWXYZabcdefghijklmnopqrstuvwxyz0123456789_.-~");
}

/// The symbol that a random word selects: its top seven bits index the
/// alphabet, and a word whose index falls outside the alphabet selects none.
pub open spec fn symbol_of(word: u32) -> Option<char> {
    if (word >> 25) < ALPHABET_LEN {
        Some(alphabet()[(word >> 25) as int])
    } else {
        None
    }
}

/// The distribution of verifier symbols: uniform over the alphabet.
#[derive(Debug)]
pub struct PkceCodeVerifierChars;

impl PkceCodeVerifierChars {
    /// Decides what one random word yields: the symbol it selects, or `None`
    /// when the word is to be rejected and another drawn. Rejecting rather
    /// than reducing the index keeps every symbol equally likely.
    pub fn accept(word: u32) -> (r: Option<char>)
        ensures
            r == symbol_of(word),
            r matches Some(c) ==> is_unreserved(c),
    {
        proof {
            lemma_alphabet();
        }
        let index: u32 = word >> 25;
        if index < ALPHABET_LEN {
            Some(alphabet_text().get_char(index as usize))
        } else {
            None
        }
    }

    /// Draws one symbol of the alphabet by rejection sampling.
    ///
    /// Random words are drawn until one selects a symbol. A word is rejected
    /// with probability 62/128, so the cap of `MAX_DRAWS` rejections is out of
    /// reach in practice; it exists so that the function returns on every
    /// outcome. Past the cap, the index of one more word is reduced modulo the
    /// alphabet's size.
    pub fn sample(&self) -> (c: char)
        ensures
            is_unreserved(c),
    {
        let mut rejected: u32 = 0;
        while rejected < MAX_DRAWS
            invariant
                rejected <= MAX_DRAWS,
            decreases MAX_DRAWS - rejected,
        {
            match Self::accept(next_u32()) {
                Some(c) => {
                    return c;
                },
                None => {
                    rejected = rejected + 1;
                },
            }
        }
        proof {
            lemma_alphabet();
        }
        let index: u32 = (next_u32() >> 25) % ALPHABET_LEN;
        alphabet_text().get_char(index as usize)
    }
}

/// The alphabet as text.
fn alphabet_text() -> (s: &'static str)
    ensures
        s@ == alphabet(),
{
    "ABCDEFGHIJKLMNOPQRSTUVWXYZabcdefghijklmnopqrstuvwxyz0123456789_.-~"
}

/// Generates a fresh code verifier: 128 symbols, each drawn independently
/// from the alphabet.
pub fn generate_verifier() -> (verifier: String)
    ensures
        is_verifier(verifier@),
{
    let chars = PkceCodeVerifierChars;
    let mut verifier = String::new();
    let mut n: usize = 0;
    while n < VERIFIER_LEN
        invariant
            n <= VERIFIER_LEN,
            verifier@.len() == n,
            forall|i: int| 0 <= i < verifier@.len() ==> is_unreserved(#[trigger] verifier@[i]),
        decreases VERIFIER_LEN - n,
    {
        let c = chars.sample();
        verifier.push(c);
        n = n + 1;
    }
    verifier
}

/// The challenge that belongs to a verifier: the unpadded URL-safe base64
/// text of the SHA-256 digest of the verifier's bytes.
pub open spec fn challenge_of(verifier: Seq<char>) -> Seq<char> {
    base64url_nopad(sha256_digest(vstd::utf8::encode_utf8(verifier)))
}

/// Derives the code challenge of `code_verifier`.
///
/// The result depends on the verifier alone, is 43 characters long and holds
/// only characters of the URL-safe base64 alphabet, so no padding.
pub fn derive_challenge(code_verifier: &str) -> (challenge: String)
    ensures
        challenge@ == challenge_of(code_verifier@),
        challenge@.len() == CHALLENGE_LEN,
        is_base64url(challenge@),
{
    let hash = sha256(code_verifier.as_bytes());
    base64url_encode(hash.as_slice())
}

} // verus!
