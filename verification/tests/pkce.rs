use sptty::auth::pkce::{
    derive_challenge, generate_verifier, PkceCodeVerifierChars, ALPHABET_LEN, CHALLENGE_LEN,
    VERIFIER_LEN,
};

const ALPHABET: &str = "ABCDEFGHIJKLMNOPQRSTUVWXYZabcdefghijklmnopqrstuvwxyz0123456789_.-~";

fn is_unreserved(c: char) -> bool {
    c.is_ascii_alphanumeric() || c == '_' || c == '.' || c == '-' || c == '~'
}

#[test]
fn verifier_has_128_unreserved_characters() {
    for _ in 0..50 {
        let verifier = generate_verifier();
        assert_eq!(verifier.chars().count(), 128);
        assert_eq!(verifier.len(), VERIFIER_LEN);
        assert!(verifier.chars().all(is_unreserved));
    }
}

#[test]
fn verifiers_differ_between_calls() {
    assert_ne!(generate_verifier(), generate_verifier());
}

#[test]
fn sample_stays_in_the_alphabet() {
    let chars = PkceCodeVerifierChars;
    for _ in 0..1000 {
        assert!(ALPHABET.contains(chars.sample()));
    }
}

#[test]
fn sample_reaches_every_part_of_the_alphabet() {
    let chars = PkceCodeVerifierChars;
    let mut upper = false;
    let mut lower = false;
    let mut digit = false;
    let mut mark = false;
    for _ in 0..5000 {
        let c = chars.sample();
        upper = upper || c.is_ascii_uppercase();
        lower = lower || c.is_ascii_lowercase();
        digit = digit || c.is_ascii_digit();
        mark = mark || "_.-~".contains(c);
    }
    assert!(upper && lower && digit && mark);
}

#[test]
fn accept_maps_the_top_seven_bits_to_a_symbol() {
    assert_eq!(PkceCodeVerifierChars::accept(0), Some('A'));
    assert_eq!(PkceCodeVerifierChars::accept(1 << 25), Some('B'));
    assert_eq!(PkceCodeVerifierChars::accept(25 << 25), Some('Z'));
    assert_eq!(PkceCodeVerifierChars::accept(26 << 25), Some('a'));
    assert_eq!(PkceCodeVerifierChars::accept(52 << 25), Some('0'));
    assert_eq!(PkceCodeVerifierChars::accept(62 << 25), Some('_'));
    assert_eq!(PkceCodeVerifierChars::accept(63 << 25), Some('.'));
    assert_eq!(PkceCodeVerifierChars::accept(64 << 25), Some('-'));
    assert_eq!(PkceCodeVerifierChars::accept(65 << 25), Some('~'));
}

#[test]
fn accept_ignores_the_low_bits() {
    assert_eq!(PkceCodeVerifierChars::accept((1 << 25) - 1), Some('A'));
    assert_eq!(PkceCodeVerifierChars::accept((65 << 25) | 0x01ff_ffff), Some('~'));
}

#[test]
fn accept_rejects_an_index_outside_the_alphabet() {
    assert_eq!(PkceCodeVerifierChars::accept(66 << 25), None);
    assert_eq!(PkceCodeVerifierChars::accept(100 << 25), None);
    assert_eq!(PkceCodeVerifierChars::accept(u32::MAX), None);
}

#[test]
fn accept_agrees_with_the_alphabet_at_every_index() {
    assert_eq!(ALPHABET.len() as u32, ALPHABET_LEN);
    for (index, symbol) in ALPHABET.chars().enumerate() {
        assert_eq!(PkceCodeVerifierChars::accept((index as u32) << 25), Some(symbol));
    }
    for index in 66u32..128 {
        assert_eq!(PkceCodeVerifierChars::accept(index << 25), None);
    }
}

#[test]
fn challenge_of_the_rfc_example() {
    let challenge = derive_challenge("dBjftJeZ4CVP-mB92K27uhbUJU1p1r_wW1gFWFOEjXk");
    assert_eq!(challenge, "E9Melhoa2OwvFrEMTJguCHaoeK1t8URWbuGJSstw-cM");
}

#[test]
fn challenge_of_the_empty_verifier() {
    assert_eq!(derive_challenge(""), "47DEQpj8HBSa-_TImW-5JCeuQeRkm5NMpJWZG3hSuFU");
}

#[test]
fn challenge_is_the_same_for_the_same_verifier() {
    let verifier = generate_verifier();
    assert_eq!(derive_challenge(&verifier), derive_challenge(&verifier));
}

#[test]
fn challenge_has_43_base64url_characters_and_no_padding() {
    for _ in 0..50 {
        let challenge = derive_challenge(&generate_verifier());
        assert_eq!(challenge.len(), CHALLENGE_LEN);
        assert_eq!(challenge.chars().count(), 43);
        assert!(challenge
            .chars()
            .all(|c| c.is_ascii_alphanumeric() || c == '-' || c == '_'));
        assert!(!challenge.contains('='));
    }
}

#[test]
fn challenge_differs_from_its_verifier() {
    let verifier = "dBjftJeZ4CVP-mB92K27uhbUJU1p1r_wW1gFWFOEjXk";
    assert_ne!(derive_challenge(verifier), verifier);
}
