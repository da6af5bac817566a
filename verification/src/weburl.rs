//! URLs. Parsing, resolving and serialising them is the work of the `url`
//! crate, reached here as `reqwest::Url`. A URL crosses this module's
//! boundary as text: each function parses what it is given, asks one thing of
//! the parsed URL and hands back plain values. What the crate computes is
//! named by the specification functions below, so that callers can say
//! exactly which URL they produced.

use vstd::prelude::*;

verus! {

/// What parsing `input` as an absolute URL gives: its serialisation, or the
/// parser's complaint.
pub uninterp spec fn url_normalized(input: Seq<char>) -> Result<Seq<char>, Seq<char>>;

/// The serialisation of the URL `endpoint` after the name/value `pairs` have
/// been appended to its query in `application/x-www-form-urlencoded` syntax.
/// Meaningful where `endpoint` parses.
pub uninterp spec fn url_with_query(
    endpoint: Seq<char>,
    pairs: Seq<(Seq<char>, Seq<char>)>,
) -> Seq<char>;

/// The host of the URL `input`, as text, if it has one. Meaningful where
/// `input` parses.
pub uninterp spec fn url_host(input: Seq<char>) -> Option<Seq<char>>;

/// The port that the URL `input` names, unless it is absent or the default of
/// the scheme. Meaningful where `input` parses.
pub uninterp spec fn url_port(input: Seq<char>) -> Option<u16>;

/// What resolving `reference` against the URL `base` gives: the resulting
/// URL's serialisation, or the parser's complaint about either of the two.
pub uninterp spec fn url_joined(base: Seq<char>, reference: Seq<char>) -> Result<
    Seq<char>,
    Seq<char>,
>;

/// What the query of `reference`, resolved against the URL `base`, holds:
/// its name/value pairs, percent-decoded, in the order in which they stand;
/// or the parser's complaint about either of the two texts.
pub uninterp spec fn url_reference_query(base: Seq<char>, reference: Seq<char>) -> Result<
    Seq<(Seq<char>, Seq<char>)>,
    Seq<char>,
>;

/// Longest text, in bytes, that may be handed to `with_query` as the endpoint
/// or as a name or a value.
pub const MAX_PART_BYTES: usize = 0x0100_0000;

/// Largest number of pairs that may be handed to `with_query`.
pub const MAX_PAIRS: usize = 16;

/// `s` is short enough to become part of a URL.
pub open spec fn fits(s: Seq<char>) -> bool {
    vstd::utf8::encode_utf8(s).len() <= MAX_PART_BYTES
}

/// `pairs` are few and short enough to become the query of a URL.
pub open spec fn pairs_fit(pairs: Seq<(Seq<char>, Seq<char>)>) -> bool {
    &&& pairs.len() <= MAX_PAIRS
    &&& forall|i: int| 0 <= i < pairs.len() ==> fits((#[trigger] pairs[i]).0) && fits(pairs[i].1)
}

/// A result of texts, as character sequences.
pub open spec fn text_result(r: Result<String, String>) -> Result<Seq<char>, Seq<char>> {
    match r {
        Ok(s) => Ok(s@),
        Err(e) => Err(e@),
    }
}

/// Calls `Url::parse`, and turns the URL into its serialisation or the error
/// into its message.
///
/// Trusted: the outcome is a function of the input text.
#[verifier::external_body]
pub(crate) fn parse(input: &str) -> (out: Result<String, String>)
    ensures
        text_result(out) == url_normalized(input@),
{
    match reqwest::Url::parse(input) {
        Ok(url) => Ok(url.into()),
        Err(e) => Err(e.to_string()),
    }
}

/// Calls `Url::query_pairs_mut` and `Serializer::extend_pairs` on the parsed
/// `endpoint`, and serialises the URL.
///
/// Trusted: it fails exactly when `endpoint` does not parse, with the parser's
/// message; appending pairs cannot fail. The outside code keeps positions
/// within a URL in 32 bits and panics beyond them, hence the bounds on the
/// input: they keep the result far below that size.
#[verifier::external_body]
pub(crate) fn with_query(endpoint: &str, pairs: &Vec<(String, String)>) -> (out: Result<
    String,
    String,
>)
    requires
        fits(endpoint@),
        pairs_fit(pairs.deep_view()),
    ensures
        match out {
            Ok(url) => url_normalized(endpoint@) is Ok && url@ == url_with_query(
                endpoint@,
                pairs.deep_view(),
            ),
            Err(e) => url_normalized(endpoint@) == Err::<Seq<char>, Seq<char>>(e@),
        },
{
    match reqwest::Url::parse(endpoint) {
        Ok(mut url) => {
            url.query_pairs_mut().extend_pairs(pairs);
            Ok(url.into())
        },
        Err(e) => Err(e.to_string()),
    }
}

/// Calls `Url::host` on the parsed `input`, and turns the host into text.
///
/// Trusted: it fails exactly when `input` does not parse, with the parser's
/// message.
#[verifier::external_body]
pub(crate) fn host(input: &str) -> (out: Result<Option<String>, String>)
    ensures
        match out {
            Ok(host) => url_normalized(input@) is Ok && host.deep_view() == url_host(input@),
            Err(e) => url_normalized(input@) == Err::<Seq<char>, Seq<char>>(e@),
        },
{
    match reqwest::Url::parse(input) {
        Ok(url) => match url.host() {
            Some(host) => Ok(Some(host.to_string())),
            None => Ok(None),
        },
        Err(e) => Err(e.to_string()),
    }
}

/// Calls `Url::port` on the parsed `input`.
///
/// Trusted: it fails exactly when `input` does not parse, with the parser's
/// message.
#[verifier::external_body]
pub(crate) fn port(input: &str) -> (out: Result<Option<u16>, String>)
    ensures
        match out {
            Ok(port) => url_normalized(input@) is Ok && port == url_port(input@),
            Err(e) => url_normalized(input@) == Err::<Seq<char>, Seq<char>>(e@),
        },
{
    match reqwest::Url::parse(input) {
        Ok(url) => Ok(url.port()),
        Err(e) => Err(e.to_string()),
    }
}

/// Calls `Url::join` on the parsed `base`, and turns the URL into its
/// serialisation or the error into its message.
///
/// Trusted: the outcome is a function of the two texts.
#[verifier::external_body]
pub(crate) fn join(base: &str, reference: &str) -> (out: Result<String, String>)
    ensures
        text_result(out) == url_joined(base@, reference@),
{
    match reqwest::Url::parse(base) {
        Ok(url) => match url.join(reference) {
            Ok(joined) => Ok(joined.into()),
            Err(e) => Err(e.to_string()),
        },
        Err(e) => Err(e.to_string()),
    }
}

/// Calls `Url::join` on the parsed `base` and `Url::query_pairs` on the
/// result, and collects the pairs as owned strings.
///
/// Trusted: the outcome is a function of the two texts.
#[verifier::external_body]
pub(crate) fn reference_query(base: &str, reference: &str) -> (out: Result<
    Vec<(String, String)>,
    String,
>)
    ensures
        match out {
            Ok(pairs) => url_reference_query(base@, reference@) == Ok::<
                Seq<(Seq<char>, Seq<char>)>,
                Seq<char>,
            >(pairs.deep_view()),
            Err(e) => url_reference_query(base@, reference@) == Err::<
                Seq<(Seq<char>, Seq<char>)>,
                Seq<char>,
            >(e@),
        },
{
    match reqwest::Url::parse(base) {
        Ok(url) => match url.join(reference) {
            Ok(resolved) => Ok(resolved.query_pairs().into_owned().collect()),
            Err(e) => Err(e.to_string()),
        },
        Err(e) => Err(e.to_string()),
    }
}

} // verus!
