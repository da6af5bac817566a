//! The authorization request: the URL that the user is sent to, and the
//! state token that ties the provider's redirect to this attempt.

use vstd::prelude::*;
use vstd::string::*;
use crate::auth::config::{AuthorizationConfig, AuthorizationConfigView};
use crate::codec::{base64url_encode, base64url_nopad, is_base64url};
use crate::entropy::random_block;
use crate::error::{Error, ErrorView};
use crate::text::{lemma_ascii_byte_len, pair};
use crate::weburl::{fits, pairs_fit, url_normalized, url_with_query, with_query};

verus! {

/// The permissions that every authorization asks for. They are not
/// configurable.
pub const SCOPE: &'static str =
    "streaming user-read-email user-read-private user-read-playback-state user-top-read";

/// Number of random bytes behind a state token.
pub const STATE_BYTES: usize = 16;

/// Number of characters of a state token.
pub const STATE_LEN: usize = 22;

/// A state token: the unpadded URL-safe base64 text of sixteen bytes.
pub open spec fn is_state_token(s: Seq<char>) -> bool {
    &&& exists|block: Seq<u8>| block.len() == STATE_BYTES && s == #[trigger] base64url_nopad(block)
    &&& s.len() == STATE_LEN
    &&& is_base64url(s)
}

/// The query parameters of the authorization request, in the order in which
/// they are written.
pub open spec fn authorization_params(
    config: AuthorizationConfigView,
    challenge: Seq<char>,
    state: Seq<char>,
) -> Seq<(Seq<char>, Seq<char>)> {
    seq![
        ("client_id"@, config.client_id),
        ("response_type"@, "code"@),
        ("redirect_uri"@, config.redirect_uri),
        ("code_challenge_method"@, "S256"@),
        ("code_challenge"@, challenge),
        ("scope"@, SCOPE@),
        ("state"@, state),
    ]
}

/// The authorization URL for a challenge and a state: the configured
/// endpoint with the request's parameters appended to its query. There is
/// none exactly when the endpoint is not a URL.
pub open spec fn authorization_url_of(
    config: AuthorizationConfigView,
    challenge: Seq<char>,
    state: Seq<char>,
) -> Result<Seq<char>, ErrorView> {
    match url_normalized(config.authorization_endpoint) {
        Ok(_) => Ok(
            url_with_query(
                config.authorization_endpoint,
                authorization_params(config, challenge, state),
            ),
        ),
        Err(complaint) => Err(ErrorView::Config(complaint)),
    }
}

/// Every authorization request asks for the S256 challenge method and
/// carries the attempt's state, whatever the configuration.
pub proof fn lemma_request_names_method_and_state(
    config: AuthorizationConfigView,
    challenge: Seq<char>,
    state: Seq<char>,
)
    ensures
        authorization_params(config, challenge, state).len() == 7,
        authorization_params(config, challenge, state)[3] == ("code_challenge_method"@, "S256"@),
        authorization_params(config, challenge, state)[4] == ("code_challenge"@, challenge),
        authorization_params(config, challenge, state)[6] == ("state"@, state),
{
}

/// Text of the URL-safe base64 alphabet takes one byte for each character.
pub proof fn lemma_base64url_byte_len(s: Seq<char>)
    requires
        is_base64url(s),
    ensures
        vstd::utf8::encode_utf8(s).len() == s.len(),
{
    lemma_ascii_byte_len(s);
}

/// Draws a fresh state token.
pub fn state_token() -> (state: String)
    ensures
        is_state_token(state@),
{
    let block = random_block();
    base64url_encode(block.as_slice())
}

/// Builds the authorization URL for a given challenge and state.
pub fn authorization_request(config: &AuthorizationConfig, challenge: &str, state: &str) -> (r:
    Result<String, Error>)
    requires
        config@.fits(),
        fits(challenge@),
        fits(state@),
    ensures
        match r {
            Ok(url) => Ok::<Seq<char>, ErrorView>(url@),
            Err(e) => Err(e@),
        } == authorization_url_of(config@, challenge@, state@),
{
    let mut params: Vec<(String, String)> = Vec::new();
    params.push(pair("client_id", config.client_id.as_str()));
    params.push(pair("response_type", "code"));
    params.push(pair("redirect_uri", config.redirect_uri.as_str()));
    params.push(pair("code_challenge_method", "S256"));
    params.push(pair("code_challenge", challenge));
    params.push(pair("scope", SCOPE));
    params.push(pair("state", state));
    proof {
        reveal_strlit("client_id");
        reveal_strlit("response_type");
        reveal_strlit("code");
        reveal_strlit("redirect_uri");
        reveal_strlit("code_challenge_method");
        reveal_strlit("S256");
        reveal_strlit("code_challenge");
        reveal_strlit("scope");
        reveal_strlit("state");
        reveal_strlit(
            "streaming user-read-email user-read-private user-read-playback-state user-top-read",
        );
        lemma_ascii_byte_len("client_id"@);
        lemma_ascii_byte_len("response_type"@);
        lemma_ascii_byte_len("code"@);
        lemma_ascii_byte_len("redirect_uri"@);
        lemma_ascii_byte_len("code_challenge_method"@);
        lemma_ascii_byte_len("S256"@);
        lemma_ascii_byte_len("code_challenge"@);
        lemma_ascii_byte_len("scope"@);
        lemma_ascii_byte_len("state"@);
        lemma_ascii_byte_len(SCOPE@);
        assert(params.deep_view() =~= authorization_params(config@, challenge@, state@));
        assert(pairs_fit(params.deep_view()));
    }
    match with_query(config.authorization_endpoint.as_str(), &params) {
        Ok(url) => Ok(url),
        Err(complaint) => Err(Error::Config(complaint)),
    }
}

/// Builds the authorization URL for a challenge, with a fresh state token.
///
/// Returns the URL and the state that the redirect has to bring back. It
/// fails exactly when the configured authorization endpoint is not a URL.
pub fn authorization_url(config: &AuthorizationConfig, code_challenge: &str) -> (r: Result<
    (String, String),
    Error,
>)
    requires
        config@.fits(),
        fits(code_challenge@),
    ensures
        match r {
            Ok((url, state)) => is_state_token(state@) && authorization_url_of(
                config@,
                code_challenge@,
                state@,
            ) == Ok::<Seq<char>, ErrorView>(url@),
            Err(e) => url_normalized(config@.authorization_endpoint) matches Err(complaint) && e@
                == ErrorView::Config(complaint),
        },
{
    let state = state_token();
    proof {
        lemma_base64url_byte_len(state@);
    }
    match authorization_request(config, code_challenge, state.as_str()) {
        Ok(url) => Ok((url, state)),
        Err(e) => Err(e),
    }
}

} // verus!
