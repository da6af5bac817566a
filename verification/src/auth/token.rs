//! The two requests to the token endpoint. Both are form-encoded POST
//! requests; this module says what they hold and how the answer is read.

use vstd::prelude::*;
use vstd::string::*;
use crate::auth::config::{AccessToken, AccessTokenView, AuthorizationConfig, AuthorizationConfigView};
use crate::error::{Error, ErrorView};
use crate::text::pair;

verus! {

/// The form that redeems an authorization code, in the order of its fields.
/// The verifier is the one whose challenge went into the authorization URL
/// of the same attempt.
pub open spec fn exchange_form(
    config: AuthorizationConfigView,
    code_verifier: Seq<char>,
    code: Seq<char>,
) -> Seq<(Seq<char>, Seq<char>)> {
    seq![
        ("client_id"@, config.client_id),
        ("grant_type"@, "authorization_code"@),
        ("code"@, code),
        ("redirect_uri"@, config.redirect_uri),
        ("code_verifier"@, code_verifier),
    ]
}

/// The form that trades a refresh token for a new record, in the order of
/// its fields.
pub open spec fn refresh_form(config: AuthorizationConfigView, token: AccessTokenView) -> Seq<
    (Seq<char>, Seq<char>),
> {
    seq![
        ("grant_type"@, "refresh_token"@),
        ("refresh_token"@, token.refresh_token),
        ("client_id"@, config.client_id),
    ]
}

/// A request to the token endpoint: where to post, and the form to post.
#[derive(Debug, PartialEq, Eq)]
pub struct TokenRequest {
    pub endpoint: String,
    pub form: Vec<(String, String)>,
}

/// A `TokenRequest` as plain values.
pub struct TokenRequestView {
    pub endpoint: Seq<char>,
    pub form: Seq<(Seq<char>, Seq<char>)>,
}

impl View for TokenRequest {
    type V = TokenRequestView;

    open spec fn view(&self) -> TokenRequestView {
        TokenRequestView { endpoint: self.endpoint@, form: self.form.deep_view() }
    }
}

/// The request that redeems `code` with the verifier of the same attempt.
pub fn exchange_code(config: &AuthorizationConfig, code_verifier: &str, code: &str) -> (request:
    TokenRequest)
    ensures
        request@ == (TokenRequestView {
            endpoint: config@.token_endpoint,
            form: exchange_form(config@, code_verifier@, code@),
        }),
{
    let mut form: Vec<(String, String)> = Vec::new();
    form.push(pair("client_id", config.client_id.as_str()));
    form.push(pair("grant_type", "authorization_code"));
    form.push(pair("code", code));
    form.push(pair("redirect_uri", config.redirect_uri.as_str()));
    form.push(pair("code_verifier", code_verifier));
    assert(form.deep_view() =~= exchange_form(config@, code_verifier@, code@));
    TokenRequest { endpoint: config.token_endpoint.clone(), form }
}

/// The request that refreshes `token`.
pub fn refresh(config: &AuthorizationConfig, token: &AccessToken) -> (request: TokenRequest)
    ensures
        request@ == (TokenRequestView {
            endpoint: config@.token_endpoint,
            form: refresh_form(config@, token@),
        }),
{
    let mut form: Vec<(String, String)> = Vec::new();
    form.push(pair("grant_type", "refresh_token"));
    form.push(pair("refresh_token", token.refresh_token.as_str()));
    form.push(pair("client_id", config.client_id.as_str()));
    assert(form.deep_view() =~= refresh_form(config@, token@));
    TokenRequest { endpoint: config.token_endpoint.clone(), form }
}

/// The failure that a refusal by the token endpoint amounts to. It carries
/// the response body unchanged.
pub fn refusal(body: String) -> (error: Error)
    ensures
        error@ == ErrorView::TokenExchange(body@),
{
    Error::TokenExchange(body)
}

} // verus!
