//! What the authorization flow is configured with, and the token record that
//! it yields.

use vstd::prelude::*;
use vstd::string::*;
use crate::error::{Error, ErrorView};
use crate::text::byte_len;
use crate::weburl::{fits, MAX_PART_BYTES};

verus! {

/// The provider's standard authorization endpoint.
pub const DEFAULT_AUTHORIZATION_ENDPOINT: &'static str = "https://accounts.spotify.com/authorize";

/// The provider's standard token endpoint.
pub const DEFAULT_TOKEN_ENDPOINT: &'static str = "https://accounts.spotify.com/api/token";

/// The settings of the authorization flow. They are read once and do not
/// change afterwards.
#[derive(Debug)]
pub struct AuthorizationConfig {
    pub client_id: String,
    pub redirect_uri: String,
    pub authorization_endpoint: String,
    pub token_endpoint: String,
}

/// An `AuthorizationConfig` with its texts as character sequences.
pub struct AuthorizationConfigView {
    pub client_id: Seq<char>,
    pub redirect_uri: Seq<char>,
    pub authorization_endpoint: Seq<char>,
    pub token_endpoint: Seq<char>,
}

impl View for AuthorizationConfig {
    type V = AuthorizationConfigView;

    open spec fn view(&self) -> AuthorizationConfigView {
        AuthorizationConfigView {
            client_id: self.client_id@,
            redirect_uri: self.redirect_uri@,
            authorization_endpoint: self.authorization_endpoint@,
            token_endpoint: self.token_endpoint@,
        }
    }
}

impl AuthorizationConfigView {
    /// The texts that go into the authorization URL are short enough for it.
    pub open spec fn fits(self) -> bool {
        &&& fits(self.client_id)
        &&& fits(self.redirect_uri)
        &&& fits(self.authorization_endpoint)
    }
}

/// The fields of a configuration file as they were found in it: each is
/// absent or a text.
#[derive(Debug)]
pub struct ConfigDocument {
    pub client_id: Option<String>,
    pub redirect_uri: Option<String>,
    pub authorization_endpoint: Option<String>,
    pub token_endpoint: Option<String>,
}

/// The configuration that a document with both required fields stands for:
/// an endpoint that the document leaves out is the provider's standard one.
pub open spec fn configured(
    client_id: Seq<char>,
    redirect_uri: Seq<char>,
    authorization_endpoint: Option<Seq<char>>,
    token_endpoint: Option<Seq<char>>,
) -> AuthorizationConfigView {
    AuthorizationConfigView {
        client_id,
        redirect_uri,
        authorization_endpoint: match authorization_endpoint {
            Some(e) => e,
            None => DEFAULT_AUTHORIZATION_ENDPOINT@,
        },
        token_endpoint: match token_endpoint {
            Some(e) => e,
            None => DEFAULT_TOKEN_ENDPOINT@,
        },
    }
}

/// What loading a document gives: the configuration it stands for, or the
/// complaint about the first required field that it lacks.
pub open spec fn loaded(
    client_id: Option<Seq<char>>,
    redirect_uri: Option<Seq<char>>,
    authorization_endpoint: Option<Seq<char>>,
    token_endpoint: Option<Seq<char>>,
) -> Result<AuthorizationConfigView, ErrorView> {
    match (client_id, redirect_uri) {
        (None, _) => Err(ErrorView::Config("missing field `client_id`"@)),
        (Some(_), None) => Err(ErrorView::Config("missing field `redirect_uri`"@)),
        (Some(c), Some(r)) => Ok(configured(c, r, authorization_endpoint, token_endpoint)),
    }
}

impl AuthorizationConfig {
    /// Builds the configuration from the fields of a configuration file.
    ///
    /// `client_id` and `redirect_uri` are required; the two endpoints default
    /// to the provider's standard ones.
    pub fn load(document: ConfigDocument) -> (r: Result<Self, Error>)
        ensures
            match r {
                Ok(config) => Ok::<AuthorizationConfigView, ErrorView>(config@),
                Err(e) => Err(e@),
            } == loaded(
                document.client_id.deep_view(),
                document.redirect_uri.deep_view(),
                document.authorization_endpoint.deep_view(),
                document.token_endpoint.deep_view(),
            ),
    {
        let client_id = match document.client_id {
            Some(c) => c,
            None => {
                return Err(Error::Config(String::from_str("missing field `client_id`")));
            },
        };
        let redirect_uri = match document.redirect_uri {
            Some(r) => r,
            None => {
                return Err(Error::Config(String::from_str("missing field `redirect_uri`")));
            },
        };
        let authorization_endpoint = match document.authorization_endpoint {
            Some(e) => e,
            None => Self::default_authorization_endpoint(),
        };
        let token_endpoint = match document.token_endpoint {
            Some(e) => e,
            None => Self::default_token_endpoint(),
        };
        Ok(AuthorizationConfig { client_id, redirect_uri, authorization_endpoint, token_endpoint })
    }

    /// The authorization endpoint of a configuration that names none.
    pub fn default_authorization_endpoint() -> (endpoint: String)
        ensures
            endpoint@ == DEFAULT_AUTHORIZATION_ENDPOINT@,
    {
        String::from_str(DEFAULT_AUTHORIZATION_ENDPOINT)
    }

    /// The token endpoint of a configuration that names none.
    pub fn default_token_endpoint() -> (endpoint: String)
        ensures
            endpoint@ == DEFAULT_TOKEN_ENDPOINT@,
    {
        String::from_str(DEFAULT_TOKEN_ENDPOINT)
    }

    /// Whether the texts that go into the authorization URL are short enough
    /// for it.
    pub fn fits(&self) -> (ok: bool)
        ensures
            ok == self@.fits(),
    {
        byte_len(self.client_id.as_str()) <= MAX_PART_BYTES && byte_len(
            self.redirect_uri.as_str(),
        ) <= MAX_PART_BYTES && byte_len(self.authorization_endpoint.as_str()) <= MAX_PART_BYTES
    }
}

impl Clone for AuthorizationConfig {
    fn clone(&self) -> (r: Self)
        ensures
            r@ == self@,
    {
        AuthorizationConfig {
            client_id: self.client_id.clone(),
            redirect_uri: self.redirect_uri.clone(),
            authorization_endpoint: self.authorization_endpoint.clone(),
            token_endpoint: self.token_endpoint.clone(),
        }
    }
}

/// What the token endpoint grants. No time of issue is kept with it.
#[derive(Debug, PartialEq, Eq)]
pub struct AccessToken {
    pub access_token: String,
    pub token_type: String,
    pub scope: String,
    /// Lifetime of the access token in seconds, as the provider stated it.
    pub expires_in: u64,
    pub refresh_token: String,
}

/// An `AccessToken` with its texts as character sequences.
pub struct AccessTokenView {
    pub access_token: Seq<char>,
    pub token_type: Seq<char>,
    pub scope: Seq<char>,
    pub expires_in: u64,
    pub refresh_token: Seq<char>,
}

impl View for AccessToken {
    type V = AccessTokenView;

    open spec fn view(&self) -> AccessTokenView {
        AccessTokenView {
            access_token: self.access_token@,
            token_type: self.token_type@,
            scope: self.scope@,
            expires_in: self.expires_in,
            refresh_token: self.refresh_token@,
        }
    }
}

impl Clone for AccessToken {
    fn clone(&self) -> (r: Self)
        ensures
            r@ == self@,
    {
        AccessToken {
            access_token: self.access_token.clone(),
            token_type: self.token_type.clone(),
            scope: self.scope.clone(),
            expires_in: self.expires_in,
            refresh_token: self.refresh_token.clone(),
        }
    }
}

} // verus!
