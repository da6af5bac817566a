use sptty::auth::cache::cache_file;
use sptty::auth::config::{
    AccessToken, AuthorizationConfig, ConfigDocument, DEFAULT_AUTHORIZATION_ENDPOINT,
    DEFAULT_TOKEN_ENDPOINT,
};
use sptty::error::Error;

fn document(client_id: Option<&str>, redirect_uri: Option<&str>) -> ConfigDocument {
    ConfigDocument {
        client_id: client_id.map(String::from),
        redirect_uri: redirect_uri.map(String::from),
        authorization_endpoint: None,
        token_endpoint: None,
    }
}

#[test]
fn default_endpoints_are_the_providers() {
    assert_eq!(
        AuthorizationConfig::default_authorization_endpoint(),
        "https://accounts.spotify.com/authorize"
    );
    assert_eq!(
        AuthorizationConfig::default_token_endpoint(),
        "https://accounts.spotify.com/api/token"
    );
    assert_eq!(DEFAULT_AUTHORIZATION_ENDPOINT, "https://accounts.spotify.com/authorize");
    assert_eq!(DEFAULT_TOKEN_ENDPOINT, "https://accounts.spotify.com/api/token");
}

#[test]
fn load_fills_in_the_default_endpoints() {
    let config =
        AuthorizationConfig::load(document(Some("abc"), Some("http://127.0.0.1:4381/callback")))
            .unwrap();
    assert_eq!(config.client_id, "abc");
    assert_eq!(config.redirect_uri, "http://127.0.0.1:4381/callback");
    assert_eq!(config.authorization_endpoint, "https://accounts.spotify.com/authorize");
    assert_eq!(config.token_endpoint, "https://accounts.spotify.com/api/token");
}

#[test]
fn load_keeps_the_endpoints_that_are_given() {
    let config = AuthorizationConfig::load(ConfigDocument {
        client_id: Some("abc".to_string()),
        redirect_uri: Some("http://localhost:1/".to_string()),
        authorization_endpoint: Some("https://login.example/authorize".to_string()),
        token_endpoint: Some("https://login.example/token".to_string()),
    })
    .unwrap();
    assert_eq!(config.authorization_endpoint, "https://login.example/authorize");
    assert_eq!(config.token_endpoint, "https://login.example/token");
}

#[test]
fn load_keeps_one_endpoint_and_defaults_the_other() {
    let config = AuthorizationConfig::load(ConfigDocument {
        client_id: Some("abc".to_string()),
        redirect_uri: Some("http://localhost:1/".to_string()),
        authorization_endpoint: None,
        token_endpoint: Some("https://login.example/token".to_string()),
    })
    .unwrap();
    assert_eq!(config.authorization_endpoint, "https://accounts.spotify.com/authorize");
    assert_eq!(config.token_endpoint, "https://login.example/token");
}

#[test]
fn load_requires_the_client_id() {
    let r = AuthorizationConfig::load(document(None, Some("http://localhost:1/")));
    assert_eq!(r.unwrap_err(), Error::Config("missing field `client_id`".to_string()));
}

#[test]
fn load_requires_the_redirect_uri() {
    let r = AuthorizationConfig::load(document(Some("abc"), None));
    assert_eq!(r.unwrap_err(), Error::Config("missing field `redirect_uri`".to_string()));
}

#[test]
fn load_names_the_client_id_first_where_both_are_missing() {
    let r = AuthorizationConfig::load(document(None, None));
    assert_eq!(r.unwrap_err(), Error::Config("missing field `client_id`".to_string()));
}

#[test]
fn an_ordinary_configuration_fits() {
    let config =
        AuthorizationConfig::load(document(Some("abc"), Some("http://127.0.0.1:4381/callback")))
            .unwrap();
    assert!(config.fits());
}

#[test]
fn an_oversized_client_id_does_not_fit() {
    let long = "a".repeat(0x0100_0001);
    let config =
        AuthorizationConfig::load(document(Some(&long), Some("http://127.0.0.1:4381/callback")))
            .unwrap();
    assert!(!config.fits());
}

#[test]
fn a_client_id_at_the_limit_fits() {
    let long = "a".repeat(0x0100_0000);
    let config =
        AuthorizationConfig::load(document(Some(&long), Some("http://127.0.0.1:4381/callback")))
            .unwrap();
    assert!(config.fits());
}

#[test]
fn clone_keeps_every_field() {
    let config = AuthorizationConfig::load(ConfigDocument {
        client_id: Some("abc".to_string()),
        redirect_uri: Some("http://localhost:1/".to_string()),
        authorization_endpoint: Some("https://a.example/".to_string()),
        token_endpoint: Some("https://t.example/".to_string()),
    })
    .unwrap();
    let copy = config.clone();
    assert_eq!(copy.client_id, config.client_id);
    assert_eq!(copy.redirect_uri, config.redirect_uri);
    assert_eq!(copy.authorization_endpoint, config.authorization_endpoint);
    assert_eq!(copy.token_endpoint, config.token_endpoint);
}

#[test]
fn token_clone_is_equal() {
    let token = AccessToken {
        access_token: "at".to_string(),
        token_type: "Bearer".to_string(),
        scope: "streaming".to_string(),
        expires_in: 3600,
        refresh_token: "rt".to_string(),
    };
    assert_eq!(token.clone(), token);
}

#[test]
fn cache_file_lies_below_the_cache_directory() {
    assert_eq!(cache_file("/home/u/.cache"), "/home/u/.cache/sptty/token");
    assert_eq!(cache_file("/home/u/.cache/"), "/home/u/.cache/sptty/token");
}
