//! Authorization against the provider's OAuth2 service.

pub mod cache;
pub mod config;
pub mod pkce;
pub mod authorize;
pub mod callback;
pub mod token;
pub mod flow;
