//! A Spotify command-line client's core: the OAuth2 authorization-code flow
//! with PKCE, the token lifecycle around it, and the authenticated request
//! layer that every command builds on.
//!
//! The library decides and computes; reading files, opening sockets and
//! awaiting the network are left to the program that links it.

pub mod text;
pub mod error;
pub mod codec;
pub mod entropy;
pub mod weburl;
pub mod http;
pub mod auth;
pub mod rest;
pub mod paths;
pub mod env;
pub mod model;
pub mod cmd;
