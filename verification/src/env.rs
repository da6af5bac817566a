//! Where the program finds its files, and what it runs with.

use vstd::prelude::*;
use vstd::string::*;
use crate::auth::config::{AuthorizationConfig, AuthorizationConfigView};
use crate::paths::{join, path_join};

verus! {

/// Origin of the resource API.
pub const API_ENDPOINT: &'static str = "https://api.spotify.com";

/// The program's directory below the user's configuration directory.
pub const CONFIG_SUBDIR: &'static str = "sptty/";

/// Name of the configuration file.
pub const CONFIG_FILE: &'static str = "config.toml";

/// The directory of the user's service units below the runtime directory.
pub const SYSTEMD_USER_SUBDIR: &'static str = "systemd/user";

/// What the program runs with.
#[derive(Debug)]
pub struct Environment {
    pub auth_config: AuthorizationConfig,
    pub api_endpoint: String,
}

/// An `Environment` as plain values.
pub struct EnvironmentView {
    pub auth_config: AuthorizationConfigView,
    pub api_endpoint: Seq<char>,
}

impl View for Environment {
    type V = EnvironmentView;

    open spec fn view(&self) -> EnvironmentView {
        EnvironmentView { auth_config: self.auth_config@, api_endpoint: self.api_endpoint@ }
    }
}

/// The configuration directory: the one that the user named, or else the
/// program's directory below the user's configuration directory.
pub open spec fn config_dir_of(named: Option<Seq<char>>, user_config_dir: Seq<char>) -> Seq<char> {
    match named {
        Some(dir) => dir,
        None => path_join(user_config_dir, CONFIG_SUBDIR@),
    }
}

impl Environment {
    /// The environment for a loaded configuration: it talks to the
    /// provider's resource API.
    pub fn load(auth_config: AuthorizationConfig) -> (env: Self)
        ensures
            env@ == (EnvironmentView { auth_config: auth_config@, api_endpoint: API_ENDPOINT@ }),
    {
        Environment { auth_config, api_endpoint: String::from_str(API_ENDPOINT) }
    }

    /// The configuration directory, given the directory that the user named
    /// in the process environment, if any, and the user's configuration
    /// directory.
    pub fn config_dir(named: Option<String>, user_config_dir: &str) -> (dir: String)
        ensures
            dir@ == config_dir_of(named.deep_view(), user_config_dir@),
    {
        match named {
            Some(dir) => dir,
            None => join(user_config_dir, CONFIG_SUBDIR),
        }
    }

    /// The configuration file in the configuration directory.
    pub fn config_file(config_dir: &str) -> (file: String)
        ensures
            file@ == path_join(config_dir@, CONFIG_FILE@),
    {
        join(config_dir, CONFIG_FILE)
    }

    /// The directory of the user's service units, given the user's runtime
    /// directory.
    pub fn systemd_user_runtime_dir(runtime_dir: &str) -> (dir: String)
        ensures
            dir@ == path_join(runtime_dir@, SYSTEMD_USER_SUBDIR@),
    {
        join(runtime_dir, SYSTEMD_USER_SUBDIR)
    }
}

} // verus!
