//! The persisted configuration and where it lives.
use vstd::prelude::*;

use crate::env::{app_file_path, spec_app_file, HostEnvironment};
use crate::text::opt_view;
use crate::usage::SourceMode;

verus! {

/// The cache lifetime used when the configuration does not set one.
pub const DEFAULT_CACHE_TTL_SECONDS: u64 = 30;

/// The configuration of status collection.
#[derive(Clone, Copy, Debug, PartialEq, Eq, Structural)]
pub struct StatusConfig {
    pub default_source: SourceMode,
    pub cache_ttl_seconds: u64,
    pub cache_enabled: bool,
}

/// The whole configuration file.
#[derive(Clone, Copy, Debug, PartialEq, Eq, Structural)]
pub struct AppConfig {
    pub status: StatusConfig,
}

/// The defaults: source `auto`, a 30-second cache, cache enabled.
pub open spec fn default_status_config() -> StatusConfig {
    StatusConfig {
        default_source: SourceMode::Auto,
        cache_ttl_seconds: 30,
        cache_enabled: true,
    }
}

impl Default for StatusConfig {
    fn default() -> (r: Self)
        ensures
            r == default_status_config(),
    {
        StatusConfig {
            default_source: SourceMode::Auto,
            cache_ttl_seconds: DEFAULT_CACHE_TTL_SECONDS,
            cache_enabled: true,
        }
    }
}

impl Default for AppConfig {
    fn default() -> (r: Self)
        ensures
            r.status == default_status_config(),
    {
        AppConfig { status: StatusConfig::default() }
    }
}

/// The configuration in effect: the one that was read and parsed, or the
/// defaults when the file is missing or does not parse.
pub fn load_config(parsed: Option<AppConfig>) -> (r: AppConfig)
    ensures
        r == (match parsed {
            Some(c) => c,
            None => AppConfig { status: default_status_config() },
        }),
{
    match parsed {
        Some(c) => c,
        None => AppConfig::default(),
    }
}

/// The configuration file path: `$XDG_CONFIG_HOME/codexbar/config.json`, else
/// `$HOME/.config/codexbar/config.json`, else `config.json`.
pub open spec fn spec_config_path(xdg_config_home: Option<Seq<char>>, home: Option<Seq<char>>) -> Seq<
    char,
> {
    spec_app_file(xdg_config_home, home, ".config"@, "config.json"@)
}

/// The path of the configuration file.
pub fn config_path(env: &HostEnvironment) -> (r: String)
    ensures
        r@ == spec_config_path(opt_view(env.xdg_config_home), opt_view(env.home)),
{
    app_file_path(&env.xdg_config_home, &env.home, ".config", "config.json")
}

} // verus!
