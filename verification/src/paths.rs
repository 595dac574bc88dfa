//! Resolution of the application's data and configuration directories.
//!
//! The directory comes from, in order of priority: an explicit override, the
//! command-line argument (`--data-dir`, `--config-dir`), the environment
//! variable (`ICED_LENS_DATA_DIR`, `ICED_LENS_CONFIG_DIR`) when set and not
//! empty, and finally the platform directory with the application name
//! appended. The command-line value and the environment variable are read
//! by the caller and handed in.

use vstd::prelude::*;
use crate::path_util::{join_path, joined_path};

verus! {

/// Application name used for directory naming.
pub const APP_NAME: &'static str = "IcedLens";

/// Environment variable that overrides the data directory.
pub const ENV_DATA_DIR: &'static str = "ICED_LENS_DATA_DIR";

/// Environment variable that overrides the configuration directory.
pub const ENV_CONFIG_DIR: &'static str = "ICED_LENS_CONFIG_DIR";

/// The directory chosen from the four sources, in priority order.
pub open spec fn spec_resolve_dir(
    override_path: Option<Seq<char>>,
    cli: Option<Seq<char>>,
    env: Option<Seq<char>>,
    platform: Option<Seq<char>>,
) -> Option<Seq<char>> {
    if override_path is Some {
        override_path
    } else if cli is Some {
        cli
    } else if env matches Some(e) && e.len() > 0 {
        env
    } else {
        match platform {
            Some(p) => Some(joined_path(p, APP_NAME@)),
            None => None,
        }
    }
}

/// The view of an optional string.
pub open spec fn opt_view(s: Option<String>) -> Option<Seq<char>> {
    match s {
        Some(x) => Some(x@),
        None => None,
    }
}

/// Chooses the directory: the override, else the command-line value, else
/// the environment value when not empty, else the platform directory with
/// the application name appended.
pub fn resolve_app_dir(
    override_path: Option<String>,
    cli: Option<String>,
    env: Option<String>,
    platform: Option<String>,
) -> (r: Option<String>)
    ensures
        opt_view(r) == spec_resolve_dir(opt_view(override_path), opt_view(cli), opt_view(env), opt_view(platform)),
{
    if let Some(p) = override_path {
        return Some(p);
    }
    if let Some(p) = cli {
        return Some(p);
    }
    if let Some(e) = env {
        if e.as_str().unicode_len() > 0 {
            return Some(e);
        }
    }
    match platform {
        Some(p) => Some(join_path(p.as_str(), APP_NAME)),
        None => None,
    }
}

/// Calls `dirs::data_dir`. Its result depends on the environment and the
/// platform, so nothing is claimed of it.
#[verifier::external_body]
fn platform_data_dir() -> (r: Option<String>)
{
    match dirs::data_dir() {
        Some(p) => Some(p.to_string_lossy().into_owned()),
        None => None,
    }
}

/// Calls `dirs::config_dir`. Its result depends on the environment and the
/// platform, so nothing is claimed of it.
#[verifier::external_body]
fn platform_config_dir() -> (r: Option<String>)
{
    match dirs::config_dir() {
        Some(p) => Some(p.to_string_lossy().into_owned()),
        None => None,
    }
}

/// What holds of a resolved directory whatever the platform directory is.
pub open spec fn resolved_dir(
    override_path: Option<Seq<char>>,
    cli: Option<Seq<char>>,
    env: Option<Seq<char>>,
    r: Option<Seq<char>>,
) -> bool {
    if override_path is Some || cli is Some || (env matches Some(e) && e.len() > 0) {
        r == spec_resolve_dir(override_path, cli, env, None)
    } else {
        r is None || exists|p: Seq<char>| r == Some(joined_path(p, APP_NAME@))
    }
}

fn app_dir_from(
    override_path: Option<String>,
    cli: Option<String>,
    env: Option<String>,
    data: bool,
) -> (r: Option<String>)
    ensures
        resolved_dir(opt_view(override_path), opt_view(cli), opt_view(env), opt_view(r)),
{
    let needs_platform = override_path.is_none() && cli.is_none() && match &env {
        Some(e) => e.as_str().unicode_len() == 0,
        None => true,
    };
    let platform = if needs_platform {
        if data { platform_data_dir() } else { platform_config_dir() }
    } else {
        None
    };
    let ghost pv = opt_view(platform);
    let r = resolve_app_dir(override_path, cli, env, platform);
    proof {
        if let Some(p) = pv {
            assert(opt_view(r) == Some(joined_path(p, APP_NAME@)));
        }
    }
    r
}

/// The application data directory (for state files), given an optional
/// override, the command-line value and the environment variable's value.
pub fn get_app_data_dir_with_override(
    override_path: Option<String>,
    cli: Option<String>,
    env: Option<String>,
) -> (r: Option<String>)
    ensures
        resolved_dir(opt_view(override_path), opt_view(cli), opt_view(env), opt_view(r)),
{
    app_dir_from(override_path, cli, env, true)
}

/// The application data directory with no explicit override.
pub fn get_app_data_dir(cli: Option<String>, env: Option<String>) -> (r: Option<String>)
    ensures
        resolved_dir(None, opt_view(cli), opt_view(env), opt_view(r)),
{
    get_app_data_dir_with_override(None, cli, env)
}

/// The application configuration directory (for `settings.toml`), given an
/// optional override, the command-line value and the environment variable's value.
pub fn get_app_config_dir_with_override(
    override_path: Option<String>,
    cli: Option<String>,
    env: Option<String>,
) -> (r: Option<String>)
    ensures
        resolved_dir(opt_view(override_path), opt_view(cli), opt_view(env), opt_view(r)),
{
    app_dir_from(override_path, cli, env, false)
}

/// The application configuration directory with no explicit override.
pub fn get_app_config_dir(cli: Option<String>, env: Option<String>) -> (r: Option<String>)
    ensures
        resolved_dir(None, opt_view(cli), opt_view(env), opt_view(r)),
{
    get_app_config_dir_with_override(None, cli, env)
}

/// An explicit override always wins over the command line, the environment
/// and the platform directory.
pub proof fn lemma_override_takes_precedence(
    o: Seq<char>,
    cli: Option<Seq<char>>,
    env: Option<Seq<char>>,
    platform: Option<Seq<char>>,
)
    ensures
        spec_resolve_dir(Some(o), cli, env, platform) == Some(o),
{
}

/// An empty environment variable is ignored, as if it were unset.
pub proof fn lemma_empty_env_is_ignored(
    cli: Option<Seq<char>>,
    platform: Option<Seq<char>>,
)
    ensures
        spec_resolve_dir(None, cli, Some(Seq::<char>::empty()), platform)
            == spec_resolve_dir(None, cli, None, platform),
{
}

} // verus!
