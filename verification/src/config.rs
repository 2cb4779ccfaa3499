//! The persisted configuration's data model. Reading and writing the
//! file, and credential storage, are the transport layer's work; this
//! module fixes the shape and the defaults.

use vstd::prelude::*;

verus! {

/// The stored account identity.
#[derive(Debug, PartialEq, Eq)]
pub struct UserConfig {
    pub username: String,
    pub email: Option<String>,
}

/// Display preferences; the defaults are the dark theme and the
/// repository view.
#[derive(Debug, PartialEq, Eq)]
pub struct Preferences {
    pub theme: String,
    pub default_view: String,
}

impl Default for Preferences {
    fn default() -> (r: Preferences)
        ensures
            r.theme@ == "dark"@,
            r.default_view@ == "repos"@,
    {
        Preferences { theme: "dark".to_owned(), default_view: "repos".to_owned() }
    }
}

/// The whole persisted configuration.
#[derive(Debug, PartialEq, Eq)]
pub struct Config {
    pub user: Option<UserConfig>,
    pub preferences: Preferences,
}

impl Default for Config {
    fn default() -> (r: Config)
        ensures
            r.user is None,
            r.preferences.theme@ == "dark"@,
            r.preferences.default_view@ == "repos"@,
    {
        Config { user: None, preferences: Preferences::default() }
    }
}

/// `opt` when it holds a non-empty string, else `fallback`.
pub open spec fn spec_nonempty_or(opt: Option<String>, fallback: Option<String>) -> Option<
    String,
> {
    match opt {
        Some(s) => if s@.len() > 0 {
            Some(s)
        } else {
            fallback
        },
        None => fallback,
    }
}

/// The credential the token sources yield together: the environment
/// first, then the hosting CLI's token, then the stored one, where the
/// first two count only when non-empty.
pub open spec fn spec_token_choice(
    env: Option<String>,
    cli_token: Option<String>,
    stored: Option<String>,
) -> Option<String> {
    spec_nonempty_or(env, spec_nonempty_or(cli_token, stored))
}

fn nonempty_or(opt: Option<String>, fallback: Option<String>) -> (r: Option<String>)
    ensures
        r == spec_nonempty_or(opt, fallback),
{
    match opt {
        Some(s) => {
            if !s.as_str().is_empty() {
                Some(s)
            } else {
                fallback
            }
        },
        None => fallback,
    }
}

/// Picks the credential to use from the three token sources, in
/// priority order: a non-empty environment value, then a non-empty
/// CLI-provided token, then whatever the credential store holds.
pub fn token_from_sources(
    env: Option<String>,
    cli_token: Option<String>,
    stored: Option<String>,
) -> (r: Option<String>)
    ensures
        r == spec_token_choice(env, cli_token, stored),
{
    let rest = nonempty_or(cli_token, stored);
    nonempty_or(env, rest)
}

} // verus!
