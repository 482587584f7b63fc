//! Where the session token is kept between runs: a plain-text file
//! `<config dir>/rc-slint/.auth_token` holding the token and nothing else.

use crate::session::RocketChat;
use vstd::prelude::*;

verus! {

/// The application's directory under the user's configuration directory.
pub open spec fn config_path_of(config_dir: Seq<char>) -> Seq<char> {
    config_dir + "/rc-slint"@
}

/// The token file under the user's configuration directory.
pub open spec fn token_path_of(config_dir: Seq<char>) -> Seq<char> {
    config_path_of(config_dir) + "/.auth_token"@
}

/// Relies on `dirs_next::config_dir`: the user's configuration directory,
/// where the platform has one and its path is valid UTF-8. It depends on the
/// environment, so nothing is said of its value.
#[verifier::external_body]
fn user_config_dir() -> (r: Option<String>) {
    dirs_next::config_dir().and_then(|p| p.to_str().map(|s| s.to_owned()))
}

/// The application's directory under a configuration directory.
pub fn config_path_in(config_dir: &str) -> (r: String)
    ensures
        r@ == config_path_of(config_dir@),
{
    config_dir.to_owned().concat("/rc-slint")
}

/// The token file under a configuration directory.
pub fn token_path_in(config_dir: &str) -> (r: String)
    ensures
        r@ == token_path_of(config_dir@),
{
    config_path_in(config_dir).concat("/.auth_token")
}

impl RocketChat {
    /// The application's directory under this user's configuration directory;
    /// `None` where there is none.
    pub fn config_path() -> (r: Option<String>)
        ensures
            r matches Some(p) ==> exists|d: Seq<char>| p@ == config_path_of(d),
    {
        match user_config_dir() {
            Some(d) => Some(config_path_in(d.as_str())),
            None => None,
        }
    }

    /// The token file of this user; `None` where there is no configuration
    /// directory.
    pub fn auto_token_path() -> (r: Option<String>)
        ensures
            r matches Some(p) ==> exists|d: Seq<char>| p@ == token_path_of(d),
    {
        match user_config_dir() {
            Some(d) => Some(token_path_in(d.as_str())),
            None => None,
        }
    }
}

/// The token that a token file holds: its whole text, or no token where the
/// file could not be read.
pub fn saved_token_from(contents: Option<String>) -> (r: String)
    ensures
        r@ == match contents {
            Some(c) => c@,
            None => Seq::empty(),
        },
{
    match contents {
        Some(c) => c,
        None => String::new(),
    }
}

} // verus!
