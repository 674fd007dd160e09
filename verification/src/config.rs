//! Where the settings endpoint lives and which token opens it.

use vstd::prelude::*;

verus! {

/// The endpoint that receives the settings request and the bearer token that
/// authorises it.
#[derive(Clone, Debug)]
pub struct Config {
    pub url: String,
    pub token: String,
}

impl Config {
    /// Copies both texts into a fresh configuration.
    pub fn new(url: &str, token: &str) -> (config: Self)
        ensures
            config.url@ == url@,
            config.token@ == token@,
    {
        Self { url: url.to_owned(), token: token.to_owned() }
    }
}

} // verus!
