//! The names that the application is configured with. They are fixed, and
//! handed to whoever needs them rather than read from anywhere.
use crate::error::Error;
use vstd::prelude::*;
use vstd::string::*;

verus! {

/// The configuration of the application.
#[allow(non_snake_case)]
#[derive(Clone, Copy, Debug, PartialEq, Eq)]
pub struct Config {
    /// The service under which the secret store keeps the session token.
    pub SERVICE_NAME: &'static str,
    /// The user under which the secret store keeps the session token.
    pub USER_KEY: &'static str,
    /// The file of the settings store.
    pub STORE_NAME: &'static str,
    /// The key of the path that was opened last.
    pub STORE_LAST_OPENED_REPOS_KEY: &'static str,
    /// The key of the list of known repositories.
    pub STORE_REPOS_KEY: &'static str,
}

impl Config {
    /// Whether the configuration holds the names of this application.
    pub open spec fn is_ours(self) -> bool {
        &&& self.SERVICE_NAME@ == "better-github-desktop"@
        &&& self.USER_KEY@ == "session-token"@
        &&& self.STORE_NAME@ == "settings.json"@
        &&& self.STORE_LAST_OPENED_REPOS_KEY@ == "last_opened_repo"@
        &&& self.STORE_REPOS_KEY@ == "repos"@
    }

    /// Loads the configuration. It never fails.
    pub fn load_the_config() -> (r: Result<Config, Error>)
        ensures
            r is Ok,
            r->Ok_0.is_ours(),
    {
        Ok(
            Config {
                SERVICE_NAME: "better-github-desktop",
                USER_KEY: "session-token",
                STORE_NAME: "settings.json",
                STORE_LAST_OPENED_REPOS_KEY: "last_opened_repo",
                STORE_REPOS_KEY: "repos",
            },
        )
    }
}

/// The configuration of the application.
pub fn config() -> (r: Config)
    ensures
        r.is_ours(),
{
    Config::load_the_config().unwrap()
}

} // verus!
