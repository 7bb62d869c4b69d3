//! Configuration: the API base URL and the bearer token, and which source
//! wins when several give one.

use vstd::prelude::*;

use crate::text::{trim, trimmed};

verus! {

/// Base URL used when nothing else is configured.
pub const DEFAULT_URL: &'static str = "http://localhost:8080";

/// The configuration read at startup. The token comes from its own file and
/// is never written back with the rest.
#[derive(Clone, Debug, PartialEq)]
pub struct Config {
    pub url: Option<String>,
    pub token: Option<String>,
}

impl Default for Config {
    fn default() -> (r: Self)
        ensures
            r.url is None,
            r.token is None,
    {
        Config { url: None, token: None }
    }
}

impl Config {
    /// The URL to use: the command-line (or environment) value first, then
    /// the configured one, then the local default.
    pub fn effective_url(&self, flag: Option<String>) -> (r: String)
        ensures
            flag matches Some(u) ==> r == u,
            flag is None ==> (self.url matches Some(u) ==> r == u),
            flag is None && self.url is None ==> r@ == DEFAULT_URL@,
    {
        match flag {
            Some(u) => u,
            None => match &self.url {
                Some(u) => u.clone(),
                None => String::from_str(DEFAULT_URL),
            },
        }
    }

    /// The token to use: the command-line (or environment) value first, then
    /// the one from the token file.
    pub fn effective_token(&self, flag: Option<String>) -> (r: Option<String>)
        ensures
            flag is Some ==> r == flag,
            flag is None ==> r == self.token,
    {
        match flag {
            Some(t) => Some(t),
            None => match &self.token {
                Some(t) => Some(t.clone()),
                None => None,
            },
        }
    }

    /// The configuration with the token read from the token file.
    pub fn with_token(self, token: Option<String>) -> (r: Config)
        ensures
            r.url == self.url,
            r.token == token,
    {
        Config { url: self.url, token }
    }
}

/// The token held by an already trimmed token file: none when it is empty.
pub fn token_from_trimmed(text: String) -> (r: Option<String>)
    ensures
        text@.len() == 0 ==> r is None,
        text@.len() > 0 ==> r == Some(text),
{
    if text.unicode_len() == 0 {
        None
    } else {
        Some(text)
    }
}

/// The token held by the text of a token file: the text without surrounding
/// white space, none when nothing else is left.
pub fn token_from_file_text(text: &str) -> (r: Option<String>)
    ensures
        trimmed(text@).len() == 0 ==> r is None,
        trimmed(text@).len() > 0 ==> (r matches Some(t) && t@ == trimmed(text@)),
{
    let t = trim(text);
    token_from_trimmed(t)
}

} // verus!
