//! The operator's configuration.

use vstd::prelude::*;

verus! {

/// What the operator configures for the process.  It is built once and
/// handed by reference to whatever needs it.
#[derive(Clone, Debug, PartialEq, Eq)]
pub struct Config {
    /// The public base address under which webhooks are reached.
    pub domain: String,
    /// The one bearer token that the access gate accepts.
    pub admin_token: String,
    /// The master key of the credential cipher.
    pub salt_key: String,
}

impl Config {
    /// A configuration of the three values given.
    pub fn new(domain: String, admin_token: String, salt_key: String) -> (config: Config)
        ensures
            config.domain == domain,
            config.admin_token == admin_token,
            config.salt_key == salt_key,
    {
        Config { domain, admin_token, salt_key }
    }
}

} // verus!
