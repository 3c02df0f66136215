//! The access gate.

use vstd::prelude::*;

use crate::config::Config;
use crate::text::same_text;

verus! {

/// A pass: a value of this type exists only for a caller who presented the
/// administrator's token.  Whatever touches the store or the bus asks for
/// one before it begins.
#[derive(Clone, Copy, Debug, PartialEq, Eq)]
pub struct AdminGuard {
    sealed: (),
}

impl AdminGuard {
    /// Lets through the caller whose `Authorization` header is, byte for byte, the
    /// configured administrator token.  A missing header and a wrong token
    /// are turned away alike.
    pub fn authorize(authorization: Option<&str>, config: &Config) -> (guard: Option<AdminGuard>)
        ensures
            guard is Some <==> (authorization matches Some(token) && token@
                == config.admin_token@),
    {
        match authorization {
            Some(token) => {
                if same_text(token, config.admin_token.as_str()) {
                    Some(AdminGuard { sealed: () })
                } else {
                    None
                }
            },
            None => None,
        }
    }
}

} // verus!
