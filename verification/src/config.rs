//! Defaults of the bot's configuration.

use vstd::prelude::*;

verus! {

/// The channel that is joined when the configuration names none.
pub fn make_fenhl() -> (name: String)
    ensures
        name@ == "fenhl"@,
{
    "fenhl".to_owned()
}

/// The account that the bot logs in as when the configuration names none.
pub fn make_piuda() -> (name: String)
    ensures
        name@ == "piuda"@,
{
    "piuda".to_owned()
}

/// The token that is sent at login: the configured one behind `oauth:`.
pub fn login_token(token: &str) -> (full: String)
    ensures
        full@ == "oauth:"@ + token@,
{
    let mut full = "oauth:".to_owned();
    full.append(token);
    full
}

} // verus!
