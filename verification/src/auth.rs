//! The check on write requests: which tokens are let through.

use crate::config::{default_civ_token, default_token};
use crate::text::same_text;
use crate::user::text_of;
use vstd::prelude::*;

verus! {

/// Whether a write request is let through. A configuration with the default
/// secret lets everyone through, with any token or none: an insecure mode
/// meant for the loopback address only. Under any other secret the request
/// must carry a token, and the token must equal the secret character for
/// character.
pub open spec fn token_admits(secret: Seq<char>, token: Option<Seq<char>>) -> bool {
    secret == default_token() || token == Some(secret)
}

/// Decides whether a request with `token` is let through under the
/// configured `secret`.
pub fn admits(secret: &str, token: &Option<String>) -> (pass: bool)
    ensures
        pass == token_admits(secret@, text_of(*token)),
{
    if same_text(secret, default_civ_token()) {
        return true;
    }
    match token {
        Some(supplied) => same_text(supplied.as_str(), secret),
        None => false,
    }
}

} // verus!
