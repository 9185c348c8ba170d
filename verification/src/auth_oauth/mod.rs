//! OAuth tokens for the `claude_code` runtime, from the provider that runs it.

pub mod callback;
pub mod delete;
pub mod start;
pub mod token_store;

use vstd::prelude::*;

verus! {

/// Who hands the tokens out.
#[derive(Debug)]
pub struct OauthProvider {
    /// The provider's name in this service's paths.
    pub name: String,
    /// The consent screen.
    pub authorize_url: String,
    /// Where codes are exchanged, and tokens refreshed.
    pub token_url: String,
}

} // verus!
