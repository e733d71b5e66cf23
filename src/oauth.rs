//! The access token that the resource catalog is read with.
use vstd::prelude::*;

verus! {

/// A token as the token endpoints return it.
#[derive(Debug, Clone, PartialEq, Default)]
pub struct OAuthResponse {
    pub access_token: String,
    pub refresh_token: Option<String>,
    pub expires_in: String,
    pub expires_on: String,
    pub ext_expires_in: Option<String>,
    pub not_before: String,
    pub resource: String,
    pub token_type: String,
}

} // verus!
