use vstd::prelude::*;

verus! {

#[derive(Debug, Clone)]
pub struct BlobTokenInput {
    /// Only used for a readable tail of the path; the path itself is generated by the server.
    pub filename: Option<String>,
}

/// Direct-upload credentials handed to the front end.
#[derive(Debug, Clone)]
pub struct BlobTokenRes {
    pub delegation_token: String,
    pub client_signing_token: String,
    /// Milliseconds.
    pub valid_until: i64,
    /// The final path, generated here; the front end presigns with it.
    pub pathname: String,
    pub access: String,
}

/// The blob API's answer to a signed-token request.
#[derive(Debug, Clone)]
pub struct SignedTokenRes {
    pub delegation_token: String,
    pub client_signing_token: String,
    pub valid_until: i64,
}

} // verus!
