use vstd::prelude::*;

verus! {

/// The principal of the first API-key scheme: the key exactly as the caller sent it.
pub struct UserApiKey {
    pub token: String,
}

/// Proof that a request passed the first API-key scheme (header `X-API-Key`).
pub struct MyApiKeyAuthorization(pub UserApiKey);

/// Accepts any key of the first scheme and wraps it, unchanged, into its principal.
pub fn api_checker(key: String) -> (r: Option<UserApiKey>)
    ensures
        r == Some(UserApiKey { token: key }),
{
    Some(UserApiKey { token: key })
}

/// The principal of the second API-key scheme: the key exactly as the caller sent it.
pub struct OtherApiKey {
    pub token: String,
}

/// Proof that a request passed the second API-key scheme (header `X-API-Key`).
pub struct OtherAuthorization(pub OtherApiKey);

/// Accepts any key of the second scheme and wraps it, unchanged, into its principal.
pub fn api_checker_other(key: String) -> (r: Option<OtherApiKey>)
    ensures
        r == Some(OtherApiKey { token: key }),
{
    Some(OtherApiKey { token: key })
}

} // verus!
