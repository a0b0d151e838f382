use vstd::prelude::*;

use crate::security::{MyApiKeyAuthorization, OtherAuthorization};

verus! {

/// Endpoints that sit behind either of the two API-key schemes.
pub struct ApiOtherAuth;

impl ApiOtherAuth {
    /// `GET /other-auth-route/same`: the key that the first scheme accepted.
    pub fn auth_example_same_auth(&self, auth: MyApiKeyAuthorization) -> (r: String)
        ensures
            r@ == auth.0.token@,
    {
        auth.0.token.clone()
    }

    /// `GET /other-auth-route/different`: the key that the second scheme accepted.
    pub fn auth_example_different_auth(&self, auth: OtherAuthorization) -> (r: String)
        ensures
            r@ == auth.0.token@,
    {
        auth.0.token.clone()
    }
}

} // verus!
