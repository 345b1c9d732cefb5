//! What authenticates an outbound request.

use vstd::prelude::*;

use crate::auth_plus::AccessToken;
use crate::error::Error;

verus! {

/// The header that carries the token's namespace.
pub const NAMESPACE_HEADER: &'static str = "x-ats-namespace";

/// The authentication of a request: the bearer token, and the namespace to
/// send with it. A namespace that cannot be derived is reported, and the
/// request goes without that header.
#[derive(Debug)]
pub struct RequestAuth {
    pub bearer: Option<String>,
    pub namespace: Option<Result<String, Error>>,
}

/// Sends requests to the services.
pub struct Http;

impl Http {
    /// The authentication for a request made with `token`: none without a
    /// token; with one, its bearer string and its namespace.
    pub fn auth(token: &Option<AccessToken>) -> (r: RequestAuth)
        ensures
            match token {
                None => r.bearer is None && r.namespace is None,
                Some(t) => {
                    &&& r.bearer == Some(t.access_token)
                    &&& r.namespace matches Some(n) && t.namespace_is(n)
                },
            },
    {
        match token {
            None => RequestAuth { bearer: None, namespace: None },
            Some(t) => RequestAuth {
                bearer: Some(t.access_token.clone()),
                namespace: Some(t.namespace()),
            },
        }
    }
}

} // verus!
