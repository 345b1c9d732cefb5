//! The client configuration and the decisions of token acquisition.
//!
//! Obtaining a token alternates decisions and outside work: reading the
//! credentials archive, posting a token request, saving the configuration.
//! `Config::token_step` makes the decision for the current state; the caller
//! performs the step it names and reports back through `set_credentials` or
//! `store_token`, until the step is `TokenStep::Ready`.

use vstd::prelude::*;

use crate::auth_plus::{AccessToken, Credentials, TokenRequest, AuthPlus, no_auth_method_message};
use crate::error::Error;

verus! {

/// Configuration passed to every command: the credentials archive, the four
/// service base URLs, and what has been learnt of the credentials and token.
#[derive(Debug)]
pub struct Config {
    pub credentials_zip: String,
    pub credentials: Option<Credentials>,
    pub token: Option<AccessToken>,
    pub campaigner: String,
    pub director: String,
    pub registry: String,
    pub reposerver: String,
}

/// What to do next to obtain a token.
#[derive(Debug)]
pub enum TokenStep {
    /// Use this token; none where the credentials switch authentication off.
    Ready(Option<AccessToken>),
    /// Read the credentials archive and hand the result to `Config::set_credentials`.
    ReadCredentials,
    /// Send this request, hand the token to `Config::store_token`, then save the configuration.
    Request(TokenRequest),
}

impl Config {
    /// A fresh configuration, with no credentials read and no token.
    pub fn init(
        credentials_zip: String,
        campaigner: String,
        director: String,
        registry: String,
        reposerver: String,
    ) -> (r: Config)
        ensures
            r.credentials_zip == credentials_zip,
            r.credentials is None,
            r.token is None,
            r.campaigner == campaigner,
            r.director == director,
            r.registry == registry,
            r.reposerver == reposerver,
    {
        Config {
            credentials_zip,
            credentials: None,
            token: None,
            campaigner,
            director,
            registry,
            reposerver,
        }
    }

    /// This configuration with `t` as its cached token.
    pub open spec fn with_token(self, t: AccessToken) -> Config {
        Config { token: Some(t), ..self }
    }

    /// This configuration with `c` as its credentials.
    pub open spec fn with_credentials(self, c: Credentials) -> Config {
        Config { credentials: Some(c), ..self }
    }

    /// `r` is the step to take next: a cached token is used as it is; without
    /// one, the credentials are read first, then decide between no token, a
    /// token request and an authentication error.
    pub open spec fn next_step(&self, r: Result<TokenStep, Error>) -> bool {
        match self.token {
            Some(t) => r == Ok::<TokenStep, Error>(TokenStep::Ready(Some(t))),
            None => match self.credentials {
                None => r == Ok::<TokenStep, Error>(TokenStep::ReadCredentials),
                Some(c) => match c.auth_method() {
                    Some(None) => r == Ok::<TokenStep, Error>(TokenStep::Ready(None)),
                    Some(Some(o)) => r matches Ok(TokenStep::Request(q)) && q.is_for(o),
                    None => r matches Err(e) && e.is_auth(no_auth_method_message()),
                },
            },
        }
    }

    /// The next step towards a token.
    pub fn token_step(&self) -> (r: Result<TokenStep, Error>)
        ensures
            self.next_step(r),
    {
        if let Some(t) = &self.token {
            return Ok(TokenStep::Ready(Some(t.duplicate())));
        }
        match &self.credentials {
            None => Ok(TokenStep::ReadCredentials),
            Some(c) => match c.oauth2() {
                Ok(None) => Ok(TokenStep::Ready(None)),
                Ok(Some(o)) => Ok(TokenStep::Request(AuthPlus::token_request(&o))),
                Err(e) => Err(e),
            },
        }
    }

    /// Records the credentials read from the archive.
    pub fn set_credentials(&mut self, c: Credentials)
        ensures
            *final(self) == old(self).with_credentials(c),
    {
        self.credentials = Some(c);
    }

    /// Records a freshly issued token.
    pub fn store_token(&mut self, t: AccessToken)
        ensures
            *final(self) == old(self).with_token(t),
    {
        self.token = Some(t);
    }
}

/// Once a token is stored, every later step uses it as it is: no second
/// request is made while the configuration holds it.
pub proof fn stored_token_is_reused(c: Config, t: AccessToken, r: Result<TokenStep, Error>)
    requires
        c.with_token(t).next_step(r),
    ensures
        r == Ok::<TokenStep, Error>(TokenStep::Ready(Some(t))),
{
}

/// Credentials that switch authentication off give no token and no request,
/// whatever OAuth2 descriptor they also hold.
pub proof fn no_auth_gives_no_token(c: Config, cr: Credentials, r: Result<TokenStep, Error>)
    requires
        c.token is None,
        cr.no_auth == Some(true),
        c.with_credentials(cr).next_step(r),
    ensures
        r == Ok::<TokenStep, Error>(TokenStep::Ready(None)),
{
}

/// Credentials with neither authentication switched off nor an OAuth2
/// descriptor give an authentication error.
pub proof fn missing_auth_method_fails(c: Config, cr: Credentials, r: Result<TokenStep, Error>)
    requires
        c.token is None,
        cr.no_auth != Some(true),
        cr.oauth2 is None,
        c.with_credentials(cr).next_step(r),
    ensures
        r matches Err(e) && e is Auth,
{
}

} // verus!
