//! One login abstraction over several OAuth2-style identity providers: each
//! provider module builds that provider's endpoint URLs and the requests of its
//! login flow, and turns its token and profile answers into one canonical
//! identity. The network round trips themselves are left to the caller.
pub mod alipay;
pub mod baidu;
pub mod error;
pub mod facebook;
pub mod github;
pub mod jsonp;
pub mod qq;
pub mod query;
pub mod twitter;
pub mod wechat_open;
pub mod weibo;

use crate::error::AuthError;
use crate::query::{lemma_query_value_at, query_value, strings_view};
use std::collections::HashMap;
use vstd::prelude::*;

verus! {

/// Relies on serde_json::Value as an opaque type: profile fields that the
/// identity does not map are carried through unchanged, never read.
#[verifier::external_type_specification]
#[verifier::external_body]
pub struct ExJsonValue(serde_json::Value);

/// The settings of one provider adapter; immutable once built.
pub struct AuthConfig {
    pub client_id: String,
    /// Needed only by the token exchange.
    pub client_secret: Option<String>,
    pub redirect_uri: String,
    /// When absent, each adapter uses its own default scope.
    pub scope: Option<Vec<String>>,
}

impl AuthConfig {
    pub fn new(
        client_id: String,
        client_secret: Option<String>,
        redirect_uri: String,
        scope: Option<Vec<String>>,
    ) -> (r: AuthConfig)
        ensures
            r.client_id == client_id,
            r.client_secret == client_secret,
            r.redirect_uri == redirect_uri,
            r.scope == scope,
    {
        AuthConfig { client_id, client_secret, redirect_uri, scope }
    }

    /// The configured scope items, or `default` when none are configured.
    pub open spec fn scope_or(&self, default: Seq<Seq<char>>) -> Seq<Seq<char>> {
        match self.scope {
            Some(items) => strings_view(items@),
            None => default,
        }
    }
}

/// Builds an [`AuthConfig`] one setting at a time.
pub struct AuthConfigBuilder {
    pub client_id: Option<String>,
    pub client_secret: Option<String>,
    pub redirect_uri: Option<String>,
    pub scope: Option<Vec<String>>,
}

impl AuthConfigBuilder {
    /// A builder with nothing set.
    pub fn new() -> (r: AuthConfigBuilder)
        ensures
            r.client_id is None,
            r.client_secret is None,
            r.redirect_uri is None,
            r.scope is None,
    {
        AuthConfigBuilder { client_id: None, client_secret: None, redirect_uri: None, scope: None }
    }

    pub fn client_id(self, client_id: String) -> (r: AuthConfigBuilder)
        ensures
            r == (AuthConfigBuilder { client_id: Some(client_id), ..self }),
    {
        AuthConfigBuilder { client_id: Some(client_id), ..self }
    }

    pub fn client_secret(self, client_secret: String) -> (r: AuthConfigBuilder)
        ensures
            r == (AuthConfigBuilder { client_secret: Some(client_secret), ..self }),
    {
        AuthConfigBuilder { client_secret: Some(client_secret), ..self }
    }

    pub fn redirect_uri(self, redirect_uri: String) -> (r: AuthConfigBuilder)
        ensures
            r == (AuthConfigBuilder { redirect_uri: Some(redirect_uri), ..self }),
    {
        AuthConfigBuilder { redirect_uri: Some(redirect_uri), ..self }
    }

    /// Adds one scope item after those already added.
    pub fn scope(self, item: String) -> (r: AuthConfigBuilder)
        ensures
            r.client_id == self.client_id,
            r.client_secret == self.client_secret,
            r.redirect_uri == self.redirect_uri,
            r.scope matches Some(items) && items@ == match self.scope {
                Some(before) => before@.push(item),
                None => seq![item],
            },
    {
        let items = match self.scope {
            Some(before) => {
                let mut items = before;
                items.push(item);
                items
            },
            None => vec![item],
        };
        AuthConfigBuilder {
            client_id: self.client_id,
            client_secret: self.client_secret,
            redirect_uri: self.redirect_uri,
            scope: Some(items),
        }
    }

    /// The configuration; an unset client id or redirect URI is empty.
    pub fn build(self) -> (r: AuthConfig)
        ensures
            match self.client_id {
                Some(id) => r.client_id == id,
                None => r.client_id@ == Seq::<char>::empty(),
            },
            r.client_secret == self.client_secret,
            match self.redirect_uri {
                Some(uri) => r.redirect_uri == uri,
                None => r.redirect_uri@ == Seq::<char>::empty(),
            },
            r.scope == self.scope,
    {
        let client_id = match self.client_id {
            Some(id) => id,
            None => String::new(),
        };
        let redirect_uri = match self.redirect_uri {
            Some(uri) => uri,
            None => String::new(),
        };
        AuthConfig { client_id, client_secret: self.client_secret, redirect_uri, scope: self.scope }
    }
}

/// The identity that one successful login produces, the same shape for every provider.
pub struct AuthUser {
    pub user_id: String,
    pub name: String,
    pub access_token: String,
    /// Empty when the provider issues no refresh token.
    pub refresh_token: String,
    /// `i64::MAX` when the provider's tokens do not expire.
    pub expires_in: i64,
    /// Every profile field that is not mapped onto the fields above.
    pub extra: HashMap<String, serde_json::Value>,
}

/// One HTTP GET that a login step asks the caller to perform.
pub struct HttpGet {
    pub url: String,
    /// Sent as `Authorization: Bearer <token>` when present.
    pub bearer: Option<String>,
    /// Whether to send `Accept: application/json`.
    pub accept_json: bool,
}

/// The URL-building capability of a provider adapter.
pub trait AuthUrlProvider {
    type AuthRequest;
    type TokenRequest;
    type UserInfoRequest;

    /// The URL that the user is sent to, to authorize the client.
    fn authorize_url(request: Self::AuthRequest) -> Result<String, AuthError>;

    /// The URL that exchanges an authorization code for an access token.
    fn access_token_url(request: Self::TokenRequest) -> Result<String, AuthError>;

    /// The URL of the user's profile.
    fn user_info_url(request: Self::UserInfoRequest) -> Result<String, AuthError>;
}

/// The first steps of the login flow, shared by every adapter with a token exchange.
pub trait AuthAction {
    type AuthCallback;

    /// The authorize URL for the configured client, carrying `state` unchanged.
    fn authorize(&self, state: String) -> Result<String, AuthError>;

    /// The request that exchanges the callback's code for an access token.
    fn access_token_request(&self, callback: &Self::AuthCallback) -> Result<HttpGet, AuthError>;
}

/// The configured scope items, or `default` when none are configured.
pub fn configured_scope(config: &AuthConfig, default: Vec<String>) -> (r: Vec<String>)
    ensures
        strings_view(r@) == config.scope_or(strings_view(default@)),
{
    match &config.scope {
        Some(items) => clone_strings(items),
        None => default,
    }
}

/// The client secret, which the token exchange cannot do without.
pub fn required_secret(config: &AuthConfig) -> (r: Result<String, AuthError>)
    ensures
        match config.client_secret {
            Some(s) => r == Ok::<String, AuthError>(s),
            None => r == Err::<String, AuthError>(AuthError::ConfigurationError),
        },
{
    match &config.client_secret {
        Some(s) => Ok(s.clone()),
        None => Err(AuthError::ConfigurationError),
    }
}

/// Every adapter's authorize URL carries the caller's `state` unchanged and the
/// configured redirect URI: reading the `state` and `redirect_uri` pairs back
/// from its query gives exactly those two values.
pub proof fn lemma_authorize_keeps_state_and_redirect(config: AuthConfig, state: Seq<char>)
    ensures
        query_value(github::AuthorizationServer::authorize_pairs(config, state), "state"@)
            == Some(state),
        query_value(github::AuthorizationServer::authorize_pairs(config, state), "redirect_uri"@)
            == Some(config.redirect_uri@),
        query_value(qq::AuthorizationServer::authorize_pairs(config, state), "state"@)
            == Some(state),
        query_value(qq::AuthorizationServer::authorize_pairs(config, state), "redirect_uri"@)
            == Some(config.redirect_uri@),
        query_value(baidu::AuthorizationServer::authorize_pairs(config, state), "state"@)
            == Some(state),
        query_value(baidu::AuthorizationServer::authorize_pairs(config, state), "redirect_uri"@)
            == Some(config.redirect_uri@),
        query_value(facebook::AuthorizationServer::authorize_pairs(config, state), "state"@)
            == Some(state),
        query_value(facebook::AuthorizationServer::authorize_pairs(config, state), "redirect_uri"@)
            == Some(config.redirect_uri@),
        query_value(twitter::AuthorizationServer::authorize_pairs(config, state), "state"@)
            == Some(state),
        query_value(twitter::AuthorizationServer::authorize_pairs(config, state), "redirect_uri"@)
            == Some(config.redirect_uri@),
        query_value(wechat_open::AuthorizationServer::authorize_pairs(config, state), "state"@)
            == Some(state),
        query_value(wechat_open::AuthorizationServer::authorize_pairs(config, state), "redirect_uri"@)
            == Some(config.redirect_uri@),
        query_value(weibo::AuthorizationServer::authorize_pairs(config, state), "state"@)
            == Some(state),
        query_value(weibo::AuthorizationServer::authorize_pairs(config, state), "redirect_uri"@)
            == Some(config.redirect_uri@),
        query_value(alipay::AuthorizationServer::authorize_pairs(config, state), "state"@)
            == Some(state),
        query_value(alipay::AuthorizationServer::authorize_pairs(config, state), "redirect_uri"@)
            == Some(config.redirect_uri@),
{
    reveal_strlit("response_type");
    reveal_strlit("client_id");
    reveal_strlit("appid");
    reveal_strlit("app_id");
    reveal_strlit("redirect_uri");
    reveal_strlit("scope");
    reveal_strlit("state");
    assert("scope"@[1] != "state"@[1]);
    assert("appid"@[0] != "state"@[0]);
    assert("client_id"@.len() != "redirect_uri"@.len());
    assert("response_type"@.len() != "redirect_uri"@.len());
    assert("app_id"@.len() != "redirect_uri"@.len());
    assert("appid"@.len() != "redirect_uri"@.len());
    let p = github::AuthorizationServer::authorize_pairs(config, state);
    lemma_query_value_at(p, "state"@, 3);
    lemma_query_value_at(p, "redirect_uri"@, 1);
    let p = qq::AuthorizationServer::authorize_pairs(config, state);
    lemma_query_value_at(p, "state"@, 3);
    lemma_query_value_at(p, "redirect_uri"@, 2);
    let p = baidu::AuthorizationServer::authorize_pairs(config, state);
    lemma_query_value_at(p, "state"@, 4);
    lemma_query_value_at(p, "redirect_uri"@, 2);
    let p = facebook::AuthorizationServer::authorize_pairs(config, state);
    lemma_query_value_at(p, "state"@, 4);
    lemma_query_value_at(p, "redirect_uri"@, 2);
    let p = twitter::AuthorizationServer::authorize_pairs(config, state);
    lemma_query_value_at(p, "state"@, 4);
    lemma_query_value_at(p, "redirect_uri"@, 2);
    let p = wechat_open::AuthorizationServer::authorize_pairs(config, state);
    lemma_query_value_at(p, "state"@, 4);
    lemma_query_value_at(p, "redirect_uri"@, 2);
    let p = weibo::AuthorizationServer::authorize_pairs(config, state);
    lemma_query_value_at(p, "state"@, 4);
    lemma_query_value_at(p, "redirect_uri"@, 2);
    let p = alipay::AuthorizationServer::authorize_pairs(config, state);
    lemma_query_value_at(p, "state"@, 3);
    lemma_query_value_at(p, "redirect_uri"@, 1);
}

/// A copy of `v`.
pub fn clone_strings(v: &Vec<String>) -> (r: Vec<String>)
    ensures
        r@ == v@,
{
    let mut r: Vec<String> = Vec::new();
    let mut i: usize = 0;
    while i < v.len()
        invariant
            i <= v.len(),
            r@ == v@.subrange(0, i as int),
        decreases v.len() - i,
    {
        r.push(v[i].clone());
        i = i + 1;
    }
    assert(r@ =~= v@);
    r
}

} // verus!
