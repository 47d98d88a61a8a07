//! Alipay: only the authorize URL is built. The token and profile steps are
//! deliberately left unimplemented and say so.
use crate::error::AuthError;
use crate::query::{
    endpoint_url, form_query, join, join_with, lemma_query_value_concat, lemma_short_pairs_value,
    pairs_view, push_pair, query_value, QueryPairs,
};
use crate::{configured_scope, AuthAction, AuthConfig, AuthUrlProvider, HttpGet};
use vstd::prelude::*;

verus! {

pub const AUTHORIZE_ENDPOINT: &'static str =
    "https://openauth.alipay.com/oauth2/publicAppAuthorize.htm";

pub struct AuthorizationServer {
    pub config: AuthConfig,
}

/// What the authorize URL carries.
pub struct AuthRequest {
    pub app_id: String,
    pub redirect_uri: String,
    pub scope: String,
    pub state: String,
}

/// What the provider's redirect back to the client carries.
pub struct Callback {
    pub app_id: String,
    pub source: String,
    pub scope: String,
    pub auth_code: String,
}

/// What a token request would carry.
pub struct GetTokenRequest {
    pub app_id: String,
    pub redirect_uri: String,
    pub scope: String,
    pub state: String,
}

/// What a profile request would carry.
pub struct GetUserInfoRequest {
    pub app_id: String,
    pub redirect_uri: String,
    pub scope: String,
    pub state: String,
}

impl AuthRequest {
    pub open spec fn query_pairs(&self) -> QueryPairs {
        seq![
            ("app_id"@, self.app_id@),
            ("redirect_uri"@, self.redirect_uri@),
            ("scope"@, self.scope@),
            ("state"@, self.state@),
        ]
    }
}

/// Reading the pairs of an authorize request's query back gives each of its fields as it is.
pub proof fn lemma_auth_request_reads_back(req: AuthRequest)
    ensures
        query_value(req.query_pairs(), "app_id"@) == Some(req.app_id@),
        query_value(req.query_pairs(), "redirect_uri"@) == Some(req.redirect_uri@),
        query_value(req.query_pairs(), "scope"@) == Some(req.scope@),
        query_value(req.query_pairs(), "state"@) == Some(req.state@),
{
    reveal_strlit("app_id");
    reveal_strlit("redirect_uri");
    reveal_strlit("scope");
    reveal_strlit("state");
    assert("app_id"@.len() == 6);
    assert("redirect_uri"@.len() == 12);
    assert("scope"@.len() == 5);
    assert("state"@.len() == 5);
    assert("scope"@[1] != "state"@[1]);
    let a = seq![("app_id"@, req.app_id@), ("redirect_uri"@, req.redirect_uri@)];
    let b = seq![("scope"@, req.scope@), ("state"@, req.state@)];
    assert(req.query_pairs() =~= a + b);
    lemma_short_pairs_value(a);
    lemma_short_pairs_value(b);
    lemma_query_value_concat(a, b);
}

impl AuthorizationServer {
    pub fn new(config: AuthConfig) -> (r: Self)
        ensures
            r.config == config,
    {
        AuthorizationServer { config }
    }

    pub open spec fn default_scope() -> Seq<Seq<char>> {
        seq!["auth_user"@]
    }

    /// The pairs of the authorize URL for `config` and `state`.
    pub open spec fn authorize_pairs(config: AuthConfig, state: Seq<char>) -> QueryPairs {
        seq![
            ("app_id"@, config.client_id@),
            ("redirect_uri"@, config.redirect_uri@),
            ("scope"@, join(config.scope_or(Self::default_scope()), ","@)),
            ("state"@, state),
        ]
    }
}

impl AuthUrlProvider for AuthorizationServer {
    type AuthRequest = AuthRequest;
    type TokenRequest = GetTokenRequest;
    type UserInfoRequest = GetUserInfoRequest;

    fn authorize_url(request: AuthRequest) -> (r: Result<String, AuthError>)
        ensures
            r matches Ok(u) && u@ == AUTHORIZE_ENDPOINT@ + seq!['?'] + form_query(
                request.query_pairs(),
            ),
    {
        let mut pairs: Vec<(String, String)> = Vec::new();
        push_pair(&mut pairs, "app_id", request.app_id);
        push_pair(&mut pairs, "redirect_uri", request.redirect_uri);
        push_pair(&mut pairs, "scope", request.scope);
        push_pair(&mut pairs, "state", request.state);
        assert(pairs_view(pairs@) =~= request.query_pairs());
        endpoint_url(AUTHORIZE_ENDPOINT, &pairs)
    }

    fn access_token_url(request: GetTokenRequest) -> (r: Result<String, AuthError>)
        ensures
            r == Err::<String, AuthError>(AuthError::UnimplementedProviderStep),
    {
        Err(AuthError::UnimplementedProviderStep)
    }

    fn user_info_url(request: GetUserInfoRequest) -> (r: Result<String, AuthError>)
        ensures
            r == Err::<String, AuthError>(AuthError::UnimplementedProviderStep),
    {
        Err(AuthError::UnimplementedProviderStep)
    }
}

impl AuthAction for AuthorizationServer {
    type AuthCallback = Callback;

    fn authorize(&self, state: String) -> (r: Result<String, AuthError>)
        ensures
            r matches Ok(u) && u@ == AUTHORIZE_ENDPOINT@ + seq!['?'] + form_query(
                Self::authorize_pairs(self.config, state@),
            ),
    {
        let default = vec!["auth_user".to_string()];
        assert(crate::query::strings_view(default@) =~= Self::default_scope());
        let scope = configured_scope(&self.config, default);
        let request = AuthRequest {
            app_id: self.config.client_id.clone(),
            redirect_uri: self.config.redirect_uri.clone(),
            scope: join_with(&scope, ","),
            state,
        };
        assert(request.query_pairs() =~= Self::authorize_pairs(self.config, state@));
        Self::authorize_url(request)
    }

    /// The token exchange is not implemented for this provider.
    fn access_token_request(&self, callback: &Callback) -> (r: Result<HttpGet, AuthError>)
        ensures
            r == Err::<HttpGet, AuthError>(AuthError::UnimplementedProviderStep),
    {
        let request = GetTokenRequest {
            app_id: self.config.client_id.clone(),
            redirect_uri: self.config.redirect_uri.clone(),
            scope: callback.scope.clone(),
            state: String::new(),
        };
        let url = Self::access_token_url(request)?;
        Ok(HttpGet { url, bearer: None, accept_json: false })
    }
}

} // verus!
