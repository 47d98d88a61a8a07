//! GitHub: scope items joined by spaces; the token answer is asked for as JSON
//! and the profile is fetched with a bearer token.
use crate::error::AuthError;
use crate::query::{
    endpoint_url, form_query, i64_decimal, int_decimal, join, join_with, lemma_join_two,
    lemma_query_value_concat, lemma_short_pairs_value, opt_pair, opt_text, pairs_view, push_opt,
    push_pair, query_value, strings_view, QueryPairs,
};
use crate::{
    configured_scope, required_secret, AuthAction, AuthConfig, AuthUrlProvider, AuthUser, HttpGet,
};
use std::collections::HashMap;
use vstd::prelude::*;

verus! {

pub const AUTHORIZE_ENDPOINT: &'static str = "https://github.com/login/oauth/authorize";

pub const TOKEN_ENDPOINT: &'static str = "https://github.com/login/oauth/access_token";

pub const USER_ENDPOINT: &'static str = "https://api.github.com/user";

pub struct AuthorizationServer {
    pub config: AuthConfig,
}

/// What the authorize URL carries.
pub struct AuthRequest {
    pub client_id: String,
    pub redirect_uri: String,
    pub login: Option<String>,
    pub scope: Vec<String>,
    pub state: String,
    pub allow_signup: Option<String>,
    pub prompt: Option<String>,
}

/// What the provider's redirect back to the client carries.
pub struct AuthCallback {
    pub code: String,
    pub state: String,
}

/// What the token URL carries.
pub struct GetTokenRequest {
    pub client_id: String,
    pub client_secret: String,
    pub code: String,
    pub redirect_uri: String,
}

/// The token answer.
pub struct TokenResponse {
    pub access_token: String,
    pub scope: String,
    pub token_type: String,
}

/// The profile URL carries nothing: the token goes in a header.
pub struct GetUserInfoRequest {}

/// The profile answer.
pub struct UserInfoResponse {
    pub id: i64,
    pub name: String,
    pub extra: HashMap<String, serde_json::Value>,
}

impl AuthRequest {
    pub open spec fn query_pairs(&self) -> QueryPairs {
        seq![("client_id"@, self.client_id@), ("redirect_uri"@, self.redirect_uri@)]
            + opt_pair("login"@, self.login)
            + seq![("scope"@, join(strings_view(self.scope@), " "@)), ("state"@, self.state@)]
            + opt_pair("allow_signup"@, self.allow_signup)
            + opt_pair("prompt"@, self.prompt)
    }

    /// Appends the pairs of this request to `pairs`.
    pub fn push_query_pairs(&self, pairs: &mut Vec<(String, String)>)
        ensures
            pairs_view(final(pairs)@) == pairs_view(old(pairs)@) + self.query_pairs(),
    {
        push_pair(pairs, "client_id", self.client_id.clone());
        push_pair(pairs, "redirect_uri", self.redirect_uri.clone());
        push_opt(pairs, "login", &self.login);
        push_pair(pairs, "scope", join_with(&self.scope, " "));
        push_pair(pairs, "state", self.state.clone());
        push_opt(pairs, "allow_signup", &self.allow_signup);
        push_opt(pairs, "prompt", &self.prompt);
        assert(pairs_view(pairs@) =~= pairs_view(old(pairs)@) + self.query_pairs());
    }
}

/// Reading the pairs of an authorize request's query back gives each of its
/// fields: a text field as it is, an absent optional field as no value at all,
/// and the scope as its items joined by spaces (two items: the first, a space,
/// the second).
pub proof fn lemma_auth_request_reads_back(req: AuthRequest)
    ensures
        query_value(req.query_pairs(), "client_id"@) == Some(req.client_id@),
        query_value(req.query_pairs(), "redirect_uri"@) == Some(req.redirect_uri@),
        query_value(req.query_pairs(), "login"@) == opt_text(req.login),
        query_value(req.query_pairs(), "scope"@) == Some(join(strings_view(req.scope@), " "@)),
        req.scope@.len() == 2 ==> query_value(req.query_pairs(), "scope"@) == Some(
            req.scope@[0]@ + " "@ + req.scope@[1]@,
        ),
        query_value(req.query_pairs(), "state"@) == Some(req.state@),
        query_value(req.query_pairs(), "allow_signup"@) == opt_text(req.allow_signup),
        query_value(req.query_pairs(), "prompt"@) == opt_text(req.prompt),
{
    reveal_strlit("client_id");
    reveal_strlit("redirect_uri");
    reveal_strlit("login");
    reveal_strlit("scope");
    reveal_strlit("state");
    reveal_strlit("allow_signup");
    reveal_strlit("prompt");
    assert("scope"@[1] != "state"@[1]);
    assert("login"@[0] != "state"@[0]);
    assert("login"@[0] != "scope"@[0]);
    assert("redirect_uri"@[0] != "allow_signup"@[0]);
    assert("prompt"@.len() != "client_id"@.len());
    assert("prompt"@.len() != "redirect_uri"@.len());
    assert("prompt"@.len() != "state"@.len());
    let a = seq![("client_id"@, req.client_id@), ("redirect_uri"@, req.redirect_uri@)];
    let b = seq![("scope"@, join(strings_view(req.scope@), " "@)), ("state"@, req.state@)];
    let l = opt_pair("login"@, req.login);
    let s = opt_pair("allow_signup"@, req.allow_signup);
    let p = opt_pair("prompt"@, req.prompt);
    lemma_short_pairs_value(a);
    lemma_short_pairs_value(b);
    lemma_short_pairs_value(l);
    lemma_short_pairs_value(s);
    lemma_short_pairs_value(p);
    lemma_query_value_concat(a, l);
    lemma_query_value_concat(a + l, b);
    lemma_query_value_concat(a + l + b, s);
    lemma_query_value_concat(a + l + b + s, p);
    if req.scope@.len() == 2 {
        assert(strings_view(req.scope@) =~= seq![req.scope@[0]@, req.scope@[1]@]);
        lemma_join_two(req.scope@[0]@, req.scope@[1]@, " "@);
    }
}

impl GetTokenRequest {
    pub open spec fn query_pairs(&self) -> QueryPairs {
        seq![
            ("client_id"@, self.client_id@),
            ("client_secret"@, self.client_secret@),
            ("code"@, self.code@),
            ("redirect_uri"@, self.redirect_uri@),
        ]
    }
}

impl AuthorizationServer {
    pub fn new(config: AuthConfig) -> (r: Self)
        ensures
            r.config == config,
    {
        AuthorizationServer { config }
    }

    pub open spec fn default_scope() -> Seq<Seq<char>> {
        seq!["read:user"@, "user:email"@]
    }

    /// The pairs of the authorize URL for `config` and `state`.
    pub open spec fn authorize_pairs(config: AuthConfig, state: Seq<char>) -> QueryPairs {
        seq![
            ("client_id"@, config.client_id@),
            ("redirect_uri"@, config.redirect_uri@),
            ("scope"@, join(config.scope_or(Self::default_scope()), " "@)),
            ("state"@, state),
        ]
    }

    /// The pairs of the token URL for `config`, its secret and an authorization code.
    pub open spec fn token_pairs(config: AuthConfig, secret: Seq<char>, code: Seq<char>) -> QueryPairs {
        seq![
            ("token_type"@, "bearer"@),
            ("client_id"@, config.client_id@),
            ("client_secret"@, secret),
            ("code"@, code),
            ("redirect_uri"@, config.redirect_uri@),
        ]
    }

    /// The request for the profile of the token's owner.
    pub fn user_info_request(&self, token: &TokenResponse) -> (r: Result<HttpGet, AuthError>)
        ensures
            r matches Ok(g) && g.url@ == USER_ENDPOINT@ && g.bearer == Some(token.access_token)
                && !g.accept_json,
    {
        let url = Self::user_info_url(GetUserInfoRequest {})?;
        Ok(HttpGet { url, bearer: Some(token.access_token.clone()), accept_json: false })
    }

    /// The canonical identity: the numeric id in decimal, no refresh token, no expiry.
    pub fn normalize(token: TokenResponse, user: UserInfoResponse) -> (r: AuthUser)
        ensures
            r.user_id@ == int_decimal(user.id as int),
            r.name == user.name,
            r.access_token == token.access_token,
            r.refresh_token@ == Seq::<char>::empty(),
            r.expires_in == i64::MAX,
            r.extra == user.extra,
    {
        AuthUser {
            user_id: i64_decimal(user.id),
            name: user.name,
            access_token: token.access_token,
            refresh_token: String::new(),
            expires_in: i64::MAX,
            extra: user.extra,
        }
    }
}

impl AuthUrlProvider for AuthorizationServer {
    type AuthRequest = AuthRequest;
    type TokenRequest = GetTokenRequest;
    type UserInfoRequest = GetUserInfoRequest;

    fn authorize_url(request: AuthRequest) -> (r: Result<String, AuthError>)
        ensures
            r matches Ok(u) && u@ == AUTHORIZE_ENDPOINT@ + seq!['?'] + form_query(
                request.query_pairs(),
            ),
    {
        let mut pairs: Vec<(String, String)> = Vec::new();
        request.push_query_pairs(&mut pairs);
        assert(pairs_view(pairs@) =~= request.query_pairs());
        endpoint_url(AUTHORIZE_ENDPOINT, &pairs)
    }

    fn access_token_url(request: GetTokenRequest) -> (r: Result<String, AuthError>)
        ensures
            r matches Ok(u) && u@ == TOKEN_ENDPOINT@ + seq!['?'] + form_query(
                seq![("token_type"@, "bearer"@)] + request.query_pairs(),
            ),
    {
        let mut pairs: Vec<(String, String)> = Vec::new();
        push_pair(&mut pairs, "token_type", "bearer".to_string());
        push_pair(&mut pairs, "client_id", request.client_id);
        push_pair(&mut pairs, "client_secret", request.client_secret);
        push_pair(&mut pairs, "code", request.code);
        push_pair(&mut pairs, "redirect_uri", request.redirect_uri);
        assert(pairs_view(pairs@) =~= seq![("token_type"@, "bearer"@)] + request.query_pairs());
        endpoint_url(TOKEN_ENDPOINT, &pairs)
    }

    fn user_info_url(request: GetUserInfoRequest) -> (r: Result<String, AuthError>)
        ensures
            r matches Ok(u) && u@ == USER_ENDPOINT@,
    {
        Ok(USER_ENDPOINT.to_string())
    }
}

impl AuthAction for AuthorizationServer {
    type AuthCallback = AuthCallback;

    fn authorize(&self, state: String) -> (r: Result<String, AuthError>)
        ensures
            r matches Ok(u) && u@ == AUTHORIZE_ENDPOINT@ + seq!['?'] + form_query(
                Self::authorize_pairs(self.config, state@),
            ),
    {
        let default = vec!["read:user".to_string(), "user:email".to_string()];
        assert(strings_view(default@) =~= Self::default_scope());
        let scope = configured_scope(&self.config, default);
        let request = AuthRequest {
            client_id: self.config.client_id.clone(),
            redirect_uri: self.config.redirect_uri.clone(),
            login: None,
            scope,
            state,
            allow_signup: None,
            prompt: None,
        };
        assert(request.query_pairs() =~= Self::authorize_pairs(self.config, state@));
        Self::authorize_url(request)
    }

    fn access_token_request(&self, callback: &AuthCallback) -> (r: Result<HttpGet, AuthError>)
        ensures
            match self.config.client_secret {
                None => r == Err::<HttpGet, AuthError>(AuthError::ConfigurationError),
                Some(secret) => r matches Ok(g) && g.url@ == TOKEN_ENDPOINT@ + seq!['?']
                    + form_query(Self::token_pairs(self.config, secret@, callback.code@))
                    && g.bearer is None && g.accept_json,
            },
    {
        let secret = required_secret(&self.config)?;
        let request = GetTokenRequest {
            client_id: self.config.client_id.clone(),
            client_secret: secret,
            code: callback.code.clone(),
            redirect_uri: self.config.redirect_uri.clone(),
        };
        let ghost req_pairs = request.query_pairs();
        let url = Self::access_token_url(request)?;
        assert(seq![("token_type"@, "bearer"@)] + req_pairs =~= Self::token_pairs(
            self.config,
            secret@,
            callback.code@,
        ));
        Ok(HttpGet { url, bearer: None, accept_json: true })
    }
}

} // verus!
