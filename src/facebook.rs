//! Facebook: scope items joined by commas, with no default scope; the profile
//! URL carries the token as a query parameter.
use crate::error::AuthError;
use crate::query::{
    endpoint_url, form_query, join, join_with, lemma_query_value_concat, lemma_short_pairs_value,
    opt_pair, opt_text, pairs_view, push_opt, push_pair, query_value, strings_view, QueryPairs,
};
use crate::{
    configured_scope, required_secret, AuthAction, AuthConfig, AuthUrlProvider, AuthUser, HttpGet,
};
use std::collections::HashMap;
use vstd::prelude::*;

verus! {

pub const AUTHORIZE_ENDPOINT: &'static str = "https://www.facebook.com/v21.0/dialog/oauth";

pub const TOKEN_ENDPOINT: &'static str = "https://graph.facebook.com/v21.0/oauth/access_token";

pub const USER_ENDPOINT: &'static str = "https://graph.facebook.com/me";

pub struct AuthorizationServer {
    pub config: AuthConfig,
}

/// What the authorize URL carries.
pub struct AuthRequest {
    pub client_id: String,
    pub redirect_uri: String,
    pub scope: Vec<String>,
    pub state: Option<String>,
    pub display: Option<String>,
}

/// What the provider's redirect back to the client carries.
pub struct AuthCallback {
    pub code: String,
    pub state: String,
}

/// What the token URL carries.
pub struct GetTokenRequest {
    pub client_id: String,
    pub client_secret: String,
    pub code: String,
    pub redirect_uri: String,
}

/// What a token refresh carries.
pub struct RefreshTokenRequest {
    pub grant_type: String,
    pub appid: String,
    pub refresh_token: String,
}

/// The token answer.
pub struct TokenResponse {
    pub access_token: String,
    pub expires_in: i64,
    pub token_type: String,
}

/// What the profile URL carries.
pub struct GetUserInfoRequest {
    pub access_token: String,
}

/// The profile answer.
pub struct UserInfoResponse {
    pub id: String,
    pub name: String,
    pub extra: HashMap<String, serde_json::Value>,
}

impl AuthRequest {
    pub open spec fn query_pairs(&self) -> QueryPairs {
        seq![
            ("client_id"@, self.client_id@),
            ("redirect_uri"@, self.redirect_uri@),
            ("scope"@, join(strings_view(self.scope@), ","@)),
        ] + opt_pair("state"@, self.state) + opt_pair("display"@, self.display)
    }

    /// Appends the pairs of this request to `pairs`.
    pub fn push_query_pairs(&self, pairs: &mut Vec<(String, String)>)
        ensures
            pairs_view(final(pairs)@) == pairs_view(old(pairs)@) + self.query_pairs(),
    {
        push_pair(pairs, "client_id", self.client_id.clone());
        push_pair(pairs, "redirect_uri", self.redirect_uri.clone());
        push_pair(pairs, "scope", join_with(&self.scope, ","));
        push_opt(pairs, "state", &self.state);
        push_opt(pairs, "display", &self.display);
        assert(pairs_view(pairs@) =~= pairs_view(old(pairs)@) + self.query_pairs());
    }
}

impl GetTokenRequest {
    pub open spec fn query_pairs(&self) -> QueryPairs {
        seq![
            ("client_id"@, self.client_id@),
            ("client_secret"@, self.client_secret@),
            ("code"@, self.code@),
            ("redirect_uri"@, self.redirect_uri@),
        ]
    }
}

/// Reading the pairs of an authorize request's query back gives each of its
/// fields: a text field as it is, an absent optional field as no value at all,
/// and the scope as its items joined by the provider's separator.
pub proof fn lemma_auth_request_reads_back(req: AuthRequest)
    ensures
        query_value(req.query_pairs(), "client_id"@) == Some(req.client_id@),
        query_value(req.query_pairs(), "redirect_uri"@) == Some(req.redirect_uri@),
        query_value(req.query_pairs(), "scope"@) == Some(join(strings_view(req.scope@), ","@)),
        query_value(req.query_pairs(), "state"@) == opt_text(req.state),
        query_value(req.query_pairs(), "display"@) == opt_text(req.display),
{
    reveal_strlit("client_id");
    reveal_strlit("redirect_uri");
    reveal_strlit("scope");
    reveal_strlit("state");
    reveal_strlit("display");
    assert("client_id"@.len() == 9);
    assert("redirect_uri"@.len() == 12);
    assert("scope"@.len() == 5);
    assert("state"@.len() == 5);
    assert("display"@.len() == 7);
    assert("scope"@[1] != "state"@[1]);
    let a = seq![("client_id"@, req.client_id@), ("redirect_uri"@, req.redirect_uri@)];
    let b = seq![("scope"@, join(strings_view(req.scope@), ","@))];
    let s = opt_pair("state"@, req.state);
    let d = opt_pair("display"@, req.display);
    assert(req.query_pairs() =~= a + b + s + d);
    lemma_short_pairs_value(a);
    lemma_short_pairs_value(b);
    lemma_short_pairs_value(s);
    lemma_short_pairs_value(d);
    lemma_query_value_concat(a, b);
    lemma_query_value_concat(a + b, s);
    lemma_query_value_concat(a + b + s, d);
}

impl AuthorizationServer {
    pub fn new(config: AuthConfig) -> (r: Self)
        ensures
            r.config == config,
    {
        AuthorizationServer { config }
    }

    /// The pairs of the authorize URL for `config` and `state`.
    pub open spec fn authorize_pairs(config: AuthConfig, state: Seq<char>) -> QueryPairs {
        seq![
            ("response_type"@, "token"@),
            ("client_id"@, config.client_id@),
            ("redirect_uri"@, config.redirect_uri@),
            ("scope"@, join(config.scope_or(Seq::empty()), ","@)),
            ("state"@, state),
        ]
    }

    /// The pairs of the token URL for `config`, its secret and an authorization code.
    pub open spec fn token_pairs(config: AuthConfig, secret: Seq<char>, code: Seq<char>) -> QueryPairs {
        seq![
            ("grant_type"@, "authorization_code"@),
            ("client_id"@, config.client_id@),
            ("client_secret"@, secret),
            ("code"@, code),
            ("redirect_uri"@, config.redirect_uri@),
        ]
    }

    /// The profile request for the token's owner.
    pub fn user_info_request(&self, token: &TokenResponse) -> (r: Result<HttpGet, AuthError>)
        ensures
            r matches Ok(g) && g.url@ == USER_ENDPOINT@ + seq!['?'] + form_query(
                seq![("access_token"@, token.access_token@)],
            ) && g.bearer is None && !g.accept_json,
    {
        let url = Self::user_info_url(
            GetUserInfoRequest { access_token: token.access_token.clone() },
        )?;
        Ok(HttpGet { url, bearer: None, accept_json: false })
    }

    /// The canonical identity: no refresh token.
    pub fn normalize(token: TokenResponse, user: UserInfoResponse) -> (r: AuthUser)
        ensures
            r.user_id == user.id,
            r.name == user.name,
            r.access_token == token.access_token,
            r.refresh_token@ == Seq::<char>::empty(),
            r.expires_in == token.expires_in,
            r.extra == user.extra,
    {
        AuthUser {
            user_id: user.id,
            name: user.name,
            access_token: token.access_token,
            refresh_token: String::new(),
            expires_in: token.expires_in,
            extra: user.extra,
        }
    }
}

impl AuthUrlProvider for AuthorizationServer {
    type AuthRequest = AuthRequest;
    type TokenRequest = GetTokenRequest;
    type UserInfoRequest = GetUserInfoRequest;

    fn authorize_url(request: AuthRequest) -> (r: Result<String, AuthError>)
        ensures
            r matches Ok(u) && u@ == AUTHORIZE_ENDPOINT@ + seq!['?'] + form_query(
                seq![("response_type"@, "token"@)] + request.query_pairs(),
            ),
    {
        let mut pairs: Vec<(String, String)> = Vec::new();
        push_pair(&mut pairs, "response_type", "token".to_string());
        request.push_query_pairs(&mut pairs);
        assert(pairs_view(pairs@) =~= seq![("response_type"@, "token"@)] + request.query_pairs());
        endpoint_url(AUTHORIZE_ENDPOINT, &pairs)
    }

    fn access_token_url(request: GetTokenRequest) -> (r: Result<String, AuthError>)
        ensures
            r matches Ok(u) && u@ == TOKEN_ENDPOINT@ + seq!['?'] + form_query(
                seq![("grant_type"@, "authorization_code"@)] + request.query_pairs(),
            ),
    {
        let mut pairs: Vec<(String, String)> = Vec::new();
        push_pair(&mut pairs, "grant_type", "authorization_code".to_string());
        push_pair(&mut pairs, "client_id", request.client_id);
        push_pair(&mut pairs, "client_secret", request.client_secret);
        push_pair(&mut pairs, "code", request.code);
        push_pair(&mut pairs, "redirect_uri", request.redirect_uri);
        assert(pairs_view(pairs@) =~= seq![("grant_type"@, "authorization_code"@)]
            + request.query_pairs());
        endpoint_url(TOKEN_ENDPOINT, &pairs)
    }

    fn user_info_url(request: GetUserInfoRequest) -> (r: Result<String, AuthError>)
        ensures
            r matches Ok(u) && u@ == USER_ENDPOINT@ + seq!['?'] + form_query(
                seq![("access_token"@, request.access_token@)],
            ),
    {
        let mut pairs: Vec<(String, String)> = Vec::new();
        push_pair(&mut pairs, "access_token", request.access_token);
        assert(pairs_view(pairs@) =~= seq![("access_token"@, request.access_token@)]);
        endpoint_url(USER_ENDPOINT, &pairs)
    }
}

impl AuthAction for AuthorizationServer {
    type AuthCallback = AuthCallback;

    fn authorize(&self, state: String) -> (r: Result<String, AuthError>)
        ensures
            r matches Ok(u) && u@ == AUTHORIZE_ENDPOINT@ + seq!['?'] + form_query(
                Self::authorize_pairs(self.config, state@),
            ),
    {
        let default: Vec<String> = Vec::new();
        assert(strings_view(default@) =~= Seq::<Seq<char>>::empty());
        let request = AuthRequest {
            client_id: self.config.client_id.clone(),
            redirect_uri: self.config.redirect_uri.clone(),
            scope: configured_scope(&self.config, default),
            state: Some(state),
            display: None,
        };
        assert(seq![("response_type"@, "token"@)] + request.query_pairs()
            =~= Self::authorize_pairs(self.config, state@));
        Self::authorize_url(request)
    }

    fn access_token_request(&self, callback: &AuthCallback) -> (r: Result<HttpGet, AuthError>)
        ensures
            match self.config.client_secret {
                None => r == Err::<HttpGet, AuthError>(AuthError::ConfigurationError),
                Some(secret) => r matches Ok(g) && g.url@ == TOKEN_ENDPOINT@ + seq!['?']
                    + form_query(Self::token_pairs(self.config, secret@, callback.code@))
                    && g.bearer is None && !g.accept_json,
            },
    {
        let secret = required_secret(&self.config)?;
        let request = GetTokenRequest {
            client_id: self.config.client_id.clone(),
            client_secret: secret,
            code: callback.code.clone(),
            redirect_uri: self.config.redirect_uri.clone(),
        };
        let ghost req_pairs = request.query_pairs();
        let url = Self::access_token_url(request)?;
        assert(seq![("grant_type"@, "authorization_code"@)] + req_pairs =~= Self::token_pairs(
            self.config,
            secret@,
            callback.code@,
        ));
        Ok(HttpGet { url, bearer: None, accept_json: false })
    }
}

} // verus!
