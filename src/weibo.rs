//! Weibo: scope items joined by commas; the token answer names the user's
//! numeric uid, which the profile URL carries beside the token.
use crate::error::AuthError;
use crate::query::{
    decode_query, endpoint_url, form_query, i64_decimal, int_decimal, join, join_with,
    lemma_query_value_concat, lemma_short_pairs_value, lookup, opt_pair, opt_text, pairs_view,
    push_opt, push_pair, query_value, required, strings_view, QueryPairs,
};
use crate::{
    configured_scope, required_secret, AuthAction, AuthConfig, AuthUrlProvider, AuthUser, HttpGet,
};
use std::collections::HashMap;
use vstd::prelude::*;

verus! {

pub const AUTHORIZE_ENDPOINT: &'static str = "https://api.weibo.com/oauth2/authorize";

pub const TOKEN_ENDPOINT: &'static str = "https://api.weibo.com/oauth2/access_token";

pub const USER_ENDPOINT: &'static str = "https://api.weibo.com/2/eps/user/info.json";

pub struct AuthorizationServer {
    pub config: AuthConfig,
}

/// What the authorize URL carries.
pub struct AuthRequest {
    pub client_id: String,
    pub redirect_uri: String,
    pub scope: Vec<String>,
    pub state: Option<String>,
    pub display: Option<String>,
    pub forcelogin: Option<bool>,
    pub language: Option<String>,
}

/// What the provider's redirect back to the client carries.
pub struct AuthCallback {
    pub code: String,
    pub state: Option<String>,
}

/// What the token URL carries.
pub struct GetTokenRequest {
    pub client_id: String,
    pub client_secret: String,
    pub code: String,
    pub redirect_uri: String,
}

/// The token answer.
pub struct TokenResponse {
    pub access_token: String,
    pub remind_in: i64,
    pub expires_in: i64,
    pub uid: i64,
}

/// What the profile URL carries.
pub struct GetUserInfoRequest {
    pub access_token: String,
    pub uid: i64,
}

/// The profile answer.
pub struct UserInfoResponse {
    pub uid: String,
    pub nickname: String,
    pub extra: HashMap<String, serde_json::Value>,
}

impl AuthRequest {
    pub open spec fn query_pairs(&self) -> QueryPairs {
        seq![
            ("client_id"@, self.client_id@),
            ("redirect_uri"@, self.redirect_uri@),
            ("scope"@, join(strings_view(self.scope@), ","@)),
        ] + opt_pair("state"@, self.state) + opt_pair("display"@, self.display) + match self.forcelogin {
            Some(b) => seq![("forcelogin"@, if b { "true"@ } else { "false"@ })],
            None => seq![],
        } + opt_pair("language"@, self.language)
    }

    /// Appends the pairs of this request to `pairs`.
    pub fn push_query_pairs(&self, pairs: &mut Vec<(String, String)>)
        ensures
            pairs_view(final(pairs)@) == pairs_view(old(pairs)@) + self.query_pairs(),
    {
        push_pair(pairs, "client_id", self.client_id.clone());
        push_pair(pairs, "redirect_uri", self.redirect_uri.clone());
        push_pair(pairs, "scope", join_with(&self.scope, ","));
        push_opt(pairs, "state", &self.state);
        push_opt(pairs, "display", &self.display);
        if let Some(b) = self.forcelogin {
            let text = if b {
                "true"
            } else {
                "false"
            };
            push_pair(pairs, "forcelogin", text.to_string());
        }
        push_opt(pairs, "language", &self.language);
        assert(pairs_view(pairs@) =~= pairs_view(old(pairs)@) + self.query_pairs());
    }
}

impl GetTokenRequest {
    pub open spec fn query_pairs(&self) -> QueryPairs {
        seq![
            ("client_id"@, self.client_id@),
            ("client_secret"@, self.client_secret@),
            ("code"@, self.code@),
            ("redirect_uri"@, self.redirect_uri@),
        ]
    }
}

impl GetUserInfoRequest {
    pub open spec fn query_pairs(&self) -> QueryPairs {
        seq![("access_token"@, self.access_token@), ("uid"@, int_decimal(self.uid as int))]
    }
}

impl AuthCallback {
    /// The callback that the pairs of a redirect's query string describe; the state may be absent.
    pub fn from_pairs(pairs: &Vec<(String, String)>) -> (r: Result<AuthCallback, AuthError>)
        ensures
            match query_value(pairs_view(pairs@), "code"@) {
                Some(code) => r matches Ok(cb) && cb.code@ == code && match query_value(
                    pairs_view(pairs@),
                    "state"@,
                ) {
                    Some(state) => cb.state matches Some(s) && s@ == state,
                    None => cb.state is None,
                },
                None => r matches Err(AuthError::DecodingError(_)),
            },
    {
        let code = required(pairs, "code")?;
        let state = lookup(pairs, "state");
        Ok(AuthCallback { code, state })
    }

    /// The callback that a redirect's raw query string describes.
    pub fn from_query(query: &str) -> (r: Result<AuthCallback, AuthError>)
        ensures
            forall|p: QueryPairs|
                #[trigger] form_query(p) == query@ ==> match query_value(p, "code"@) {
                    Some(code) => r matches Ok(cb) && cb.code@ == code && match query_value(
                        p,
                        "state"@,
                    ) {
                        Some(state) => cb.state matches Some(s) && s@ == state,
                        None => cb.state is None,
                    },
                    None => r matches Err(AuthError::DecodingError(_)),
                },
            r is Err ==> r matches Err(AuthError::DecodingError(_)),
    {
        let pairs = decode_query(query)?;
        Self::from_pairs(&pairs)
    }
}

/// Reading the pairs of an authorize request's query back gives each of its
/// fields: a text field as it is, an absent optional field as no value at all,
/// and the scope as its items joined by the provider's separator.
pub proof fn lemma_auth_request_reads_back(req: AuthRequest)
    ensures
        query_value(req.query_pairs(), "client_id"@) == Some(req.client_id@),
        query_value(req.query_pairs(), "redirect_uri"@) == Some(req.redirect_uri@),
        query_value(req.query_pairs(), "scope"@) == Some(join(strings_view(req.scope@), ","@)),
        query_value(req.query_pairs(), "state"@) == opt_text(req.state),
        query_value(req.query_pairs(), "display"@) == opt_text(req.display),
        query_value(req.query_pairs(), "forcelogin"@) == match req.forcelogin {
            Some(x) => Some(if x { "true"@ } else { "false"@ }),
            None => None::<Seq<char>>,
        },
        query_value(req.query_pairs(), "language"@) == opt_text(req.language),
{
    reveal_strlit("client_id");
    reveal_strlit("redirect_uri");
    reveal_strlit("scope");
    reveal_strlit("state");
    reveal_strlit("display");
    reveal_strlit("forcelogin");
    reveal_strlit("language");
    assert("client_id"@.len() == 9);
    assert("redirect_uri"@.len() == 12);
    assert("scope"@.len() == 5);
    assert("state"@.len() == 5);
    assert("display"@.len() == 7);
    assert("forcelogin"@.len() == 10);
    assert("language"@.len() == 8);
    assert("scope"@[1] != "state"@[1]);
    let a = seq![("client_id"@, req.client_id@), ("redirect_uri"@, req.redirect_uri@)];
    let b = seq![("scope"@, join(strings_view(req.scope@), ","@))];
    let s = opt_pair("state"@, req.state);
    let d = opt_pair("display"@, req.display);
    let f = match req.forcelogin {
        Some(x) => seq![("forcelogin"@, if x { "true"@ } else { "false"@ })],
        None => seq![],
    };
    let l = opt_pair("language"@, req.language);
    assert(req.query_pairs() =~= a + b + s + d + f + l);
    lemma_short_pairs_value(a);
    lemma_short_pairs_value(b);
    lemma_short_pairs_value(s);
    lemma_short_pairs_value(d);
    lemma_short_pairs_value(f);
    lemma_short_pairs_value(l);
    lemma_query_value_concat(a, b);
    lemma_query_value_concat(a + b, s);
    lemma_query_value_concat(a + b + s, d);
    lemma_query_value_concat(a + b + s + d, f);
    lemma_query_value_concat(a + b + s + d + f, l);
}

impl AuthorizationServer {
    pub fn new(config: AuthConfig) -> (r: Self)
        ensures
            r.config == config,
    {
        AuthorizationServer { config }
    }

    pub open spec fn default_scope() -> Seq<Seq<char>> {
        seq!["email"@]
    }

    /// The pairs of the authorize URL for `config` and `state`.
    pub open spec fn authorize_pairs(config: AuthConfig, state: Seq<char>) -> QueryPairs {
        seq![
            ("response_type"@, "code"@),
            ("client_id"@, config.client_id@),
            ("redirect_uri"@, config.redirect_uri@),
            ("scope"@, join(config.scope_or(Self::default_scope()), ","@)),
            ("state"@, state),
        ]
    }

    /// The pairs of the token URL for `config`, its secret and an authorization code.
    pub open spec fn token_pairs(config: AuthConfig, secret: Seq<char>, code: Seq<char>) -> QueryPairs {
        seq![
            ("grant_type"@, "authorization_code"@),
            ("client_id"@, config.client_id@),
            ("client_secret"@, secret),
            ("code"@, code),
            ("redirect_uri"@, config.redirect_uri@),
        ]
    }

    /// The profile request for the token's owner.
    pub fn user_info_request(&self, token: &TokenResponse) -> (r: Result<HttpGet, AuthError>)
        ensures
            r matches Ok(g) && g.url@ == USER_ENDPOINT@ + seq!['?'] + form_query(
                seq![("access_token"@, token.access_token@), ("uid"@, int_decimal(token.uid as int))],
            ) && g.bearer is None && !g.accept_json,
    {
        let url = Self::user_info_url(
            GetUserInfoRequest { access_token: token.access_token.clone(), uid: token.uid },
        )?;
        Ok(HttpGet { url, bearer: None, accept_json: false })
    }

    /// The canonical identity: the uid as user id, no refresh token.
    pub fn normalize(token: TokenResponse, user: UserInfoResponse) -> (r: AuthUser)
        ensures
            r.user_id == user.uid,
            r.name == user.nickname,
            r.access_token == token.access_token,
            r.refresh_token@ == Seq::<char>::empty(),
            r.expires_in == token.expires_in,
            r.extra == user.extra,
    {
        AuthUser {
            user_id: user.uid,
            name: user.nickname,
            access_token: token.access_token,
            refresh_token: String::new(),
            expires_in: token.expires_in,
            extra: user.extra,
        }
    }
}

impl AuthUrlProvider for AuthorizationServer {
    type AuthRequest = AuthRequest;
    type TokenRequest = GetTokenRequest;
    type UserInfoRequest = GetUserInfoRequest;

    fn authorize_url(request: AuthRequest) -> (r: Result<String, AuthError>)
        ensures
            r matches Ok(u) && u@ == AUTHORIZE_ENDPOINT@ + seq!['?'] + form_query(
                seq![("response_type"@, "code"@)] + request.query_pairs(),
            ),
    {
        let mut pairs: Vec<(String, String)> = Vec::new();
        push_pair(&mut pairs, "response_type", "code".to_string());
        request.push_query_pairs(&mut pairs);
        assert(pairs_view(pairs@) =~= seq![("response_type"@, "code"@)] + request.query_pairs());
        endpoint_url(AUTHORIZE_ENDPOINT, &pairs)
    }

    fn access_token_url(request: GetTokenRequest) -> (r: Result<String, AuthError>)
        ensures
            r matches Ok(u) && u@ == TOKEN_ENDPOINT@ + seq!['?'] + form_query(
                seq![("grant_type"@, "authorization_code"@)] + request.query_pairs(),
            ),
    {
        let mut pairs: Vec<(String, String)> = Vec::new();
        push_pair(&mut pairs, "grant_type", "authorization_code".to_string());
        push_pair(&mut pairs, "client_id", request.client_id);
        push_pair(&mut pairs, "client_secret", request.client_secret);
        push_pair(&mut pairs, "code", request.code);
        push_pair(&mut pairs, "redirect_uri", request.redirect_uri);
        assert(pairs_view(pairs@) =~= seq![("grant_type"@, "authorization_code"@)]
            + request.query_pairs());
        endpoint_url(TOKEN_ENDPOINT, &pairs)
    }

    fn user_info_url(request: GetUserInfoRequest) -> (r: Result<String, AuthError>)
        ensures
            r matches Ok(u) && u@ == USER_ENDPOINT@ + seq!['?'] + form_query(
                request.query_pairs(),
            ),
    {
        let mut pairs: Vec<(String, String)> = Vec::new();
        push_pair(&mut pairs, "access_token", request.access_token);
        push_pair(&mut pairs, "uid", i64_decimal(request.uid));
        assert(pairs_view(pairs@) =~= request.query_pairs());
        endpoint_url(USER_ENDPOINT, &pairs)
    }
}

impl AuthAction for AuthorizationServer {
    type AuthCallback = AuthCallback;

    fn authorize(&self, state: String) -> (r: Result<String, AuthError>)
        ensures
            r matches Ok(u) && u@ == AUTHORIZE_ENDPOINT@ + seq!['?'] + form_query(
                Self::authorize_pairs(self.config, state@),
            ),
    {
        let default = vec!["email".to_string()];
        assert(strings_view(default@) =~= Self::default_scope());
        let request = AuthRequest {
            client_id: self.config.client_id.clone(),
            redirect_uri: self.config.redirect_uri.clone(),
            scope: configured_scope(&self.config, default),
            state: Some(state),
            display: None,
            forcelogin: None,
            language: None,
        };
        assert(seq![("response_type"@, "code"@)] + request.query_pairs()
            =~= Self::authorize_pairs(self.config, state@));
        Self::authorize_url(request)
    }

    fn access_token_request(&self, callback: &AuthCallback) -> (r: Result<HttpGet, AuthError>)
        ensures
            match self.config.client_secret {
                None => r == Err::<HttpGet, AuthError>(AuthError::ConfigurationError),
                Some(secret) => r matches Ok(g) && g.url@ == TOKEN_ENDPOINT@ + seq!['?']
                    + form_query(Self::token_pairs(self.config, secret@, callback.code@))
                    && g.bearer is None && !g.accept_json,
            },
    {
        let secret = required_secret(&self.config)?;
        let request = GetTokenRequest {
            client_id: self.config.client_id.clone(),
            client_secret: secret,
            code: callback.code.clone(),
            redirect_uri: self.config.redirect_uri.clone(),
        };
        let ghost req_pairs = request.query_pairs();
        let url = Self::access_token_url(request)?;
        assert(seq![("grant_type"@, "authorization_code"@)] + req_pairs =~= Self::token_pairs(
            self.config,
            secret@,
            callback.code@,
        ));
        Ok(HttpGet { url, bearer: None, accept_json: false })
    }
}

} // verus!
