//! WeChat open platform: scope items joined by commas; the client is named by
//! its `appid`, and the profile URL carries the token and the user's id.
use crate::error::AuthError;
use crate::query::{
    endpoint_url, form_query, join, join_with, lemma_query_value_concat, lemma_short_pairs_value,
    opt_pair, opt_text, pairs_view, push_opt, push_pair, query_value, strings_view, QueryPairs,
};
use crate::{
    configured_scope, required_secret, AuthAction, AuthConfig, AuthUrlProvider, AuthUser, HttpGet,
};
use std::collections::HashMap;
use vstd::prelude::*;

verus! {

pub const AUTHORIZE_ENDPOINT: &'static str = "https://open.weixin.qq.com/connect/qrconnect";

pub const TOKEN_ENDPOINT: &'static str = "https://api.weixin.qq.com/sns/oauth2/access_token";

pub const USER_ENDPOINT: &'static str = "https://api.weixin.qq.com/sns/userinfo";

pub struct AuthorizationServer {
    pub config: AuthConfig,
}

/// What the authorize URL carries.
pub struct AuthRequest {
    pub appid: String,
    pub redirect_uri: String,
    pub scope: Vec<String>,
    pub state: Option<String>,
    pub lang: Option<Lang>,
}

/// The language of the authorization page.
pub enum Lang {
    En,
    Cn,
}

/// What the provider's redirect back to the client carries.
pub struct AuthCallback {
    pub code: String,
    pub state: String,
}

/// What the token URL carries.
pub struct GetTokenRequest {
    pub appid: String,
    pub secret: String,
    pub code: String,
}

/// What a token refresh carries.
pub struct RefreshTokenRequest {
    pub grant_type: String,
    pub appid: String,
    pub refresh_token: String,
}

/// The token answer.
pub struct TokenResponse {
    pub access_token: String,
    pub expires_in: i64,
    pub refresh_token: String,
    pub openid: String,
    pub scope: String,
    pub unionid: String,
}

/// What the profile URL carries.
pub struct GetUserInfoRequest {
    pub access_token: String,
    pub openid: String,
    pub lang: Option<String>,
}

/// The profile answer.
pub struct UserInfoResponse {
    pub unionid: String,
    pub nickname: String,
    pub extra: HashMap<String, serde_json::Value>,
}

impl Lang {
    pub open spec fn name(&self) -> Seq<char> {
        match self {
            Lang::En => "en"@,
            Lang::Cn => "cn"@,
        }
    }

    pub fn as_str(&self) -> (r: &'static str)
        ensures
            r@ == self.name(),
    {
        match self {
            Lang::En => "en",
            Lang::Cn => "cn",
        }
    }
}

impl AuthRequest {
    pub open spec fn query_pairs(&self) -> QueryPairs {
        seq![
            ("appid"@, self.appid@),
            ("redirect_uri"@, self.redirect_uri@),
            ("scope"@, join(strings_view(self.scope@), ","@)),
        ] + opt_pair("state"@, self.state) + match self.lang {
            Some(l) => seq![("lang"@, l.name())],
            None => seq![],
        }
    }

    /// Appends the pairs of this request to `pairs`.
    pub fn push_query_pairs(&self, pairs: &mut Vec<(String, String)>)
        ensures
            pairs_view(final(pairs)@) == pairs_view(old(pairs)@) + self.query_pairs(),
    {
        push_pair(pairs, "appid", self.appid.clone());
        push_pair(pairs, "redirect_uri", self.redirect_uri.clone());
        push_pair(pairs, "scope", join_with(&self.scope, ","));
        push_opt(pairs, "state", &self.state);
        if let Some(l) = &self.lang {
            push_pair(pairs, "lang", l.as_str().to_string());
        }
        assert(pairs_view(pairs@) =~= pairs_view(old(pairs)@) + self.query_pairs());
    }
}

impl GetTokenRequest {
    pub open spec fn query_pairs(&self) -> QueryPairs {
        seq![("appid"@, self.appid@), ("secret"@, self.secret@), ("code"@, self.code@)]
    }
}

impl GetUserInfoRequest {
    pub open spec fn query_pairs(&self) -> QueryPairs {
        seq![("access_token"@, self.access_token@), ("openid"@, self.openid@)] + opt_pair(
            "lang"@,
            self.lang,
        )
    }
}

/// Reading the pairs of an authorize request's query back gives each of its
/// fields: a text field as it is, an absent optional field as no value at all,
/// and the scope as its items joined by the provider's separator.
pub proof fn lemma_auth_request_reads_back(req: AuthRequest)
    ensures
        query_value(req.query_pairs(), "appid"@) == Some(req.appid@),
        query_value(req.query_pairs(), "redirect_uri"@) == Some(req.redirect_uri@),
        query_value(req.query_pairs(), "scope"@) == Some(join(strings_view(req.scope@), ","@)),
        query_value(req.query_pairs(), "state"@) == opt_text(req.state),
        query_value(req.query_pairs(), "lang"@) == match req.lang {
            Some(x) => Some(x.name()),
            None => None::<Seq<char>>,
        },
{
    reveal_strlit("appid");
    reveal_strlit("redirect_uri");
    reveal_strlit("scope");
    reveal_strlit("state");
    reveal_strlit("lang");
    assert("appid"@.len() == 5);
    assert("redirect_uri"@.len() == 12);
    assert("scope"@.len() == 5);
    assert("state"@.len() == 5);
    assert("lang"@.len() == 4);
    assert("appid"@[0] != "scope"@[0]);
    assert("appid"@[0] != "state"@[0]);
    assert("scope"@[1] != "state"@[1]);
    let a = seq![("appid"@, req.appid@), ("redirect_uri"@, req.redirect_uri@)];
    let b = seq![("scope"@, join(strings_view(req.scope@), ","@))];
    let s = opt_pair("state"@, req.state);
    let l = match req.lang {
        Some(x) => seq![("lang"@, x.name())],
        None => seq![],
    };
    assert(req.query_pairs() =~= a + b + s + l);
    lemma_short_pairs_value(a);
    lemma_short_pairs_value(b);
    lemma_short_pairs_value(s);
    lemma_short_pairs_value(l);
    lemma_query_value_concat(a, b);
    lemma_query_value_concat(a + b, s);
    lemma_query_value_concat(a + b + s, l);
}

impl AuthorizationServer {
    pub fn new(config: AuthConfig) -> (r: Self)
        ensures
            r.config == config,
    {
        AuthorizationServer { config }
    }

    pub open spec fn default_scope() -> Seq<Seq<char>> {
        seq!["snsapi_base"@, "snsapi_login"@, "snsapi_userinfo"@]
    }

    /// The pairs of the authorize URL for `config` and `state`.
    pub open spec fn authorize_pairs(config: AuthConfig, state: Seq<char>) -> QueryPairs {
        seq![
            ("response_type"@, "code"@),
            ("appid"@, config.client_id@),
            ("redirect_uri"@, config.redirect_uri@),
            ("scope"@, join(config.scope_or(Self::default_scope()), ","@)),
            ("state"@, state),
        ]
    }

    /// The pairs of the token URL for `config`, its secret and an authorization code.
    pub open spec fn token_pairs(config: AuthConfig, secret: Seq<char>, code: Seq<char>) -> QueryPairs {
        seq![
            ("grant_type"@, "authorization_code"@),
            ("appid"@, config.client_id@),
            ("secret"@, secret),
            ("code"@, code),
        ]
    }

    /// The profile request for the token's owner, who is named by the token's union id.
    pub fn user_info_request(&self, token: &TokenResponse) -> (r: Result<HttpGet, AuthError>)
        ensures
            r matches Ok(g) && g.url@ == USER_ENDPOINT@ + seq!['?'] + form_query(
                seq![("access_token"@, token.access_token@), ("openid"@, token.unionid@)],
            ) && g.bearer is None && !g.accept_json,
    {
        let url = Self::user_info_url(
            GetUserInfoRequest {
                access_token: token.access_token.clone(),
                openid: token.unionid.clone(),
                lang: None,
            },
        )?;
        Ok(HttpGet { url, bearer: None, accept_json: false })
    }

    /// The canonical identity: the union id as user id, the nickname as name.
    pub fn normalize(token: TokenResponse, user: UserInfoResponse) -> (r: AuthUser)
        ensures
            r.user_id == user.unionid,
            r.name == user.nickname,
            r.access_token == token.access_token,
            r.refresh_token == token.refresh_token,
            r.expires_in == token.expires_in,
            r.extra == user.extra,
    {
        AuthUser {
            user_id: user.unionid,
            name: user.nickname,
            access_token: token.access_token,
            refresh_token: token.refresh_token,
            expires_in: token.expires_in,
            extra: user.extra,
        }
    }
}

impl AuthUrlProvider for AuthorizationServer {
    type AuthRequest = AuthRequest;
    type TokenRequest = GetTokenRequest;
    type UserInfoRequest = GetUserInfoRequest;

    fn authorize_url(request: AuthRequest) -> (r: Result<String, AuthError>)
        ensures
            r matches Ok(u) && u@ == AUTHORIZE_ENDPOINT@ + seq!['?'] + form_query(
                seq![("response_type"@, "code"@)] + request.query_pairs(),
            ),
    {
        let mut pairs: Vec<(String, String)> = Vec::new();
        push_pair(&mut pairs, "response_type", "code".to_string());
        request.push_query_pairs(&mut pairs);
        assert(pairs_view(pairs@) =~= seq![("response_type"@, "code"@)] + request.query_pairs());
        endpoint_url(AUTHORIZE_ENDPOINT, &pairs)
    }

    fn access_token_url(request: GetTokenRequest) -> (r: Result<String, AuthError>)
        ensures
            r matches Ok(u) && u@ == TOKEN_ENDPOINT@ + seq!['?'] + form_query(
                seq![("grant_type"@, "authorization_code"@)] + request.query_pairs(),
            ),
    {
        let mut pairs: Vec<(String, String)> = Vec::new();
        push_pair(&mut pairs, "grant_type", "authorization_code".to_string());
        push_pair(&mut pairs, "appid", request.appid);
        push_pair(&mut pairs, "secret", request.secret);
        push_pair(&mut pairs, "code", request.code);
        assert(pairs_view(pairs@) =~= seq![("grant_type"@, "authorization_code"@)]
            + request.query_pairs());
        endpoint_url(TOKEN_ENDPOINT, &pairs)
    }

    fn user_info_url(request: GetUserInfoRequest) -> (r: Result<String, AuthError>)
        ensures
            r matches Ok(u) && u@ == USER_ENDPOINT@ + seq!['?'] + form_query(
                request.query_pairs(),
            ),
    {
        let mut pairs: Vec<(String, String)> = Vec::new();
        push_pair(&mut pairs, "access_token", request.access_token);
        push_pair(&mut pairs, "openid", request.openid);
        push_opt(&mut pairs, "lang", &request.lang);
        assert(pairs_view(pairs@) =~= request.query_pairs());
        endpoint_url(USER_ENDPOINT, &pairs)
    }
}

impl AuthAction for AuthorizationServer {
    type AuthCallback = AuthCallback;

    fn authorize(&self, state: String) -> (r: Result<String, AuthError>)
        ensures
            r matches Ok(u) && u@ == AUTHORIZE_ENDPOINT@ + seq!['?'] + form_query(
                Self::authorize_pairs(self.config, state@),
            ),
    {
        let default = vec![
            "snsapi_base".to_string(),
            "snsapi_login".to_string(),
            "snsapi_userinfo".to_string(),
        ];
        assert(strings_view(default@) =~= Self::default_scope());
        let request = AuthRequest {
            appid: self.config.client_id.clone(),
            redirect_uri: self.config.redirect_uri.clone(),
            scope: configured_scope(&self.config, default),
            state: Some(state),
            lang: None,
        };
        assert(seq![("response_type"@, "code"@)] + request.query_pairs()
            =~= Self::authorize_pairs(self.config, state@));
        Self::authorize_url(request)
    }

    fn access_token_request(&self, callback: &AuthCallback) -> (r: Result<HttpGet, AuthError>)
        ensures
            match self.config.client_secret {
                None => r == Err::<HttpGet, AuthError>(AuthError::ConfigurationError),
                Some(secret) => r matches Ok(g) && g.url@ == TOKEN_ENDPOINT@ + seq!['?']
                    + form_query(Self::token_pairs(self.config, secret@, callback.code@))
                    && g.bearer is None && !g.accept_json,
            },
    {
        let secret = required_secret(&self.config)?;
        let request = GetTokenRequest {
            appid: self.config.client_id.clone(),
            secret,
            code: callback.code.clone(),
        };
        let ghost req_pairs = request.query_pairs();
        let url = Self::access_token_url(request)?;
        assert(seq![("grant_type"@, "authorization_code"@)] + req_pairs =~= Self::token_pairs(
            self.config,
            secret@,
            callback.code@,
        ));
        Ok(HttpGet { url, bearer: None, accept_json: false })
    }
}

} // verus!
