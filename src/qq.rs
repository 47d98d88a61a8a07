//! QQ: scope items joined by commas. Before the profile can be asked for, the
//! user's open id is read from a JSONP answer of the "me" endpoint.
use crate::error::AuthError;
use crate::jsonp::{between, substr_between};
use crate::query::{
    decode_query, endpoint_url, form_query, join, join_with, lemma_join_two, lemma_query_value_at,
    lemma_query_value_concat, lemma_short_pairs_value, pairs_view, push_pair, query_value, required,
    strings_view, QueryPairs,
};
use crate::{
    configured_scope, required_secret, AuthAction, AuthConfig, AuthUrlProvider, AuthUser, HttpGet,
};
use std::collections::HashMap;
use vstd::prelude::*;

verus! {

pub const AUTHORIZE_ENDPOINT: &'static str = "https://graph.qq.com/oauth2.0/authorize";

pub const TOKEN_ENDPOINT: &'static str = "https://graph.qq.com/oauth2.0/token";

pub const USER_ENDPOINT: &'static str = "https://graph.qq.com/user/get_user_info";

pub const OPEN_ID_ENDPOINT: &'static str = "https://graph.qq.com/oauth2.0/me?access_token=";

pub const JSONP_START: &'static str = "callback(";

pub const JSONP_END: &'static str = ");";

pub struct AuthorizationServer {
    pub config: AuthConfig,
}

/// What the authorize URL carries.
pub struct AuthRequest {
    pub client_id: String,
    pub redirect_uri: String,
    pub state: String,
    pub scope: Option<Vec<String>>,
    pub display: Option<QQDisplayStyle>,
}

pub enum QQDisplayStyle {
    PC,
    Mobile,
}

/// What the provider's redirect back to the client carries.
pub struct AuthCallback {
    pub code: String,
    pub state: String,
}

/// What the token URL carries.
pub struct GetTokenRequest {
    pub client_id: String,
    pub client_secret: String,
    pub code: String,
    pub redirect_uri: String,
    pub fmt: Option<ResponseFormat>,
}

/// The format in which the token answer is asked for.
pub enum ResponseFormat {
    UrlEncoded,
    Json,
}

/// What a token refresh carries.
pub struct RefreshTokenRequest {
    pub grant_type: String,
    pub client_id: String,
    pub client_secret: String,
    pub refresh_token: String,
    pub fmt: Option<ResponseFormat>,
}

/// The token answer.
pub struct TokenResponse {
    pub access_token: String,
    pub expires_in: i32,
    pub refresh_token: String,
}

/// The answer of the "me" endpoint, once unwrapped.
pub struct OpenIdResp {
    pub client_id: String,
    pub openid: String,
}

/// What the profile URL carries.
pub struct GetUserInfoRequest {
    pub access_token: String,
    pub oauth_consumer_key: String,
    pub openid: String,
}

/// The profile answer.
pub struct UserInfoResponse {
    pub nickname: String,
    pub extra: HashMap<String, serde_json::Value>,
}

impl QQDisplayStyle {
    pub open spec fn name(&self) -> Seq<char> {
        match self {
            QQDisplayStyle::PC => "pc"@,
            QQDisplayStyle::Mobile => "mobile"@,
        }
    }

    pub fn as_str(&self) -> (r: &'static str)
        ensures
            r@ == self.name(),
    {
        match self {
            QQDisplayStyle::PC => "pc",
            QQDisplayStyle::Mobile => "mobile",
        }
    }
}

impl ResponseFormat {
    pub open spec fn name(&self) -> Seq<char> {
        match self {
            ResponseFormat::UrlEncoded => "x-www-form-urlencoded"@,
            ResponseFormat::Json => "json"@,
        }
    }

    pub fn as_str(&self) -> (r: &'static str)
        ensures
            r@ == self.name(),
    {
        match self {
            ResponseFormat::UrlEncoded => "x-www-form-urlencoded",
            ResponseFormat::Json => "json",
        }
    }
}

impl AuthRequest {
    pub open spec fn query_pairs(&self) -> QueryPairs {
        seq![
            ("client_id"@, self.client_id@),
            ("redirect_uri"@, self.redirect_uri@),
            ("state"@, self.state@),
        ] + match self.scope {
            Some(items) => seq![("scope"@, join(strings_view(items@), ","@))],
            None => seq![],
        } + match self.display {
            Some(d) => seq![("display"@, d.name())],
            None => seq![],
        }
    }

    /// Appends the pairs of this request to `pairs`.
    pub fn push_query_pairs(&self, pairs: &mut Vec<(String, String)>)
        ensures
            pairs_view(final(pairs)@) == pairs_view(old(pairs)@) + self.query_pairs(),
    {
        push_pair(pairs, "client_id", self.client_id.clone());
        push_pair(pairs, "redirect_uri", self.redirect_uri.clone());
        push_pair(pairs, "state", self.state.clone());
        if let Some(items) = &self.scope {
            push_pair(pairs, "scope", join_with(items, ","));
        }
        if let Some(d) = &self.display {
            push_pair(pairs, "display", d.as_str().to_string());
        }
        assert(pairs_view(pairs@) =~= pairs_view(old(pairs)@) + self.query_pairs());
    }
}

/// A present scope list becomes one `scope` pair holding its items joined by
/// commas: two items give the first, a comma and the second; no items give the
/// empty value. An absent scope list gives no `scope` pair at all.
pub proof fn lemma_scope_encoding(req: AuthRequest)
    ensures
        match req.scope {
            Some(items) => {
                &&& query_value(req.query_pairs(), "scope"@) == Some(
                    join(strings_view(items@), ","@),
                )
                &&& items@.len() == 2 ==> join(strings_view(items@), ","@) == items@[0]@ + ","@
                    + items@[1]@
                &&& items@.len() == 0 ==> join(strings_view(items@), ","@) == Seq::<char>::empty()
            },
            None => forall|i: int|
                0 <= i < req.query_pairs().len() ==> (#[trigger] req.query_pairs()[i]).0
                    != "scope"@,
        },
{
    reveal_strlit("client_id");
    reveal_strlit("redirect_uri");
    reveal_strlit("state");
    reveal_strlit("scope");
    reveal_strlit("display");
    assert("scope"@[1] != "state"@[1]);
    let pairs = req.query_pairs();
    match req.scope {
        Some(items) => {
            lemma_query_value_at(pairs, "scope"@, 3);
            if items@.len() == 2 {
                assert(strings_view(items@) =~= seq![items@[0]@, items@[1]@]);
                lemma_join_two(items@[0]@, items@[1]@, ","@);
            }
        },
        None => {
            assert("display"@.len() != "scope"@.len());
        },
    }
}

impl GetTokenRequest {
    pub open spec fn query_pairs(&self) -> QueryPairs {
        seq![
            ("client_id"@, self.client_id@),
            ("client_secret"@, self.client_secret@),
            ("code"@, self.code@),
            ("redirect_uri"@, self.redirect_uri@),
        ] + match self.fmt {
            Some(f) => seq![("fmt"@, f.name())],
            None => seq![],
        }
    }
}

impl GetUserInfoRequest {
    pub open spec fn query_pairs(&self) -> QueryPairs {
        seq![
            ("access_token"@, self.access_token@),
            ("oauth_consumer_key"@, self.oauth_consumer_key@),
            ("openid"@, self.openid@),
        ]
    }
}

impl AuthCallback {
    /// The callback that the pairs of a redirect's query string describe.
    pub fn from_pairs(pairs: &Vec<(String, String)>) -> (r: Result<AuthCallback, AuthError>)
        ensures
            match (
                query_value(pairs_view(pairs@), "code"@),
                query_value(pairs_view(pairs@), "state"@),
            ) {
                (Some(code), Some(state)) => r matches Ok(cb) && cb.code@ == code && cb.state@
                    == state,
                _ => r matches Err(AuthError::DecodingError(_)),
            },
    {
        let code = required(pairs, "code")?;
        let state = required(pairs, "state")?;
        Ok(AuthCallback { code, state })
    }

    /// The callback that a redirect's raw query string describes.
    pub fn from_query(query: &str) -> (r: Result<AuthCallback, AuthError>)
        ensures
            forall|p: QueryPairs|
                #[trigger] form_query(p) == query@ ==> match (
                    query_value(p, "code"@),
                    query_value(p, "state"@),
                ) {
                    (Some(code), Some(state)) => r matches Ok(cb) && cb.code@ == code
                        && cb.state@ == state,
                    _ => r matches Err(AuthError::DecodingError(_)),
                },
            r is Err ==> r matches Err(AuthError::DecodingError(_)),
    {
        let pairs = decode_query(query)?;
        Self::from_pairs(&pairs)
    }
}

/// Reading the pairs of an authorize request's query back gives each of its
/// fields: a text field as it is, an absent optional field as no value at all,
/// and the scope as its items joined by the provider's separator.
pub proof fn lemma_auth_request_reads_back(req: AuthRequest)
    ensures
        query_value(req.query_pairs(), "client_id"@) == Some(req.client_id@),
        query_value(req.query_pairs(), "redirect_uri"@) == Some(req.redirect_uri@),
        query_value(req.query_pairs(), "state"@) == Some(req.state@),
        query_value(req.query_pairs(), "scope"@) == match req.scope {
            Some(items) => Some(join(strings_view(items@), ","@)),
            None => None::<Seq<char>>,
        },
        query_value(req.query_pairs(), "display"@) == match req.display {
            Some(x) => Some(x.name()),
            None => None::<Seq<char>>,
        },
{
    reveal_strlit("client_id");
    reveal_strlit("redirect_uri");
    reveal_strlit("state");
    reveal_strlit("scope");
    reveal_strlit("display");
    assert("client_id"@.len() == 9);
    assert("redirect_uri"@.len() == 12);
    assert("state"@.len() == 5);
    assert("scope"@.len() == 5);
    assert("display"@.len() == 7);
    assert("state"@[1] != "scope"@[1]);
    let a = seq![("client_id"@, req.client_id@), ("redirect_uri"@, req.redirect_uri@)];
    let b = seq![("state"@, req.state@)];
    let s = match req.scope {
        Some(items) => seq![("scope"@, join(strings_view(items@), ","@))],
        None => seq![],
    };
    let d = match req.display {
        Some(x) => seq![("display"@, x.name())],
        None => seq![],
    };
    assert(req.query_pairs() =~= a + b + s + d);
    lemma_short_pairs_value(a);
    lemma_short_pairs_value(b);
    lemma_short_pairs_value(s);
    lemma_short_pairs_value(d);
    lemma_query_value_concat(a, b);
    lemma_query_value_concat(a + b, s);
    lemma_query_value_concat(a + b + s, d);
}

impl AuthorizationServer {
    pub fn new(config: AuthConfig) -> (r: Self)
        ensures
            r.config == config,
    {
        AuthorizationServer { config }
    }

    pub open spec fn default_scope() -> Seq<Seq<char>> {
        seq!["get_user_info"@]
    }

    /// The pairs of the authorize URL for `config` and `state`.
    pub open spec fn authorize_pairs(config: AuthConfig, state: Seq<char>) -> QueryPairs {
        seq![
            ("response_type"@, "token"@),
            ("client_id"@, config.client_id@),
            ("redirect_uri"@, config.redirect_uri@),
            ("state"@, state),
            ("scope"@, join(config.scope_or(Self::default_scope()), ","@)),
        ]
    }

    /// The pairs of the token URL for `config`, its secret and an authorization code.
    pub open spec fn token_pairs(config: AuthConfig, secret: Seq<char>, code: Seq<char>) -> QueryPairs {
        seq![
            ("grant_type"@, "authorization_code"@),
            ("client_id"@, config.client_id@),
            ("client_secret"@, secret),
            ("code"@, code),
            ("redirect_uri"@, config.redirect_uri@),
            ("fmt"@, "json"@),
        ]
    }

    /// The request to the "me" endpoint that names the token owner's open id.
    pub fn open_id_request(&self, token: &TokenResponse) -> (r: HttpGet)
        ensures
            r.url@ == OPEN_ID_ENDPOINT@ + token.access_token@,
            r.bearer is None,
            !r.accept_json,
    {
        let mut url = OPEN_ID_ENDPOINT.to_string();
        url.append(token.access_token.as_str());
        HttpGet { url, bearer: None, accept_json: false }
    }

    /// The JSON text inside the JSONP answer of the "me" endpoint: what stands
    /// between `callback(` and the first `);` after it.
    pub fn open_id_json(body: &str) -> (r: Result<String, AuthError>)
        ensures
            match between(body@, JSONP_START@, JSONP_END@) {
                Some(t) => r matches Ok(s) && s@ == t,
                None => r matches Err(AuthError::DecodingError(_)),
            },
    {
        match substr_between(body, JSONP_START, JSONP_END) {
            Some(json) => Ok(json),
            None => Err(AuthError::DecodingError("open id answer is not JSONP".to_string())),
        }
    }

    /// The profile request for the token's owner, once the open id is known.
    pub fn user_info_request(&self, token: &TokenResponse, open_id: &OpenIdResp) -> (r: Result<
        HttpGet,
        AuthError,
    >)
        ensures
            r matches Ok(g) && g.url@ == USER_ENDPOINT@ + seq!['?'] + form_query(
                seq![
                    ("access_token"@, token.access_token@),
                    ("oauth_consumer_key"@, self.config.client_id@),
                    ("openid"@, open_id.openid@),
                ],
            ) && g.bearer is None && !g.accept_json,
    {
        let url = Self::user_info_url(
            GetUserInfoRequest {
                access_token: token.access_token.clone(),
                oauth_consumer_key: self.config.client_id.clone(),
                openid: open_id.openid.clone(),
            },
        )?;
        Ok(HttpGet { url, bearer: None, accept_json: false })
    }

    /// The canonical identity: the open id as user id, the nickname as name.
    pub fn normalize(token: TokenResponse, open_id: OpenIdResp, user: UserInfoResponse) -> (r:
        AuthUser)
        ensures
            r.user_id == open_id.openid,
            r.name == user.nickname,
            r.access_token == token.access_token,
            r.refresh_token == token.refresh_token,
            r.expires_in == token.expires_in as i64,
            r.extra == user.extra,
    {
        AuthUser {
            user_id: open_id.openid,
            name: user.nickname,
            access_token: token.access_token,
            refresh_token: token.refresh_token,
            expires_in: token.expires_in as i64,
            extra: user.extra,
        }
    }
}

impl AuthUrlProvider for AuthorizationServer {
    type AuthRequest = AuthRequest;
    type TokenRequest = GetTokenRequest;
    type UserInfoRequest = GetUserInfoRequest;

    fn authorize_url(request: AuthRequest) -> (r: Result<String, AuthError>)
        ensures
            r matches Ok(u) && u@ == AUTHORIZE_ENDPOINT@ + seq!['?'] + form_query(
                seq![("response_type"@, "token"@)] + request.query_pairs(),
            ),
    {
        let mut pairs: Vec<(String, String)> = Vec::new();
        push_pair(&mut pairs, "response_type", "token".to_string());
        request.push_query_pairs(&mut pairs);
        assert(pairs_view(pairs@) =~= seq![("response_type"@, "token"@)] + request.query_pairs());
        endpoint_url(AUTHORIZE_ENDPOINT, &pairs)
    }

    fn access_token_url(request: GetTokenRequest) -> (r: Result<String, AuthError>)
        ensures
            r matches Ok(u) && u@ == TOKEN_ENDPOINT@ + seq!['?'] + form_query(
                seq![("grant_type"@, "authorization_code"@)] + request.query_pairs(),
            ),
    {
        let mut pairs: Vec<(String, String)> = Vec::new();
        push_pair(&mut pairs, "grant_type", "authorization_code".to_string());
        push_pair(&mut pairs, "client_id", request.client_id);
        push_pair(&mut pairs, "client_secret", request.client_secret);
        push_pair(&mut pairs, "code", request.code);
        push_pair(&mut pairs, "redirect_uri", request.redirect_uri);
        if let Some(f) = &request.fmt {
            push_pair(&mut pairs, "fmt", f.as_str().to_string());
        }
        assert(pairs_view(pairs@) =~= seq![("grant_type"@, "authorization_code"@)]
            + request.query_pairs());
        endpoint_url(TOKEN_ENDPOINT, &pairs)
    }

    fn user_info_url(request: GetUserInfoRequest) -> (r: Result<String, AuthError>)
        ensures
            r matches Ok(u) && u@ == USER_ENDPOINT@ + seq!['?'] + form_query(
                request.query_pairs(),
            ),
    {
        let mut pairs: Vec<(String, String)> = Vec::new();
        push_pair(&mut pairs, "access_token", request.access_token);
        push_pair(&mut pairs, "oauth_consumer_key", request.oauth_consumer_key);
        push_pair(&mut pairs, "openid", request.openid);
        assert(pairs_view(pairs@) =~= request.query_pairs());
        endpoint_url(USER_ENDPOINT, &pairs)
    }
}

impl AuthAction for AuthorizationServer {
    type AuthCallback = AuthCallback;

    fn authorize(&self, state: String) -> (r: Result<String, AuthError>)
        ensures
            r matches Ok(u) && u@ == AUTHORIZE_ENDPOINT@ + seq!['?'] + form_query(
                Self::authorize_pairs(self.config, state@),
            ),
    {
        let default = vec!["get_user_info".to_string()];
        assert(strings_view(default@) =~= Self::default_scope());
        let request = AuthRequest {
            client_id: self.config.client_id.clone(),
            redirect_uri: self.config.redirect_uri.clone(),
            state,
            scope: Some(configured_scope(&self.config, default)),
            display: None,
        };
        assert(seq![("response_type"@, "token"@)] + request.query_pairs()
            =~= Self::authorize_pairs(self.config, state@));
        Self::authorize_url(request)
    }

    fn access_token_request(&self, callback: &AuthCallback) -> (r: Result<HttpGet, AuthError>)
        ensures
            match self.config.client_secret {
                None => r == Err::<HttpGet, AuthError>(AuthError::ConfigurationError),
                Some(secret) => r matches Ok(g) && g.url@ == TOKEN_ENDPOINT@ + seq!['?']
                    + form_query(Self::token_pairs(self.config, secret@, callback.code@))
                    && g.bearer is None && !g.accept_json,
            },
    {
        let secret = required_secret(&self.config)?;
        let request = GetTokenRequest {
            client_id: self.config.client_id.clone(),
            client_secret: secret,
            code: callback.code.clone(),
            redirect_uri: self.config.redirect_uri.clone(),
            fmt: Some(ResponseFormat::Json),
        };
        let ghost req_pairs = request.query_pairs();
        let url = Self::access_token_url(request)?;
        assert(seq![("grant_type"@, "authorization_code"@)] + req_pairs =~= Self::token_pairs(
            self.config,
            secret@,
            callback.code@,
        ));
        Ok(HttpGet { url, bearer: None, accept_json: false })
    }
}

} // verus!
