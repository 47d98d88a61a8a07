//! Twitter/X: scope items joined by spaces, a PKCE verifier sent along with
//! the token exchange, and the profile fetched with a bearer token.
use crate::error::AuthError;
use crate::query::{
    decode_query, endpoint_url, form_query, join, join_with, lemma_query_value_concat,
    lemma_short_pairs_value, opt_pair, opt_text, pairs_view, push_opt, push_pair, query_value,
    required, strings_view, QueryPairs,
};
use crate::{configured_scope, AuthAction, AuthConfig, AuthUrlProvider, AuthUser, HttpGet};
use std::collections::HashMap;
use vstd::prelude::*;

verus! {

pub const AUTHORIZE_ENDPOINT: &'static str = "https://twitter.com/i/oauth2/authorize";

pub const TOKEN_ENDPOINT: &'static str = "https://api.x.com/2/oauth2/token";

pub const USER_ENDPOINT: &'static str = "https://api.x.com/2/users/me";

/// The PKCE code verifier; the authorize URL sends it as a plain challenge.
pub const CODE_VERIFIER: &'static str = "aaa";

pub struct AuthorizationServer {
    pub config: AuthConfig,
}

/// What the authorize URL carries.
pub struct AuthRequest {
    pub client_id: String,
    pub redirect_uri: String,
    pub scope: Vec<String>,
    pub state: String,
    pub code_challenge: Option<String>,
    pub code_challenge_method: Option<String>,
}

/// What the provider's redirect back to the client carries.
pub struct AuthCallback {
    pub code: String,
    pub state: String,
}

/// What the token URL carries.
pub struct GetTokenRequest {
    pub client_id: String,
    pub code: String,
    pub redirect_uri: String,
    pub code_verifier: String,
}

/// The token answer.
pub struct TokenResponse {
    pub access_token: String,
    pub scope: String,
    pub token_type: String,
}

/// What the profile URL carries: which expansions and fields to include.
pub struct GetUserInfoRequest {
    pub expansions: Option<String>,
    pub tweet_fields: Vec<String>,
    pub user_fields: Vec<String>,
}

/// The profile answer.
pub struct UserInfoResponse {
    pub id: String,
    pub name: String,
    pub extra: HashMap<String, serde_json::Value>,
}

impl AuthRequest {
    pub open spec fn query_pairs(&self) -> QueryPairs {
        seq![
            ("client_id"@, self.client_id@),
            ("redirect_uri"@, self.redirect_uri@),
            ("scope"@, join(strings_view(self.scope@), " "@)),
            ("state"@, self.state@),
        ] + opt_pair("code_challenge"@, self.code_challenge) + opt_pair(
            "code_challenge_method"@,
            self.code_challenge_method,
        )
    }

    /// Appends the pairs of this request to `pairs`.
    pub fn push_query_pairs(&self, pairs: &mut Vec<(String, String)>)
        ensures
            pairs_view(final(pairs)@) == pairs_view(old(pairs)@) + self.query_pairs(),
    {
        push_pair(pairs, "client_id", self.client_id.clone());
        push_pair(pairs, "redirect_uri", self.redirect_uri.clone());
        push_pair(pairs, "scope", join_with(&self.scope, " "));
        push_pair(pairs, "state", self.state.clone());
        push_opt(pairs, "code_challenge", &self.code_challenge);
        push_opt(pairs, "code_challenge_method", &self.code_challenge_method);
        assert(pairs_view(pairs@) =~= pairs_view(old(pairs)@) + self.query_pairs());
    }
}

impl GetTokenRequest {
    pub open spec fn query_pairs(&self) -> QueryPairs {
        seq![
            ("client_id"@, self.client_id@),
            ("code"@, self.code@),
            ("redirect_uri"@, self.redirect_uri@),
            ("code_verifier"@, self.code_verifier@),
        ]
    }
}

impl GetUserInfoRequest {
    pub open spec fn query_pairs(&self) -> QueryPairs {
        opt_pair("expansions"@, self.expansions) + seq![
            ("tweet.fields"@, join(strings_view(self.tweet_fields@), ","@)),
            ("user.fields"@, join(strings_view(self.user_fields@), ","@)),
        ]
    }
}

impl AuthCallback {
    /// The callback that the pairs of a redirect's query string describe.
    pub fn from_pairs(pairs: &Vec<(String, String)>) -> (r: Result<AuthCallback, AuthError>)
        ensures
            match (
                query_value(pairs_view(pairs@), "code"@),
                query_value(pairs_view(pairs@), "state"@),
            ) {
                (Some(code), Some(state)) => r matches Ok(cb) && cb.code@ == code && cb.state@
                    == state,
                _ => r matches Err(AuthError::DecodingError(_)),
            },
    {
        let code = required(pairs, "code")?;
        let state = required(pairs, "state")?;
        Ok(AuthCallback { code, state })
    }

    /// The callback that a redirect's raw query string describes.
    pub fn from_query(query: &str) -> (r: Result<AuthCallback, AuthError>)
        ensures
            forall|p: QueryPairs|
                #[trigger] form_query(p) == query@ ==> match (
                    query_value(p, "code"@),
                    query_value(p, "state"@),
                ) {
                    (Some(code), Some(state)) => r matches Ok(cb) && cb.code@ == code
                        && cb.state@ == state,
                    _ => r matches Err(AuthError::DecodingError(_)),
                },
            r is Err ==> r matches Err(AuthError::DecodingError(_)),
    {
        let pairs = decode_query(query)?;
        Self::from_pairs(&pairs)
    }
}

/// Reading the pairs of an authorize request's query back gives each of its
/// fields: a text field as it is, an absent optional field as no value at all,
/// and the scope as its items joined by the provider's separator.
pub proof fn lemma_auth_request_reads_back(req: AuthRequest)
    ensures
        query_value(req.query_pairs(), "client_id"@) == Some(req.client_id@),
        query_value(req.query_pairs(), "redirect_uri"@) == Some(req.redirect_uri@),
        query_value(req.query_pairs(), "scope"@) == Some(join(strings_view(req.scope@), " "@)),
        query_value(req.query_pairs(), "state"@) == Some(req.state@),
        query_value(req.query_pairs(), "code_challenge"@) == opt_text(req.code_challenge),
        query_value(req.query_pairs(), "code_challenge_method"@) == opt_text(req.code_challenge_method),
{
    reveal_strlit("client_id");
    reveal_strlit("redirect_uri");
    reveal_strlit("scope");
    reveal_strlit("state");
    reveal_strlit("code_challenge");
    reveal_strlit("code_challenge_method");
    assert("client_id"@.len() == 9);
    assert("redirect_uri"@.len() == 12);
    assert("scope"@.len() == 5);
    assert("state"@.len() == 5);
    assert("code_challenge"@.len() == 14);
    assert("code_challenge_method"@.len() == 21);
    assert("scope"@[1] != "state"@[1]);
    let a = seq![("client_id"@, req.client_id@), ("redirect_uri"@, req.redirect_uri@)];
    let b = seq![("scope"@, join(strings_view(req.scope@), " "@)), ("state"@, req.state@)];
    let c = opt_pair("code_challenge"@, req.code_challenge);
    let m = opt_pair("code_challenge_method"@, req.code_challenge_method);
    assert(req.query_pairs() =~= a + b + c + m);
    lemma_short_pairs_value(a);
    lemma_short_pairs_value(b);
    lemma_short_pairs_value(c);
    lemma_short_pairs_value(m);
    lemma_query_value_concat(a, b);
    lemma_query_value_concat(a + b, c);
    lemma_query_value_concat(a + b + c, m);
}

impl AuthorizationServer {
    pub fn new(config: AuthConfig) -> (r: Self)
        ensures
            r.config == config,
    {
        AuthorizationServer { config }
    }

    pub open spec fn default_scope() -> Seq<Seq<char>> {
        seq!["tweet.read"@, "users.read"@]
    }

    /// The profile fields asked for.
    pub open spec fn profile_fields() -> Seq<Seq<char>> {
        seq![
            "created_at"@,
            "description"@,
            "entities"@,
            "id"@,
            "location"@,
            "most_recent_tweet_id"@,
            "name"@,
            "pinned_tweet_id"@,
            "profile_image_url"@,
            "protected"@,
            "public_metrics"@,
            "url"@,
            "username"@,
            "verified"@,
            "verified_type"@,
            "withheld"@,
        ]
    }

    /// The pairs of the authorize URL for `config` and `state`.
    pub open spec fn authorize_pairs(config: AuthConfig, state: Seq<char>) -> QueryPairs {
        seq![
            ("response_type"@, "code"@),
            ("client_id"@, config.client_id@),
            ("redirect_uri"@, config.redirect_uri@),
            ("scope"@, join(config.scope_or(Self::default_scope()), " "@)),
            ("state"@, state),
            ("code_challenge"@, CODE_VERIFIER@),
            ("code_challenge_method"@, "plain"@),
        ]
    }

    /// The pairs of the token URL for `config` and an authorization code.
    pub open spec fn token_pairs(config: AuthConfig, code: Seq<char>) -> QueryPairs {
        seq![
            ("grant_type"@, "authorization_code"@),
            ("client_id"@, config.client_id@),
            ("code"@, code),
            ("redirect_uri"@, config.redirect_uri@),
            ("code_verifier"@, CODE_VERIFIER@),
        ]
    }

    /// The profile request for the token's owner, with the token as bearer.
    pub fn user_info_request(&self, token: &TokenResponse) -> (r: Result<HttpGet, AuthError>)
        ensures
            r matches Ok(g) && g.url@ == USER_ENDPOINT@ + seq!['?'] + form_query(
                seq![
                    ("tweet.fields"@, Seq::<char>::empty()),
                    ("user.fields"@, join(Self::profile_fields(), ","@)),
                ],
            ) && g.bearer == Some(token.access_token) && !g.accept_json,
    {
        let user_fields = vec![
            "created_at".to_string(),
            "description".to_string(),
            "entities".to_string(),
            "id".to_string(),
            "location".to_string(),
            "most_recent_tweet_id".to_string(),
            "name".to_string(),
            "pinned_tweet_id".to_string(),
            "profile_image_url".to_string(),
            "protected".to_string(),
            "public_metrics".to_string(),
            "url".to_string(),
            "username".to_string(),
            "verified".to_string(),
            "verified_type".to_string(),
            "withheld".to_string(),
        ];
        assert(strings_view(user_fields@) =~= Self::profile_fields());
        let request = GetUserInfoRequest { expansions: None, tweet_fields: Vec::new(), user_fields };
        assert(strings_view(request.tweet_fields@) =~= Seq::<Seq<char>>::empty());
        assert(request.query_pairs() =~= seq![
            ("tweet.fields"@, Seq::<char>::empty()),
            ("user.fields"@, join(Self::profile_fields(), ","@)),
        ]);
        let url = Self::user_info_url(request)?;
        Ok(HttpGet { url, bearer: Some(token.access_token.clone()), accept_json: false })
    }

    /// The canonical identity: no refresh token, no expiry.
    pub fn normalize(token: TokenResponse, user: UserInfoResponse) -> (r: AuthUser)
        ensures
            r.user_id == user.id,
            r.name == user.name,
            r.access_token == token.access_token,
            r.refresh_token@ == Seq::<char>::empty(),
            r.expires_in == i64::MAX,
            r.extra == user.extra,
    {
        AuthUser {
            user_id: user.id,
            name: user.name,
            access_token: token.access_token,
            refresh_token: String::new(),
            expires_in: i64::MAX,
            extra: user.extra,
        }
    }
}

impl AuthUrlProvider for AuthorizationServer {
    type AuthRequest = AuthRequest;
    type TokenRequest = GetTokenRequest;
    type UserInfoRequest = GetUserInfoRequest;

    fn authorize_url(request: AuthRequest) -> (r: Result<String, AuthError>)
        ensures
            r matches Ok(u) && u@ == AUTHORIZE_ENDPOINT@ + seq!['?'] + form_query(
                seq![("response_type"@, "code"@)] + request.query_pairs(),
            ),
    {
        let mut pairs: Vec<(String, String)> = Vec::new();
        push_pair(&mut pairs, "response_type", "code".to_string());
        request.push_query_pairs(&mut pairs);
        assert(pairs_view(pairs@) =~= seq![("response_type"@, "code"@)] + request.query_pairs());
        endpoint_url(AUTHORIZE_ENDPOINT, &pairs)
    }

    fn access_token_url(request: GetTokenRequest) -> (r: Result<String, AuthError>)
        ensures
            r matches Ok(u) && u@ == TOKEN_ENDPOINT@ + seq!['?'] + form_query(
                seq![("grant_type"@, "authorization_code"@)] + request.query_pairs(),
            ),
    {
        let mut pairs: Vec<(String, String)> = Vec::new();
        push_pair(&mut pairs, "grant_type", "authorization_code".to_string());
        push_pair(&mut pairs, "client_id", request.client_id);
        push_pair(&mut pairs, "code", request.code);
        push_pair(&mut pairs, "redirect_uri", request.redirect_uri);
        push_pair(&mut pairs, "code_verifier", request.code_verifier);
        assert(pairs_view(pairs@) =~= seq![("grant_type"@, "authorization_code"@)]
            + request.query_pairs());
        endpoint_url(TOKEN_ENDPOINT, &pairs)
    }

    fn user_info_url(request: GetUserInfoRequest) -> (r: Result<String, AuthError>)
        ensures
            r matches Ok(u) && u@ == USER_ENDPOINT@ + seq!['?'] + form_query(
                request.query_pairs(),
            ),
    {
        let mut pairs: Vec<(String, String)> = Vec::new();
        push_opt(&mut pairs, "expansions", &request.expansions);
        push_pair(&mut pairs, "tweet.fields", join_with(&request.tweet_fields, ","));
        push_pair(&mut pairs, "user.fields", join_with(&request.user_fields, ","));
        assert(pairs_view(pairs@) =~= request.query_pairs());
        endpoint_url(USER_ENDPOINT, &pairs)
    }
}

impl AuthAction for AuthorizationServer {
    type AuthCallback = AuthCallback;

    fn authorize(&self, state: String) -> (r: Result<String, AuthError>)
        ensures
            r matches Ok(u) && u@ == AUTHORIZE_ENDPOINT@ + seq!['?'] + form_query(
                Self::authorize_pairs(self.config, state@),
            ),
    {
        let default = vec!["tweet.read".to_string(), "users.read".to_string()];
        assert(strings_view(default@) =~= Self::default_scope());
        let request = AuthRequest {
            client_id: self.config.client_id.clone(),
            redirect_uri: self.config.redirect_uri.clone(),
            scope: configured_scope(&self.config, default),
            state,
            code_challenge: Some(CODE_VERIFIER.to_string()),
            code_challenge_method: Some("plain".to_string()),
        };
        assert(seq![("response_type"@, "code"@)] + request.query_pairs()
            =~= Self::authorize_pairs(self.config, state@));
        Self::authorize_url(request)
    }

    /// Needs no client secret: the PKCE verifier stands in for it.
    fn access_token_request(&self, callback: &AuthCallback) -> (r: Result<HttpGet, AuthError>)
        ensures
            r matches Ok(g) && g.url@ == TOKEN_ENDPOINT@ + seq!['?'] + form_query(
                Self::token_pairs(self.config, callback.code@),
            ) && g.bearer is None && !g.accept_json,
    {
        let request = GetTokenRequest {
            client_id: self.config.client_id.clone(),
            code: callback.code.clone(),
            redirect_uri: self.config.redirect_uri.clone(),
            code_verifier: CODE_VERIFIER.to_string(),
        };
        let ghost req_pairs = request.query_pairs();
        let url = Self::access_token_url(request)?;
        assert(seq![("grant_type"@, "authorization_code"@)] + req_pairs =~= Self::token_pairs(
            self.config,
            callback.code@,
        ));
        Ok(HttpGet { url, bearer: None, accept_json: false })
    }
}

} // verus!
