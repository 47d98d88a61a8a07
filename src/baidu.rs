//! Baidu: scope items joined by spaces, with no default scope; the profile URL
//! carries the token and asks for the union id.
use crate::error::AuthError;
use crate::query::{
    decimal_text, endpoint_url, form_query, join, join_with, lemma_query_value_concat,
    lemma_short_pairs_value, opt_decimal, opt_pair, opt_text, pairs_view, push_opt,
    push_opt_decimal, push_pair, query_value, strings_view, QueryPairs,
};
use crate::{
    configured_scope, required_secret, AuthAction, AuthConfig, AuthUrlProvider, AuthUser, HttpGet,
};
use std::collections::HashMap;
use vstd::prelude::*;

verus! {

pub const AUTHORIZE_ENDPOINT: &'static str = "https://openapi.baidu.com/oauth/2.0/authorize";

pub const TOKEN_ENDPOINT: &'static str = "https://openapi.baidu.com/oauth/2.0/token";

pub const USER_ENDPOINT: &'static str = "https://openapi.baidu.com/rest/2.0/passport/users/getInfo";

pub struct AuthorizationServer {
    pub config: AuthConfig,
}

/// What the authorize URL carries.
pub struct AuthRequest {
    pub client_id: String,
    pub redirect_uri: String,
    pub scope: Vec<String>,
    pub state: Option<String>,
    pub display: Option<DisplayStyle>,
    pub force_login: Option<i8>,
    pub confirm_login: Option<i8>,
    pub login_type: Option<String>,
    pub qrext_clientid: Option<String>,
    pub bgurl: Option<String>,
    /// Written as `qrcodeW`.
    pub qrcode_width: Option<u32>,
    /// Written as `qrcodeH`.
    pub qrcode_height: Option<u32>,
    pub qrcode: Option<i8>,
    pub qrloginfrom: Option<String>,
    /// Written as `userReg`.
    pub user_reg: Option<i8>,
    /// Written as `appTip`.
    pub app_tip: Option<String>,
    /// Written as `appName`.
    pub app_name: Option<String>,
}

/// How the authorization page is shown.
pub enum DisplayStyle {
    Page,
    Popup,
    Dialog,
    Mobile,
    Pad,
    Tv,
}

/// What the provider's redirect back to the client carries.
pub struct AuthCallback {
    pub code: String,
    pub state: String,
}

/// What the token URL carries.
pub struct GetTokenRequest {
    pub client_id: String,
    pub client_secret: String,
    pub code: String,
    pub redirect_uri: String,
}

/// The token answer.
pub struct TokenResponse {
    pub access_token: String,
    pub expires_in: i64,
    pub refresh_token: String,
    pub scope: String,
    pub session_key: String,
    pub session_secret: String,
}

/// What a token refresh carries.
pub struct RefreshTokenRequest {
    pub grant_type: String,
    pub client_id: String,
    pub client_secret: String,
    pub refresh_token: String,
}

/// What the profile URL carries.
pub struct GetUserInfoRequest {
    pub access_token: String,
    pub get_unionid: Option<i8>,
}

/// The profile answer.
pub struct UserInfoResponse {
    pub openid: String,
    pub username: Option<String>,
    pub extra: HashMap<String, serde_json::Value>,
}

pub open spec fn widen_i8(v: Option<i8>) -> Option<i64> {
    match v {
        Some(n) => Some(n as i64),
        None => None,
    }
}

pub open spec fn widen_u32(v: Option<u32>) -> Option<i64> {
    match v {
        Some(n) => Some(n as i64),
        None => None,
    }
}

fn from_i8(v: Option<i8>) -> (r: Option<i64>)
    ensures
        r == widen_i8(v),
{
    match v {
        Some(n) => Some(n as i64),
        None => None,
    }
}

fn from_u32(v: Option<u32>) -> (r: Option<i64>)
    ensures
        r == widen_u32(v),
{
    match v {
        Some(n) => Some(n as i64),
        None => None,
    }
}

impl DisplayStyle {
    pub open spec fn name(&self) -> Seq<char> {
        match self {
            DisplayStyle::Page => "page"@,
            DisplayStyle::Popup => "popup"@,
            DisplayStyle::Dialog => "dialog"@,
            DisplayStyle::Mobile => "mobile"@,
            DisplayStyle::Pad => "pad"@,
            DisplayStyle::Tv => "tv"@,
        }
    }

    pub fn as_str(&self) -> (r: &'static str)
        ensures
            r@ == self.name(),
    {
        match self {
            DisplayStyle::Page => "page",
            DisplayStyle::Popup => "popup",
            DisplayStyle::Dialog => "dialog",
            DisplayStyle::Mobile => "mobile",
            DisplayStyle::Pad => "pad",
            DisplayStyle::Tv => "tv",
        }
    }
}

impl AuthRequest {
    pub open spec fn query_pairs(&self) -> QueryPairs {
        self.login_pairs() + self.qrcode_pairs() + self.page_pairs()
    }

    /// The client, the scope and how the login page behaves.
    pub open spec fn login_pairs(&self) -> QueryPairs {
        seq![
            ("client_id"@, self.client_id@),
            ("redirect_uri"@, self.redirect_uri@),
            ("scope"@, join(strings_view(self.scope@), " "@)),
        ] + opt_pair("state"@, self.state) + match self.display {
            Some(d) => seq![("display"@, d.name())],
            None => seq![],
        } + opt_decimal("force_login"@, widen_i8(self.force_login)) + opt_decimal(
            "confirm_login"@,
            widen_i8(self.confirm_login),
        ) + opt_pair("login_type"@, self.login_type)
    }

    /// The QR code login settings.
    pub open spec fn qrcode_pairs(&self) -> QueryPairs {
        opt_pair("qrext_clientid"@, self.qrext_clientid) + opt_pair("bgurl"@, self.bgurl)
            + opt_decimal("qrcodeW"@, widen_u32(self.qrcode_width)) + opt_decimal(
            "qrcodeH"@,
            widen_u32(self.qrcode_height),
        ) + opt_decimal("qrcode"@, widen_i8(self.qrcode)) + opt_pair(
            "qrloginfrom"@,
            self.qrloginfrom,
        )
    }

    /// Registration and the application shown on the page.
    pub open spec fn page_pairs(&self) -> QueryPairs {
        opt_decimal("userReg"@, widen_i8(self.user_reg)) + opt_pair("appTip"@, self.app_tip)
            + opt_pair("appName"@, self.app_name)
    }

    fn push_login_pairs(&self, pairs: &mut Vec<(String, String)>)
        ensures
            pairs_view(final(pairs)@) == pairs_view(old(pairs)@) + self.login_pairs(),
    {
        push_pair(pairs, "client_id", self.client_id.clone());
        push_pair(pairs, "redirect_uri", self.redirect_uri.clone());
        push_pair(pairs, "scope", join_with(&self.scope, " "));
        push_opt(pairs, "state", &self.state);
        if let Some(d) = &self.display {
            push_pair(pairs, "display", d.as_str().to_string());
        }
        push_opt_decimal(pairs, "force_login", from_i8(self.force_login));
        push_opt_decimal(pairs, "confirm_login", from_i8(self.confirm_login));
        push_opt(pairs, "login_type", &self.login_type);
        assert(pairs_view(pairs@) =~= pairs_view(old(pairs)@) + self.login_pairs());
    }

    fn push_qrcode_pairs(&self, pairs: &mut Vec<(String, String)>)
        ensures
            pairs_view(final(pairs)@) == pairs_view(old(pairs)@) + self.qrcode_pairs(),
    {
        push_opt(pairs, "qrext_clientid", &self.qrext_clientid);
        push_opt(pairs, "bgurl", &self.bgurl);
        push_opt_decimal(pairs, "qrcodeW", from_u32(self.qrcode_width));
        push_opt_decimal(pairs, "qrcodeH", from_u32(self.qrcode_height));
        push_opt_decimal(pairs, "qrcode", from_i8(self.qrcode));
        push_opt(pairs, "qrloginfrom", &self.qrloginfrom);
        assert(pairs_view(pairs@) =~= pairs_view(old(pairs)@) + self.qrcode_pairs());
    }

    fn push_page_pairs(&self, pairs: &mut Vec<(String, String)>)
        ensures
            pairs_view(final(pairs)@) == pairs_view(old(pairs)@) + self.page_pairs(),
    {
        push_opt_decimal(pairs, "userReg", from_i8(self.user_reg));
        push_opt(pairs, "appTip", &self.app_tip);
        push_opt(pairs, "appName", &self.app_name);
        assert(pairs_view(pairs@) =~= pairs_view(old(pairs)@) + self.page_pairs());
    }

    /// Appends the pairs of this request to `pairs`.
    pub fn push_query_pairs(&self, pairs: &mut Vec<(String, String)>)
        ensures
            pairs_view(final(pairs)@) == pairs_view(old(pairs)@) + self.query_pairs(),
    {
        self.push_login_pairs(pairs);
        self.push_qrcode_pairs(pairs);
        self.push_page_pairs(pairs);
        assert(pairs_view(pairs@) =~= pairs_view(old(pairs)@) + self.query_pairs());
    }
}

/// The client, scope and login-page pairs read back as their fields.
proof fn lemma_login_pairs_read_back(req: AuthRequest)
    ensures
        query_value(req.login_pairs(), "client_id"@) == Some(req.client_id@),
        query_value(req.login_pairs(), "redirect_uri"@) == Some(req.redirect_uri@),
        query_value(req.login_pairs(), "scope"@) == Some(join(strings_view(req.scope@), " "@)),
        query_value(req.login_pairs(), "state"@) == opt_text(req.state),
        query_value(req.login_pairs(), "display"@) == match req.display {
            Some(x) => Some(x.name()),
            None => None::<Seq<char>>,
        },
        query_value(req.login_pairs(), "force_login"@) == decimal_text(widen_i8(req.force_login)),
        query_value(req.login_pairs(), "confirm_login"@) == decimal_text(widen_i8(req.confirm_login)),
        query_value(req.login_pairs(), "login_type"@) == opt_text(req.login_type),
        forall|key: Seq<char>|
            (#[trigger] query_value(req.login_pairs(), key)) is Some ==> {
                key == "client_id"@
                || key == "redirect_uri"@
                || key == "scope"@
                || key == "state"@
                || key == "display"@
                || key == "force_login"@
                || key == "confirm_login"@
                || key == "login_type"@
            },
{
    reveal_strlit("client_id");
    reveal_strlit("redirect_uri");
    reveal_strlit("scope");
    reveal_strlit("state");
    reveal_strlit("display");
    reveal_strlit("force_login");
    reveal_strlit("confirm_login");
    reveal_strlit("login_type");
    assert("client_id"@.len() == 9);
    assert("redirect_uri"@.len() == 12);
    assert("scope"@.len() == 5);
    assert("state"@.len() == 5);
    assert("display"@.len() == 7);
    assert("force_login"@.len() == 11);
    assert("confirm_login"@.len() == 13);
    assert("login_type"@.len() == 10);
    assert("scope"@[1] != "state"@[1]);
    let a = seq![("client_id"@, req.client_id@), ("redirect_uri"@, req.redirect_uri@)];
    let b = seq![("scope"@, join(strings_view(req.scope@), " "@))];
    let s = opt_pair("state"@, req.state);
    let d = match req.display {
        Some(x) => seq![("display"@, x.name())],
        None => seq![],
    };
    let fl = opt_decimal("force_login"@, widen_i8(req.force_login));
    let cl = opt_decimal("confirm_login"@, widen_i8(req.confirm_login));
    let lt = opt_pair("login_type"@, req.login_type);
    assert(req.login_pairs() =~= a + b + s + d + fl + cl + lt);
    lemma_short_pairs_value(a);
    lemma_short_pairs_value(b);
    lemma_short_pairs_value(s);
    lemma_short_pairs_value(d);
    lemma_short_pairs_value(fl);
    lemma_short_pairs_value(cl);
    lemma_short_pairs_value(lt);
    lemma_query_value_concat(a, b);
    lemma_query_value_concat(a + b, s);
    lemma_query_value_concat(a + b + s, d);
    lemma_query_value_concat(a + b + s + d, fl);
    lemma_query_value_concat(a + b + s + d + fl, cl);
    lemma_query_value_concat(a + b + s + d + fl + cl, lt);
}

/// The QR code pairs read back as their fields.
proof fn lemma_qrcode_pairs_read_back(req: AuthRequest)
    ensures
        query_value(req.qrcode_pairs(), "qrext_clientid"@) == opt_text(req.qrext_clientid),
        query_value(req.qrcode_pairs(), "bgurl"@) == opt_text(req.bgurl),
        query_value(req.qrcode_pairs(), "qrcodeW"@) == decimal_text(widen_u32(req.qrcode_width)),
        query_value(req.qrcode_pairs(), "qrcodeH"@) == decimal_text(widen_u32(req.qrcode_height)),
        query_value(req.qrcode_pairs(), "qrcode"@) == decimal_text(widen_i8(req.qrcode)),
        query_value(req.qrcode_pairs(), "qrloginfrom"@) == opt_text(req.qrloginfrom),
        forall|key: Seq<char>|
            (#[trigger] query_value(req.qrcode_pairs(), key)) is Some ==> {
                key == "qrext_clientid"@
                || key == "bgurl"@
                || key == "qrcodeW"@
                || key == "qrcodeH"@
                || key == "qrcode"@
                || key == "qrloginfrom"@
            },
{
    reveal_strlit("qrext_clientid");
    reveal_strlit("bgurl");
    reveal_strlit("qrcodeW");
    reveal_strlit("qrcodeH");
    reveal_strlit("qrcode");
    reveal_strlit("qrloginfrom");
    assert("qrext_clientid"@.len() == 14);
    assert("bgurl"@.len() == 5);
    assert("qrcodeW"@.len() == 7);
    assert("qrcodeH"@.len() == 7);
    assert("qrcode"@.len() == 6);
    assert("qrloginfrom"@.len() == 11);
    assert("qrcodeW"@[6] != "qrcodeH"@[6]);
    let qe = opt_pair("qrext_clientid"@, req.qrext_clientid);
    let bg = opt_pair("bgurl"@, req.bgurl);
    let qw = opt_decimal("qrcodeW"@, widen_u32(req.qrcode_width));
    let qh = opt_decimal("qrcodeH"@, widen_u32(req.qrcode_height));
    let qc = opt_decimal("qrcode"@, widen_i8(req.qrcode));
    let qf = opt_pair("qrloginfrom"@, req.qrloginfrom);
    assert(req.qrcode_pairs() =~= qe + bg + qw + qh + qc + qf);
    lemma_short_pairs_value(qe);
    lemma_short_pairs_value(bg);
    lemma_short_pairs_value(qw);
    lemma_short_pairs_value(qh);
    lemma_short_pairs_value(qc);
    lemma_short_pairs_value(qf);
    lemma_query_value_concat(qe, bg);
    lemma_query_value_concat(qe + bg, qw);
    lemma_query_value_concat(qe + bg + qw, qh);
    lemma_query_value_concat(qe + bg + qw + qh, qc);
    lemma_query_value_concat(qe + bg + qw + qh + qc, qf);
}

/// The registration and application pairs read back as their fields.
proof fn lemma_page_pairs_read_back(req: AuthRequest)
    ensures
        query_value(req.page_pairs(), "userReg"@) == decimal_text(widen_i8(req.user_reg)),
        query_value(req.page_pairs(), "appTip"@) == opt_text(req.app_tip),
        query_value(req.page_pairs(), "appName"@) == opt_text(req.app_name),
        forall|key: Seq<char>|
            (#[trigger] query_value(req.page_pairs(), key)) is Some ==> {
                key == "userReg"@
                || key == "appTip"@
                || key == "appName"@
            },
{
    reveal_strlit("userReg");
    reveal_strlit("appTip");
    reveal_strlit("appName");
    assert("userReg"@.len() == 7);
    assert("appTip"@.len() == 6);
    assert("appName"@.len() == 7);
    assert("userReg"@[0] != "appName"@[0]);
    let ur = opt_decimal("userReg"@, widen_i8(req.user_reg));
    let at = opt_pair("appTip"@, req.app_tip);
    let an = opt_pair("appName"@, req.app_name);
    assert(req.page_pairs() =~= ur + at + an);
    lemma_short_pairs_value(ur);
    lemma_short_pairs_value(at);
    lemma_short_pairs_value(an);
    lemma_query_value_concat(ur, at);
    lemma_query_value_concat(ur + at, an);
}

/// Reading the pairs of an authorize request's query back gives each of its
/// fields under its wire name: a text field as it is, a number in decimal, an
/// absent optional field as no value at all, and the scope as its items joined
/// by spaces.
pub proof fn lemma_auth_request_reads_back(req: AuthRequest)
    ensures
        query_value(req.query_pairs(), "client_id"@) == Some(req.client_id@),
        query_value(req.query_pairs(), "redirect_uri"@) == Some(req.redirect_uri@),
        query_value(req.query_pairs(), "scope"@) == Some(join(strings_view(req.scope@), " "@)),
        query_value(req.query_pairs(), "state"@) == opt_text(req.state),
        query_value(req.query_pairs(), "display"@) == match req.display {
            Some(x) => Some(x.name()),
            None => None::<Seq<char>>,
        },
        query_value(req.query_pairs(), "force_login"@) == decimal_text(widen_i8(req.force_login)),
        query_value(req.query_pairs(), "confirm_login"@) == decimal_text(widen_i8(req.confirm_login)),
        query_value(req.query_pairs(), "login_type"@) == opt_text(req.login_type),
        query_value(req.query_pairs(), "qrext_clientid"@) == opt_text(req.qrext_clientid),
        query_value(req.query_pairs(), "bgurl"@) == opt_text(req.bgurl),
        query_value(req.query_pairs(), "qrcodeW"@) == decimal_text(widen_u32(req.qrcode_width)),
        query_value(req.query_pairs(), "qrcodeH"@) == decimal_text(widen_u32(req.qrcode_height)),
        query_value(req.query_pairs(), "qrcode"@) == decimal_text(widen_i8(req.qrcode)),
        query_value(req.query_pairs(), "qrloginfrom"@) == opt_text(req.qrloginfrom),
        query_value(req.query_pairs(), "userReg"@) == decimal_text(widen_i8(req.user_reg)),
        query_value(req.query_pairs(), "appTip"@) == opt_text(req.app_tip),
        query_value(req.query_pairs(), "appName"@) == opt_text(req.app_name),
{
    reveal_strlit("client_id");
    reveal_strlit("redirect_uri");
    reveal_strlit("scope");
    reveal_strlit("state");
    reveal_strlit("display");
    reveal_strlit("force_login");
    reveal_strlit("confirm_login");
    reveal_strlit("login_type");
    reveal_strlit("qrext_clientid");
    reveal_strlit("bgurl");
    reveal_strlit("qrcodeW");
    reveal_strlit("qrcodeH");
    reveal_strlit("qrcode");
    reveal_strlit("qrloginfrom");
    reveal_strlit("userReg");
    reveal_strlit("appTip");
    reveal_strlit("appName");
    assert("client_id"@.len() == 9);
    assert("redirect_uri"@.len() == 12);
    assert("scope"@.len() == 5);
    assert("state"@.len() == 5);
    assert("display"@.len() == 7);
    assert("force_login"@.len() == 11);
    assert("confirm_login"@.len() == 13);
    assert("login_type"@.len() == 10);
    assert("qrext_clientid"@.len() == 14);
    assert("bgurl"@.len() == 5);
    assert("qrcodeW"@.len() == 7);
    assert("qrcodeH"@.len() == 7);
    assert("qrcode"@.len() == 6);
    assert("qrloginfrom"@.len() == 11);
    assert("userReg"@.len() == 7);
    assert("appTip"@.len() == 6);
    assert("appName"@.len() == 7);
    assert("scope"@[0] != "bgurl"@[0]);
    assert("state"@[0] != "bgurl"@[0]);
    assert("display"@[0] != "qrcodeW"@[0]);
    assert("display"@[0] != "qrcodeH"@[0]);
    assert("force_login"@[0] != "qrloginfrom"@[0]);
    assert("display"@[0] != "userReg"@[0]);
    assert("display"@[0] != "appName"@[0]);
    assert("qrcodeW"@[0] != "userReg"@[0]);
    assert("qrcodeW"@[0] != "appName"@[0]);
    assert("qrcodeH"@[0] != "userReg"@[0]);
    assert("qrcodeH"@[0] != "appName"@[0]);
    assert("qrcode"@[0] != "appTip"@[0]);
    lemma_login_pairs_read_back(req);
    lemma_qrcode_pairs_read_back(req);
    lemma_page_pairs_read_back(req);
    lemma_query_value_concat(req.login_pairs(), req.qrcode_pairs());
    lemma_query_value_concat(req.login_pairs() + req.qrcode_pairs(), req.page_pairs());
}

impl GetTokenRequest {
    pub open spec fn query_pairs(&self) -> QueryPairs {
        seq![
            ("client_id"@, self.client_id@),
            ("client_secret"@, self.client_secret@),
            ("code"@, self.code@),
            ("redirect_uri"@, self.redirect_uri@),
        ]
    }
}

impl GetUserInfoRequest {
    pub open spec fn query_pairs(&self) -> QueryPairs {
        seq![("access_token"@, self.access_token@)] + opt_decimal(
            "get_unionid"@,
            widen_i8(self.get_unionid),
        )
    }
}

impl AuthorizationServer {
    pub fn new(config: AuthConfig) -> (r: Self)
        ensures
            r.config == config,
    {
        AuthorizationServer { config }
    }

    /// The pairs of the authorize URL for `config` and `state`.
    pub open spec fn authorize_pairs(config: AuthConfig, state: Seq<char>) -> QueryPairs {
        seq![
            ("response_type"@, "CODE"@),
            ("client_id"@, config.client_id@),
            ("redirect_uri"@, config.redirect_uri@),
            ("scope"@, join(config.scope_or(Seq::empty()), " "@)),
            ("state"@, state),
        ]
    }

    /// The pairs of the token URL for `config`, its secret and an authorization code.
    pub open spec fn token_pairs(config: AuthConfig, secret: Seq<char>, code: Seq<char>) -> QueryPairs {
        seq![
            ("grant_type"@, "authorization_code"@),
            ("client_id"@, config.client_id@),
            ("client_secret"@, secret),
            ("code"@, code),
            ("redirect_uri"@, config.redirect_uri@),
        ]
    }

    /// The profile request for the token's owner, asking for the union id.
    pub fn user_info_request(&self, token: &TokenResponse) -> (r: Result<HttpGet, AuthError>)
        ensures
            r matches Ok(g) && g.url@ == USER_ENDPOINT@ + seq!['?'] + form_query(
                seq![("access_token"@, token.access_token@), ("get_unionid"@, seq!['1'])],
            ) && g.bearer is None && !g.accept_json,
    {
        let request = GetUserInfoRequest {
            access_token: token.access_token.clone(),
            get_unionid: Some(1),
        };
        assert(request.query_pairs() =~= seq![
            ("access_token"@, token.access_token@),
            ("get_unionid"@, seq!['1']),
        ]);
        let url = Self::user_info_url(request)?;
        Ok(HttpGet { url, bearer: None, accept_json: false })
    }

    /// The canonical identity: the open id as user id, the user name (or
    /// nothing) as name.
    pub fn normalize(token: TokenResponse, user: UserInfoResponse) -> (r: AuthUser)
        ensures
            r.user_id == user.openid,
            match user.username {
                Some(n) => r.name == n,
                None => r.name@ == Seq::<char>::empty(),
            },
            r.access_token == token.access_token,
            r.refresh_token == token.refresh_token,
            r.expires_in == token.expires_in,
            r.extra == user.extra,
    {
        let name = match user.username {
            Some(n) => n,
            None => String::new(),
        };
        AuthUser {
            user_id: user.openid,
            name,
            access_token: token.access_token,
            refresh_token: token.refresh_token,
            expires_in: token.expires_in,
            extra: user.extra,
        }
    }
}

impl AuthUrlProvider for AuthorizationServer {
    type AuthRequest = AuthRequest;
    type TokenRequest = GetTokenRequest;
    type UserInfoRequest = GetUserInfoRequest;

    fn authorize_url(request: AuthRequest) -> (r: Result<String, AuthError>)
        ensures
            r matches Ok(u) && u@ == AUTHORIZE_ENDPOINT@ + seq!['?'] + form_query(
                seq![("response_type"@, "CODE"@)] + request.query_pairs(),
            ),
    {
        let mut pairs: Vec<(String, String)> = Vec::new();
        push_pair(&mut pairs, "response_type", "CODE".to_string());
        request.push_query_pairs(&mut pairs);
        assert(pairs_view(pairs@) =~= seq![("response_type"@, "CODE"@)] + request.query_pairs());
        endpoint_url(AUTHORIZE_ENDPOINT, &pairs)
    }

    fn access_token_url(request: GetTokenRequest) -> (r: Result<String, AuthError>)
        ensures
            r matches Ok(u) && u@ == TOKEN_ENDPOINT@ + seq!['?'] + form_query(
                seq![("grant_type"@, "authorization_code"@)] + request.query_pairs(),
            ),
    {
        let mut pairs: Vec<(String, String)> = Vec::new();
        push_pair(&mut pairs, "grant_type", "authorization_code".to_string());
        push_pair(&mut pairs, "client_id", request.client_id);
        push_pair(&mut pairs, "client_secret", request.client_secret);
        push_pair(&mut pairs, "code", request.code);
        push_pair(&mut pairs, "redirect_uri", request.redirect_uri);
        assert(pairs_view(pairs@) =~= seq![("grant_type"@, "authorization_code"@)]
            + request.query_pairs());
        endpoint_url(TOKEN_ENDPOINT, &pairs)
    }

    fn user_info_url(request: GetUserInfoRequest) -> (r: Result<String, AuthError>)
        ensures
            r matches Ok(u) && u@ == USER_ENDPOINT@ + seq!['?'] + form_query(
                request.query_pairs(),
            ),
    {
        let mut pairs: Vec<(String, String)> = Vec::new();
        push_pair(&mut pairs, "access_token", request.access_token);
        push_opt_decimal(&mut pairs, "get_unionid", from_i8(request.get_unionid));
        assert(pairs_view(pairs@) =~= request.query_pairs());
        endpoint_url(USER_ENDPOINT, &pairs)
    }
}

impl AuthAction for AuthorizationServer {
    type AuthCallback = AuthCallback;

    fn authorize(&self, state: String) -> (r: Result<String, AuthError>)
        ensures
            r matches Ok(u) && u@ == AUTHORIZE_ENDPOINT@ + seq!['?'] + form_query(
                Self::authorize_pairs(self.config, state@),
            ),
    {
        let default: Vec<String> = Vec::new();
        assert(strings_view(default@) =~= Seq::<Seq<char>>::empty());
        let request = AuthRequest {
            client_id: self.config.client_id.clone(),
            redirect_uri: self.config.redirect_uri.clone(),
            scope: configured_scope(&self.config, default),
            state: Some(state),
            display: None,
            force_login: None,
            confirm_login: None,
            login_type: None,
            qrext_clientid: None,
            bgurl: None,
            qrcode_width: None,
            qrcode_height: None,
            qrcode: None,
            qrloginfrom: None,
            user_reg: None,
            app_tip: None,
            app_name: None,
        };
        assert(seq![("response_type"@, "CODE"@)] + request.query_pairs()
            =~= Self::authorize_pairs(self.config, state@));
        Self::authorize_url(request)
    }

    fn access_token_request(&self, callback: &AuthCallback) -> (r: Result<HttpGet, AuthError>)
        ensures
            match self.config.client_secret {
                None => r == Err::<HttpGet, AuthError>(AuthError::ConfigurationError),
                Some(secret) => r matches Ok(g) && g.url@ == TOKEN_ENDPOINT@ + seq!['?']
                    + form_query(Self::token_pairs(self.config, secret@, callback.code@))
                    && g.bearer is None && !g.accept_json,
            },
    {
        let secret = required_secret(&self.config)?;
        let request = GetTokenRequest {
            client_id: self.config.client_id.clone(),
            client_secret: secret,
            code: callback.code.clone(),
            redirect_uri: self.config.redirect_uri.clone(),
        };
        let ghost req_pairs = request.query_pairs();
        let url = Self::access_token_url(request)?;
        assert(seq![("grant_type"@, "authorization_code"@)] + req_pairs =~= Self::token_pairs(
            self.config,
            secret@,
            callback.code@,
        ));
        Ok(HttpGet { url, bearer: None, accept_json: false })
    }
}

} // verus!
