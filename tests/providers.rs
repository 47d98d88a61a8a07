use social_login::error::AuthError;
use social_login::query::{decode_query, lookup};
use social_login::{alipay, baidu, facebook, github, qq, twitter, wechat_open, weibo};
use social_login::{AuthAction, AuthConfig, AuthUrlProvider};
use std::collections::HashMap;

fn config(secret: Option<&str>, scope: Option<Vec<&str>>) -> AuthConfig {
    AuthConfig::new(
        "cid".to_string(),
        secret.map(|s| s.to_string()),
        "https://app/cb".to_string(),
        scope.map(|v| v.into_iter().map(|s| s.to_string()).collect()),
    )
}

fn query_of(url: &str) -> Vec<(String, String)> {
    let q = url.split_once('?').unwrap().1;
    decode_query(q).unwrap()
}

fn pairs(items: &[(&str, &str)]) -> Vec<(String, String)> {
    items.iter().map(|(k, v)| (k.to_string(), v.to_string())).collect()
}

#[test]
fn github_authorize_url_end_to_end() {
    let server = github::AuthorizationServer::new(config(None, None));
    let url = server.authorize("xyz".to_string()).unwrap();
    assert_eq!(
        url,
        "https://github.com/login/oauth/authorize?client_id=cid&redirect_uri=https%3A%2F%2Fapp%2Fcb&scope=read%3Auser+user%3Aemail&state=xyz"
    );
    assert!(url.contains("client_id=cid"));
    assert!(url.contains("redirect_uri=https%3A%2F%2Fapp%2Fcb"));
    assert!(url.contains("state=xyz"));
}

#[test]
fn github_login_end_to_end() {
    let server = github::AuthorizationServer::new(config(Some("sec"), None));
    let callback = github::AuthCallback { code: "abc".to_string(), state: "xyz".to_string() };
    let get = server.access_token_request(&callback).unwrap();
    assert_eq!(
        get.url,
        "https://github.com/login/oauth/access_token?token_type=bearer&client_id=cid&client_secret=sec&code=abc&redirect_uri=https%3A%2F%2Fapp%2Fcb"
    );
    assert!(get.accept_json);
    assert_eq!(get.bearer, None);
    let token = github::TokenResponse {
        access_token: "tok".to_string(),
        scope: "...".to_string(),
        token_type: "bearer".to_string(),
    };
    let get = server.user_info_request(&token).unwrap();
    assert_eq!(get.url, "https://api.github.com/user");
    assert_eq!(get.bearer, Some("tok".to_string()));
    let user = github::UserInfoResponse { id: 1, name: "Ada".to_string(), extra: HashMap::new() };
    let identity = github::AuthorizationServer::normalize(token, user);
    assert_eq!(identity.user_id, "1");
    assert_eq!(identity.name, "Ada");
    assert_eq!(identity.access_token, "tok");
    assert_eq!(identity.refresh_token, "");
    assert_eq!(identity.expires_in, i64::MAX);
    assert!(identity.extra.is_empty());
}

#[test]
fn github_extra_fields_pass_through() {
    let mut extra = HashMap::new();
    extra.insert("login".to_string(), serde_json::Value::String("ada".to_string()));
    extra.insert("public_repos".to_string(), serde_json::Value::from(3));
    let token = github::TokenResponse {
        access_token: "tok".to_string(),
        scope: String::new(),
        token_type: "bearer".to_string(),
    };
    let user = github::UserInfoResponse { id: -7, name: "Ada".to_string(), extra: extra.clone() };
    let identity = github::AuthorizationServer::normalize(token, user);
    assert_eq!(identity.user_id, "-7");
    assert_eq!(identity.extra, extra);
}

#[test]
fn github_token_request_needs_secret() {
    let server = github::AuthorizationServer::new(config(None, None));
    let callback = github::AuthCallback { code: "abc".to_string(), state: "xyz".to_string() };
    assert!(matches!(server.access_token_request(&callback), Err(AuthError::ConfigurationError)));
}

#[test]
fn github_configured_scope_replaces_default() {
    let server = github::AuthorizationServer::new(config(None, Some(vec!["repo", "gist"])));
    let url = server.authorize("s".to_string()).unwrap();
    assert_eq!(lookup(&query_of(&url), "scope"), Some("repo gist".to_string()));
}

#[test]
fn github_authorize_url_round_trip() {
    let request = github::AuthRequest {
        client_id: "c i&d".to_string(),
        redirect_uri: "https://app/cb?x=1".to_string(),
        login: Some("ada".to_string()),
        scope: vec!["a".to_string(), "b".to_string()],
        state: "st=ate".to_string(),
        allow_signup: None,
        prompt: Some("consent".to_string()),
    };
    let url = github::AuthorizationServer::authorize_url(request).unwrap();
    assert_eq!(
        query_of(&url),
        pairs(&[
            ("client_id", "c i&d"),
            ("redirect_uri", "https://app/cb?x=1"),
            ("login", "ada"),
            ("scope", "a b"),
            ("state", "st=ate"),
            ("prompt", "consent"),
        ])
    );
}

#[test]
fn every_provider_keeps_state_and_redirect() {
    let state = "a b&c=d/é".to_string();
    let urls = vec![
        github::AuthorizationServer::new(config(None, None)).authorize(state.clone()).unwrap(),
        qq::AuthorizationServer::new(config(None, None)).authorize(state.clone()).unwrap(),
        baidu::AuthorizationServer::new(config(None, None)).authorize(state.clone()).unwrap(),
        facebook::AuthorizationServer::new(config(None, None)).authorize(state.clone()).unwrap(),
        twitter::AuthorizationServer::new(config(None, None)).authorize(state.clone()).unwrap(),
        wechat_open::AuthorizationServer::new(config(None, None))
            .authorize(state.clone())
            .unwrap(),
        weibo::AuthorizationServer::new(config(None, None)).authorize(state.clone()).unwrap(),
        alipay::AuthorizationServer::new(config(None, None)).authorize(state.clone()).unwrap(),
    ];
    for url in urls {
        let q = query_of(&url);
        assert_eq!(lookup(&q, "state"), Some(state.clone()), "{url}");
        assert_eq!(lookup(&q, "redirect_uri"), Some("https://app/cb".to_string()), "{url}");
    }
}

#[test]
fn qq_scope_two_items_use_comma() {
    let request = qq::AuthRequest {
        client_id: "cid".to_string(),
        redirect_uri: "r".to_string(),
        state: "s".to_string(),
        scope: Some(vec!["get_user_info".to_string(), "list_album".to_string()]),
        display: Some(qq::QQDisplayStyle::Mobile),
    };
    let url = qq::AuthorizationServer::authorize_url(request).unwrap();
    assert_eq!(
        url,
        "https://graph.qq.com/oauth2.0/authorize?response_type=token&client_id=cid&redirect_uri=r&state=s&scope=get_user_info%2Clist_album&display=mobile"
    );
}

#[test]
fn qq_scope_empty_and_absent() {
    let empty = qq::AuthRequest {
        client_id: "cid".to_string(),
        redirect_uri: "r".to_string(),
        state: "s".to_string(),
        scope: Some(Vec::new()),
        display: None,
    };
    let url = qq::AuthorizationServer::authorize_url(empty).unwrap();
    assert!(url.ends_with("&state=s&scope="));
    let absent = qq::AuthRequest {
        client_id: "cid".to_string(),
        redirect_uri: "r".to_string(),
        state: "s".to_string(),
        scope: None,
        display: None,
    };
    let url = qq::AuthorizationServer::authorize_url(absent).unwrap();
    assert!(!url.contains("scope"));
    assert!(url.ends_with("&state=s"));
}

#[test]
fn space_separated_scope_for_twitter() {
    let server = twitter::AuthorizationServer::new(config(None, None));
    let url = server.authorize("s".to_string()).unwrap();
    assert!(url.contains("&scope=tweet.read+users.read&"));
    assert!(url.contains("code_challenge=aaa&code_challenge_method=plain"));
}

#[test]
fn qq_login_flow_requests() {
    let server = qq::AuthorizationServer::new(config(Some("sec"), None));
    let callback = qq::AuthCallback::from_query("code=abc&state=xyz").unwrap();
    assert_eq!(callback.code, "abc");
    assert_eq!(callback.state, "xyz");
    let get = server.access_token_request(&callback).unwrap();
    assert_eq!(
        get.url,
        "https://graph.qq.com/oauth2.0/token?grant_type=authorization_code&client_id=cid&client_secret=sec&code=abc&redirect_uri=https%3A%2F%2Fapp%2Fcb&fmt=json"
    );
    let token = qq::TokenResponse {
        access_token: "tok".to_string(),
        expires_in: 7776000,
        refresh_token: "ref".to_string(),
    };
    let me = server.open_id_request(&token);
    assert_eq!(me.url, "https://graph.qq.com/oauth2.0/me?access_token=tok");
    let open_id = qq::OpenIdResp { client_id: "cid".to_string(), openid: "oid".to_string() };
    let get = server.user_info_request(&token, &open_id).unwrap();
    assert_eq!(
        get.url,
        "https://graph.qq.com/user/get_user_info?access_token=tok&oauth_consumer_key=cid&openid=oid"
    );
    let user = qq::UserInfoResponse { nickname: "Ada".to_string(), extra: HashMap::new() };
    let identity = qq::AuthorizationServer::normalize(token, open_id, user);
    assert_eq!(identity.user_id, "oid");
    assert_eq!(identity.name, "Ada");
    assert_eq!(identity.refresh_token, "ref");
    assert_eq!(identity.expires_in, 7776000);
}

#[test]
fn qq_callback_without_code_fails() {
    assert!(matches!(
        qq::AuthCallback::from_query("state=xyz"),
        Err(AuthError::DecodingError(_))
    ));
}

#[test]
fn weibo_callback_state_is_optional() {
    let callback = weibo::AuthCallback::from_query("code=abc").unwrap();
    assert_eq!(callback.code, "abc");
    assert_eq!(callback.state, None);
    let callback = weibo::AuthCallback::from_query("state=s%20t&code=abc").unwrap();
    assert_eq!(callback.state, Some("s t".to_string()));
}

#[test]
fn weibo_profile_request_and_identity() {
    let server = weibo::AuthorizationServer::new(config(Some("sec"), None));
    let token = weibo::TokenResponse {
        access_token: "tok".to_string(),
        remind_in: 10,
        expires_in: 3600,
        uid: 12345,
    };
    let get = server.user_info_request(&token).unwrap();
    assert_eq!(get.url, "https://api.weibo.com/2/eps/user/info.json?access_token=tok&uid=12345");
    let user = weibo::UserInfoResponse {
        uid: "12345".to_string(),
        nickname: "Ada".to_string(),
        extra: HashMap::new(),
    };
    let identity = weibo::AuthorizationServer::normalize(token, user);
    assert_eq!(identity.user_id, "12345");
    assert_eq!(identity.refresh_token, "");
    assert_eq!(identity.expires_in, 3600);
}

#[test]
fn twitter_token_and_profile_requests() {
    let server = twitter::AuthorizationServer::new(config(None, None));
    let callback = twitter::AuthCallback::from_query("state=s&code=abc").unwrap();
    let get = server.access_token_request(&callback).unwrap();
    assert_eq!(
        get.url,
        "https://api.x.com/2/oauth2/token?grant_type=authorization_code&client_id=cid&code=abc&redirect_uri=https%3A%2F%2Fapp%2Fcb&code_verifier=aaa"
    );
    let token = twitter::TokenResponse {
        access_token: "tok".to_string(),
        scope: "s".to_string(),
        token_type: "bearer".to_string(),
    };
    let get = server.user_info_request(&token).unwrap();
    assert!(get.url.starts_with("https://api.x.com/2/users/me?tweet.fields=&user.fields=created_at%2Cdescription"));
    assert!(get.url.ends_with("verified_type%2Cwithheld"));
    assert_eq!(get.bearer, Some("tok".to_string()));
    let user = twitter::UserInfoResponse {
        id: "42".to_string(),
        name: "Ada".to_string(),
        extra: HashMap::new(),
    };
    let identity = twitter::AuthorizationServer::normalize(token, user);
    assert_eq!(identity.user_id, "42");
    assert_eq!(identity.refresh_token, "");
    assert_eq!(identity.expires_in, i64::MAX);
}

#[test]
fn baidu_requests_and_identity() {
    let server = baidu::AuthorizationServer::new(config(Some("sec"), None));
    let url = server.authorize("s".to_string()).unwrap();
    assert_eq!(
        url,
        "https://openapi.baidu.com/oauth/2.0/authorize?response_type=CODE&client_id=cid&redirect_uri=https%3A%2F%2Fapp%2Fcb&scope=&state=s"
    );
    let token = baidu::TokenResponse {
        access_token: "tok".to_string(),
        expires_in: 2592000,
        refresh_token: "ref".to_string(),
        scope: String::new(),
        session_key: String::new(),
        session_secret: String::new(),
    };
    let get = server.user_info_request(&token).unwrap();
    assert_eq!(
        get.url,
        "https://openapi.baidu.com/rest/2.0/passport/users/getInfo?access_token=tok&get_unionid=1"
    );
    let user = baidu::UserInfoResponse {
        openid: "oid".to_string(),
        username: None,
        extra: HashMap::new(),
    };
    let identity = baidu::AuthorizationServer::normalize(token, user);
    assert_eq!(identity.user_id, "oid");
    assert_eq!(identity.name, "");
    assert_eq!(identity.refresh_token, "ref");
    assert_eq!(identity.expires_in, 2592000);
}

#[test]
fn baidu_optional_fields_use_their_wire_names() {
    let request = baidu::AuthRequest {
        client_id: "cid".to_string(),
        redirect_uri: "r".to_string(),
        scope: vec!["basic".to_string(), "netdisk".to_string()],
        state: None,
        display: Some(baidu::DisplayStyle::Popup),
        force_login: Some(1),
        confirm_login: None,
        login_type: None,
        qrext_clientid: None,
        bgurl: None,
        qrcode_width: Some(120),
        qrcode_height: None,
        qrcode: Some(-1),
        qrloginfrom: None,
        user_reg: Some(0),
        app_tip: Some("tip".to_string()),
        app_name: None,
    };
    let url = baidu::AuthorizationServer::authorize_url(request).unwrap();
    assert_eq!(
        url,
        "https://openapi.baidu.com/oauth/2.0/authorize?response_type=CODE&client_id=cid&redirect_uri=r&scope=basic+netdisk&display=popup&force_login=1&qrcodeW=120&qrcode=-1&userReg=0&appTip=tip"
    );
}

#[test]
fn wechat_requests_and_identity() {
    let server = wechat_open::AuthorizationServer::new(config(Some("sec"), None));
    let url = server.authorize("s".to_string()).unwrap();
    assert_eq!(
        url,
        "https://open.weixin.qq.com/connect/qrconnect?response_type=code&appid=cid&redirect_uri=https%3A%2F%2Fapp%2Fcb&scope=snsapi_base%2Csnsapi_login%2Csnsapi_userinfo&state=s"
    );
    let callback = wechat_open::AuthCallback { code: "abc".to_string(), state: "s".to_string() };
    let get = server.access_token_request(&callback).unwrap();
    assert_eq!(
        get.url,
        "https://api.weixin.qq.com/sns/oauth2/access_token?grant_type=authorization_code&appid=cid&secret=sec&code=abc"
    );
    let token = wechat_open::TokenResponse {
        access_token: "tok".to_string(),
        expires_in: 7200,
        refresh_token: "ref".to_string(),
        openid: "oid".to_string(),
        scope: String::new(),
        unionid: "uid".to_string(),
    };
    let get = server.user_info_request(&token).unwrap();
    assert_eq!(get.url, "https://api.weixin.qq.com/sns/userinfo?access_token=tok&openid=uid");
    let user = wechat_open::UserInfoResponse {
        unionid: "uid".to_string(),
        nickname: "Ada".to_string(),
        extra: HashMap::new(),
    };
    let identity = wechat_open::AuthorizationServer::normalize(token, user);
    assert_eq!(identity.user_id, "uid");
    assert_eq!(identity.refresh_token, "ref");
    assert_eq!(identity.expires_in, 7200);
}

#[test]
fn facebook_requests_and_identity() {
    let server = facebook::AuthorizationServer::new(config(Some("sec"), Some(vec!["email", "public_profile"])));
    let url = server.authorize("s".to_string()).unwrap();
    assert_eq!(
        url,
        "https://www.facebook.com/v21.0/dialog/oauth?response_type=token&client_id=cid&redirect_uri=https%3A%2F%2Fapp%2Fcb&scope=email%2Cpublic_profile&state=s"
    );
    let token = facebook::TokenResponse {
        access_token: "tok".to_string(),
        expires_in: 5183944,
        token_type: "bearer".to_string(),
    };
    let get = server.user_info_request(&token).unwrap();
    assert_eq!(get.url, "https://graph.facebook.com/me?access_token=tok");
    assert_eq!(get.bearer, None);
    let user = facebook::UserInfoResponse {
        id: "10".to_string(),
        name: "Ada".to_string(),
        extra: HashMap::new(),
    };
    let identity = facebook::AuthorizationServer::normalize(token, user);
    assert_eq!(identity.user_id, "10");
    assert_eq!(identity.refresh_token, "");
    assert_eq!(identity.expires_in, 5183944);
}

#[test]
fn alipay_token_and_profile_steps_are_unimplemented() {
    let request = alipay::GetTokenRequest {
        app_id: "a".to_string(),
        redirect_uri: "r".to_string(),
        scope: "auth_user".to_string(),
        state: "s".to_string(),
    };
    assert_eq!(
        alipay::AuthorizationServer::access_token_url(request),
        Err(AuthError::UnimplementedProviderStep)
    );
    let request = alipay::GetUserInfoRequest {
        app_id: "a".to_string(),
        redirect_uri: "r".to_string(),
        scope: "auth_user".to_string(),
        state: "s".to_string(),
    };
    assert_eq!(
        alipay::AuthorizationServer::user_info_url(request),
        Err(AuthError::UnimplementedProviderStep)
    );
    let server = alipay::AuthorizationServer::new(config(Some("sec"), None));
    let callback = alipay::Callback {
        app_id: "a".to_string(),
        source: "alipay_wallet".to_string(),
        scope: "auth_user".to_string(),
        auth_code: "abc".to_string(),
    };
    assert!(matches!(
        server.access_token_request(&callback),
        Err(AuthError::UnimplementedProviderStep)
    ));
}

#[test]
fn alipay_authorize_url() {
    let server = alipay::AuthorizationServer::new(config(None, None));
    let url = server.authorize("init".to_string()).unwrap();
    assert_eq!(
        url,
        "https://openauth.alipay.com/oauth2/publicAppAuthorize.htm?app_id=cid&redirect_uri=https%3A%2F%2Fapp%2Fcb&scope=auth_user&state=init"
    );
}
