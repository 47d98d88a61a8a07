use social_login::query::decode_query;
use social_login::{baidu, weibo, AuthAction, AuthConfigBuilder, AuthUrlProvider};

#[test]
fn builder_collects_settings_and_scope_items() {
    let config = AuthConfigBuilder::new()
        .client_id("cid".to_string())
        .client_secret("sec".to_string())
        .redirect_uri("https://app/cb".to_string())
        .scope("email".to_string())
        .scope("profile".to_string())
        .build();
    assert_eq!(config.client_id, "cid");
    assert_eq!(config.client_secret, Some("sec".to_string()));
    assert_eq!(config.redirect_uri, "https://app/cb");
    assert_eq!(config.scope, Some(vec!["email".to_string(), "profile".to_string()]));
}

#[test]
fn builder_leaves_unset_values_empty() {
    let config = AuthConfigBuilder::new().build();
    assert_eq!(config.client_id, "");
    assert_eq!(config.client_secret, None);
    assert_eq!(config.redirect_uri, "");
    assert_eq!(config.scope, None);
}

#[test]
fn weibo_configured_scope_is_comma_joined() {
    let config = AuthConfigBuilder::new()
        .client_id("cid".to_string())
        .redirect_uri("r".to_string())
        .scope("email".to_string())
        .scope("direct_messages_read".to_string())
        .build();
    let url = weibo::AuthorizationServer::new(config).authorize("s".to_string()).unwrap();
    assert_eq!(
        url,
        "https://api.weibo.com/oauth2/authorize?response_type=code&client_id=cid&redirect_uri=r&scope=email%2Cdirect_messages_read&state=s"
    );
}

#[test]
fn baidu_authorize_query_round_trip() {
    let request = baidu::AuthRequest {
        client_id: "id".to_string(),
        redirect_uri: "https://a/b?c=d".to_string(),
        scope: vec!["basic".to_string()],
        state: Some("x y".to_string()),
        display: Some(baidu::DisplayStyle::Tv),
        force_login: None,
        confirm_login: Some(1),
        login_type: Some("sms".to_string()),
        qrext_clientid: None,
        bgurl: None,
        qrcode_width: None,
        qrcode_height: Some(300),
        qrcode: None,
        qrloginfrom: Some("pc".to_string()),
        user_reg: None,
        app_tip: None,
        app_name: Some("名前".to_string()),
    };
    let url = baidu::AuthorizationServer::authorize_url(request).unwrap();
    let query = url.split_once('?').unwrap().1;
    let expected: Vec<(String, String)> = [
        ("response_type", "CODE"),
        ("client_id", "id"),
        ("redirect_uri", "https://a/b?c=d"),
        ("scope", "basic"),
        ("state", "x y"),
        ("display", "tv"),
        ("confirm_login", "1"),
        ("login_type", "sms"),
        ("qrcodeH", "300"),
        ("qrloginfrom", "pc"),
        ("appName", "名前"),
    ]
    .iter()
    .map(|(k, v)| (k.to_string(), v.to_string()))
    .collect();
    assert_eq!(decode_query(query).unwrap(), expected);
}
