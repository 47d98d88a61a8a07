use social_login::error::AuthError;
use social_login::jsonp::substr_between;
use social_login::qq::AuthorizationServer;

#[test]
fn jsonp_interior_is_extracted() {
    let json = AuthorizationServer::open_id_json("callback({\"openid\":\"abc\"});").unwrap();
    assert_eq!(json, "{\"openid\":\"abc\"}");
}

#[test]
fn jsonp_with_spaces_and_newline() {
    let body = "callback( {\"client_id\":\"YOUR_APPID\",\"openid\":\"YOUR_OPENID\"} );\n";
    let json = AuthorizationServer::open_id_json(body).unwrap();
    assert_eq!(json, " {\"client_id\":\"YOUR_APPID\",\"openid\":\"YOUR_OPENID\"} ");
}

#[test]
fn jsonp_missing_start_marker_fails() {
    let r = AuthorizationServer::open_id_json("{\"openid\":\"abc\"});");
    assert!(matches!(r, Err(AuthError::DecodingError(_))));
}

#[test]
fn jsonp_missing_end_marker_fails() {
    let r = AuthorizationServer::open_id_json("callback({\"openid\":\"abc\"}");
    assert!(matches!(r, Err(AuthError::DecodingError(_))));
}

#[test]
fn substr_between_takes_first_end_after_start() {
    assert_eq!(substr_between("x);callback(a);b);", "callback(", ");"), Some("a".to_string()));
    assert_eq!(substr_between("callback();", "callback(", ");"), Some(String::new()));
    assert_eq!(substr_between("", "callback(", ");"), None);
    assert_eq!(substr_between("ééSTARTçaENDé", "START", "END"), Some("ça".to_string()));
}
