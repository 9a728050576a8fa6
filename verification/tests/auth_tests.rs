use hesocial_frontend::auth::oauth_token_decodable;
use hesocial_frontend::auth::{
    apply_complete_profile_redirect, bearer_authorization, boot_claim_oauth, display_login_error,
    extract_oauth_token, parse_login_response, password_input_type, path_only, percent_decode,
    LOGIN_FAILED_FALLBACK,
};
use hesocial_frontend::json::{json_get, json_string};
use hesocial_frontend::url::form_encode;

#[test]
fn login_form_helpers() {
    assert_eq!(password_input_type(true), "text");
    assert_eq!(password_input_type(false), "password");
    assert_eq!(bearer_authorization("abc"), "Bearer abc");
    assert_eq!(display_login_error(Some("  wrong password ")), "wrong password");
    assert_eq!(display_login_error(Some("   ")), LOGIN_FAILED_FALLBACK);
    assert_eq!(display_login_error(None), LOGIN_FAILED_FALLBACK);
}

#[test]
fn login_answer_is_decoded() {
    let ok = parse_login_response(
        r#"{"success":true,"data":{"token":"  tok123 ","user":{"email":"a@b.c","role":"admin"}}}"#,
    )
    .unwrap();
    assert_eq!(ok.token, "tok123");
    let user = ok.user.expect("user record");
    assert_eq!(json_string(json_get(&user, "email")).as_deref(), Some("a@b.c"));
    let no_user = parse_login_response(r#"{"success":true,"data":{"token":"t"}}"#).unwrap();
    assert!(no_user.user.is_none());
}

#[test]
fn login_failures() {
    assert_eq!(parse_login_response("not json").unwrap_err(), LOGIN_FAILED_FALLBACK);
    assert_eq!(
        parse_login_response(r#"{"success":true,"data":{"token":"   "}}"#).unwrap_err(),
        LOGIN_FAILED_FALLBACK
    );
    assert_eq!(
        parse_login_response(r#"{"success":true,"data":{}}"#).unwrap_err(),
        LOGIN_FAILED_FALLBACK
    );
    assert_eq!(
        parse_login_response(r#"{"success":false,"error":" Invalid credentials "}"#).unwrap_err(),
        "Invalid credentials"
    );
    assert_eq!(
        parse_login_response(r#"{"error":"locked"}"#).unwrap_err(),
        "locked"
    );
    assert_eq!(parse_login_response(r#"{"success":false}"#).unwrap_err(), LOGIN_FAILED_FALLBACK);
}

#[test]
fn paths_and_landing_route() {
    assert_eq!(path_only("/events?page=2"), "/events");
    assert_eq!(path_only("/events"), "/events");
    assert_eq!(path_only("?a=1"), "");
    assert_eq!(apply_complete_profile_redirect("/complete-profile?token=x"), "/profile");
    assert_eq!(apply_complete_profile_redirect("/complete-profile"), "/profile");
    assert_eq!(apply_complete_profile_redirect("/events?x=1"), "/events");
    let once = apply_complete_profile_redirect("/complete-profile?token=x");
    assert_eq!(apply_complete_profile_redirect(&once), once);
}

#[test]
fn oauth_token_extraction() {
    assert_eq!(
        extract_oauth_token("/complete-profile?token=abc%2Edef&x=1").as_deref(),
        Some("abc.def")
    );
    assert_eq!(extract_oauth_token("/p?a=1&token=x+y").as_deref(), Some("x y"));
    assert_eq!(extract_oauth_token("/p?token=&token=second").as_deref(), Some("second"));
    assert_eq!(extract_oauth_token("/p?tok=1"), None);
    assert_eq!(extract_oauth_token("/p"), None);
    assert_eq!(extract_oauth_token("token=bare").as_deref(), Some("bare"));
    assert_eq!(extract_oauth_token("token=a=b").as_deref(), Some("a=b"));
}

#[test]
fn boot_claim_combines_token_and_route() {
    let c = boot_claim_oauth("/complete-profile?token=T1");
    assert_eq!(c.token.as_deref(), Some("T1"));
    assert_eq!(c.route, "/profile");
    let d = boot_claim_oauth("/events");
    assert_eq!(d.token, None);
    assert_eq!(d.route, "/events");
}

#[test]
fn percent_decoding() {
    assert_eq!(percent_decode("a%20b+c"), "a b c");
    assert_eq!(percent_decode("%41%62"), "Ab");
    assert_eq!(percent_decode("100%"), "100%");
    assert_eq!(percent_decode("%zz"), "%zz");
    assert_eq!(percent_decode("%+9x"), "\u{9}x");
    assert_eq!(percent_decode("%C3%A9"), "\u{c3}\u{a9}");
}

#[test]
fn percent_decoding_undoes_form_encoding() {
    for s in ["hello world", "a+b=c&d", "100%", "~._-", "", "Tab\there"] {
        assert_eq!(percent_decode(&form_encode(s)), s);
    }
}

#[test]
fn token_decodability_check() {
    assert!(oauth_token_decodable("/p?token=abc%20def"));
    assert!(oauth_token_decodable("/p"));
    assert!(oauth_token_decodable("/p?token=%41"));
    assert!(oauth_token_decodable("/p?token=%41\u{e9}"));
    assert!(!oauth_token_decodable("/p?token=%4\u{e9}"));
    assert!(oauth_token_decodable("/p?x=%41\u{e9}"));
}
