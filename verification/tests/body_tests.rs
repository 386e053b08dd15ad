use kiro_auth_client::client::{token_exchange_body, token_refresh_body};
use kiro_auth_client::json::json_quote;

#[test]
fn exchange_body_with_invitation_code() {
    let body = token_exchange_body("c0de", "ver1fier", "http://localhost:8080/cb", Some("inv"));
    assert_eq!(
        body,
        "{\"code\":\"c0de\",\"code_verifier\":\"ver1fier\",\"redirect_uri\":\"http://localhost:8080/cb\",\"invitation_code\":\"inv\"}"
    );
}

#[test]
fn exchange_body_without_invitation_code() {
    let body = token_exchange_body("c", "v", "r", None);
    assert_eq!(
        body,
        "{\"code\":\"c\",\"code_verifier\":\"v\",\"redirect_uri\":\"r\",\"invitation_code\":null}"
    );
}

#[test]
fn refresh_body_uses_wire_field_name() {
    let body = token_refresh_body("tok-123");
    assert_eq!(body, "{\"refreshToken\":\"tok-123\"}");
}

#[test]
fn exchange_body_parses_back() {
    let body = token_exchange_body("a\"b", "c\\d", "http://x/y", None);
    let v: serde_json::Value = serde_json::from_str(&body).expect("body must be valid JSON");
    assert_eq!(v["code"], serde_json::Value::String("a\"b".to_string()));
    assert_eq!(v["code_verifier"], serde_json::Value::String("c\\d".to_string()));
    assert_eq!(v["redirect_uri"], serde_json::Value::String("http://x/y".to_string()));
    assert_eq!(v["invitation_code"], serde_json::Value::Null);
}

#[test]
fn refresh_body_parses_back() {
    let token = "line1\nline2\ttab\u{1}ctl";
    let body = token_refresh_body(token);
    let v: serde_json::Value = serde_json::from_str(&body).expect("body must be valid JSON");
    assert_eq!(v["refreshToken"], serde_json::Value::String(token.to_string()));
}

#[test]
fn json_quote_matches_serde_json() {
    let cases = [
        "",
        "plain",
        "with \"quotes\" and \\backslashes\\",
        "\u{8}\t\n\u{c}\r",
        "\u{0}\u{1}\u{1f} control",
        "unicode: ä 中 \u{2028}",
    ];
    for s in cases {
        let mine = json_quote(s);
        let theirs = serde_json::to_string(&serde_json::Value::String(s.to_string())).unwrap();
        assert_eq!(mine, theirs, "case: {:?}", s);
    }
}
