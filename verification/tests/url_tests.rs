use kiro_auth_client::client::KiroAuthServiceClient;
use kiro_auth_client::text::trim_whitespace;

const ENDPOINT: &str = "https://prod.us-east-1.auth.desktop.kiro.dev";

#[test]
fn endpoint_urls() {
    let client = KiroAuthServiceClient::new();
    assert_eq!(client.login_url(), format!("{}/login", ENDPOINT));
    assert_eq!(client.create_token_url(), format!("{}/oauth/token", ENDPOINT));
    assert_eq!(client.refresh_token_url(), format!("{}/refreshToken", ENDPOINT));
}

#[test]
fn authorization_url_encodes_only_redirect_uri() {
    let client = KiroAuthServiceClient::new();
    let url = client.authorization_url("google", "http://localhost:8080/cb", "abc123", "xyz");
    assert_eq!(
        url,
        format!(
            "{}/login?idp=google&redirect_uri=http%3A%2F%2Flocalhost%3A8080%2Fcb&code_challenge=abc123&code_challenge_method=S256&state=xyz",
            ENDPOINT
        )
    );
    // the other query parameters stand verbatim
    assert!(url.contains("idp=google"));
    assert!(url.contains("code_challenge=abc123"));
    assert!(url.contains("code_challenge_method=S256"));
    assert!(url.contains("state=xyz"));
    // ':' and '/' of the redirect URI are percent-encoded
    assert!(url.contains("redirect_uri=http%3A%2F%2Flocalhost%3A8080%2Fcb"));
}

#[test]
fn authorization_url_matches_urlencoding_crate() {
    let client = KiroAuthServiceClient::new();
    let redirect = "https://example.com/path?a=b&c=d e+f~g-ä";
    let url = client.authorization_url("github", redirect, "ch", "st");
    let expected = format!(
        "{}/login?idp=github&redirect_uri={}&code_challenge=ch&code_challenge_method=S256&state=st",
        ENDPOINT,
        urlencoding::encode(redirect)
    );
    assert_eq!(url, expected);
}

#[test]
fn authorization_url_trims_surrounding_whitespace() {
    let client = KiroAuthServiceClient::new();
    let url = client.authorization_url("google", "http://localhost:8080/cb", "abc123", "xyz \n");
    assert!(url.ends_with("state=xyz"));
    assert_eq!(url, url.trim());
}

#[test]
fn trim_whitespace_matches_str_trim() {
    let cases = [
        "",
        "   ",
        "abc",
        "  abc\t\n",
        "\u{3000}hi\u{2028}",
        "\u{a0}\u{1680}x y\u{200a}\u{205f}",
        "inner  space kept  ",
    ];
    for s in cases {
        assert_eq!(trim_whitespace(s), s.trim(), "case: {:?}", s);
    }
}
