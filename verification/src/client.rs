//! The authorization-service client: the fixed endpoint, the URLs of the
//! three operations, and the JSON bodies of the two token requests.
//!
//! Nothing here performs I/O.  The caller sends the bodies over its own
//! transport and launches the browser on the authorization URL.

use crate::json::{json_quote, json_quoted};
use crate::percent::{percent_encode, percent_encoded, percent_encoded_ascii};
use crate::text::{trim_whitespace, trimmed};
use vstd::prelude::*;
use vstd::string::StringExecFns;
use vstd::utf8::is_ascii_chars;

verus! {

/// The fixed base address of the authorization service.
pub open spec fn service_endpoint() -> Seq<char> {
    "https://prod.us-east-1.auth.desktop.kiro.dev"@
}

/// Client for the authorization service.  It holds only the service
/// endpoint; the transport that carries the requests belongs to the caller.
pub struct KiroAuthServiceClient {
    endpoint: String,
}

impl KiroAuthServiceClient {
    /// The base URL this client addresses.
    pub closed spec fn endpoint_view(&self) -> Seq<char> {
        self.endpoint@
    }

    /// A client for the fixed service endpoint.
    pub fn new() -> (r: Self)
        ensures
            r.endpoint_view() == service_endpoint(),
    {
        KiroAuthServiceClient {
            endpoint: "https://prod.us-east-1.auth.desktop.kiro.dev".to_owned(),
        }
    }

    /// The login page, reached by the user's browser.
    pub open spec fn login_url_spec(&self) -> Seq<char> {
        self.endpoint_view() + "/login"@
    }

    /// The URL of the login page.
    pub fn login_url(&self) -> (r: String)
        ensures
            r@ == self.login_url_spec(),
    {
        let mut u = self.endpoint.clone();
        u.append("/login");
        u
    }

    /// The code-exchange endpoint.
    pub open spec fn create_token_url_spec(&self) -> Seq<char> {
        self.endpoint_view() + "/oauth/token"@
    }

    /// The URL that authorization codes are exchanged at.
    pub fn create_token_url(&self) -> (r: String)
        ensures
            r@ == self.create_token_url_spec(),
    {
        let mut u = self.endpoint.clone();
        u.append("/oauth/token");
        u
    }

    /// The token-refresh endpoint.
    pub open spec fn refresh_token_url_spec(&self) -> Seq<char> {
        self.endpoint_view() + "/refreshToken"@
    }

    /// The URL that refresh tokens are exchanged at.
    pub fn refresh_token_url(&self) -> (r: String)
        ensures
            r@ == self.refresh_token_url_spec(),
    {
        let mut u = self.endpoint.clone();
        u.append("/refreshToken");
        u
    }

    /// The authorization URL that the login operation opens in the browser,
    /// with surrounding whitespace trimmed.  Only the redirect URI is
    /// percent-encoded; the provider, code challenge and state are inserted
    /// verbatim, and the caller keeps them URL-safe.
    pub open spec fn authorization_url_spec(
        &self,
        provider: Seq<char>,
        redirect_uri: Seq<char>,
        code_challenge: Seq<char>,
        state: Seq<char>,
    ) -> Seq<char> {
        trimmed(
            self.login_url_spec() + "?idp="@ + provider + "&redirect_uri="@ + percent_encoded(
                redirect_uri,
            ) + "&code_challenge="@ + code_challenge + "&code_challenge_method=S256&state="@
                + state,
        )
    }

    /// The authorization URL with the redirect URI's encoding written out,
    /// meaningful for an ASCII redirect URI.
    pub open spec fn authorization_url_ascii_spec(
        &self,
        provider: Seq<char>,
        redirect_uri: Seq<char>,
        code_challenge: Seq<char>,
        state: Seq<char>,
    ) -> Seq<char> {
        trimmed(
            self.login_url_spec() + "?idp="@ + provider + "&redirect_uri="@
                + percent_encoded_ascii(redirect_uri) + "&code_challenge="@ + code_challenge
                + "&code_challenge_method=S256&state="@ + state,
        )
    }

    /// Builds the authorization URL for the login operation.  Pure: this
    /// performs no I/O; the caller passes the result to a browser launcher,
    /// and no request against the service is made here.
    pub fn authorization_url(
        &self,
        provider: &str,
        redirect_uri: &str,
        code_challenge: &str,
        state: &str,
    ) -> (r: String)
        ensures
            r@ == self.authorization_url_spec(provider@, redirect_uri@, code_challenge@, state@),
            is_ascii_chars(redirect_uri@) ==> r@ == self.authorization_url_ascii_spec(
                provider@,
                redirect_uri@,
                code_challenge@,
                state@,
            ),
    {
        let mut u = self.login_url();
        u.append("?idp=");
        u.append(provider);
        u.append("&redirect_uri=");
        let encoded = percent_encode(redirect_uri);
        u.append(encoded.as_str());
        u.append("&code_challenge=");
        u.append(code_challenge);
        u.append("&code_challenge_method=S256&state=");
        u.append(state);
        proof {
            assert(u@ =~= self.login_url_spec() + "?idp="@ + provider@ + "&redirect_uri="@
                + percent_encoded(redirect_uri@) + "&code_challenge="@ + code_challenge@
                + "&code_challenge_method=S256&state="@ + state@);
        }
        trim_whitespace(u.as_str())
    }
}

/// The JSON body that exchanges an authorization code for tokens: the fields
/// `code`, `code_verifier`, `redirect_uri` and `invitation_code`, in that
/// order, with `null` for an absent invitation code.
pub open spec fn token_exchange_body_spec(
    code: Seq<char>,
    code_verifier: Seq<char>,
    redirect_uri: Seq<char>,
    invitation_code: Option<Seq<char>>,
) -> Seq<char> {
    "{\"code\":"@ + json_quoted(code) + ",\"code_verifier\":"@ + json_quoted(code_verifier)
        + ",\"redirect_uri\":"@ + json_quoted(redirect_uri) + ",\"invitation_code\":"@ + (
    match invitation_code {
        Some(s) => json_quoted(s),
        None => "null"@,
    }) + "}"@
}

/// Builds the POST body for the code exchange.
pub fn token_exchange_body(
    code: &str,
    code_verifier: &str,
    redirect_uri: &str,
    invitation_code: Option<&str>,
) -> (r: String)
    ensures
        r@ == token_exchange_body_spec(
            code@,
            code_verifier@,
            redirect_uri@,
            invitation_code.deep_view(),
        ),
{
    let mut b = String::from_str("{\"code\":");
    let quoted_code = json_quote(code);
    b.append(quoted_code.as_str());
    b.append(",\"code_verifier\":");
    let quoted_verifier = json_quote(code_verifier);
    b.append(quoted_verifier.as_str());
    b.append(",\"redirect_uri\":");
    let quoted_uri = json_quote(redirect_uri);
    b.append(quoted_uri.as_str());
    b.append(",\"invitation_code\":");
    match invitation_code {
        Some(s) => {
            let quoted_invitation = json_quote(s);
            b.append(quoted_invitation.as_str());
        },
        None => {
            b.append("null");
        },
    }
    b.append("}");
    proof {
        assert(b@ =~= token_exchange_body_spec(
            code@,
            code_verifier@,
            redirect_uri@,
            invitation_code.deep_view(),
        ));
    }
    b
}

/// The JSON body that exchanges a refresh token: the single wire field
/// `refreshToken`.
pub open spec fn token_refresh_body_spec(refresh_token: Seq<char>) -> Seq<char> {
    "{\"refreshToken\":"@ + json_quoted(refresh_token) + "}"@
}

/// Builds the POST body for the token refresh.
pub fn token_refresh_body(refresh_token: &str) -> (r: String)
    ensures
        r@ == token_refresh_body_spec(refresh_token@),
{
    let mut b = String::from_str("{\"refreshToken\":");
    let quoted = json_quote(refresh_token);
    b.append(quoted.as_str());
    b.append("}");
    proof {
        assert(b@ =~= token_refresh_body_spec(refresh_token@));
    }
    b
}

} // verus!
