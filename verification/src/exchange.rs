//! The requests of the token exchange: from an authorization code to a token
//! of the provider, from that token to a session, and from a refresh token to
//! a renewed session. Only the requests are made here; sending them is the
//! caller's part.

use vstd::prelude::*;
use vstd::string::*;
use crate::provider::{lookup, KeysView, LoginKeys, LoginProvider};
use crate::text::{decimal, join2, join3, optional_view, pairs_view, push_decimal};

verus! {

/// The address of the loopback listener, as the provider and the platform are
/// told it.
pub open spec fn redirect_uri(port: u16) -> Seq<char> {
    "http://127.0.0.1:"@ + decimal(port as nat)
}

/// Writes [`redirect_uri`].
pub fn write_redirect_uri(port: u16) -> (uri: String)
    ensures
        uri@ == redirect_uri(port),
{
    let mut uri = String::from_str("http://127.0.0.1:");
    push_decimal(&mut uri, port as u64);
    uri
}

/// The root of an endpoint of the platform on `host`: the host itself over
/// TLS, or a path of that name below the emulator.
pub open spec fn service_root(emulator: Option<Seq<char>>, host: Seq<char>) -> Seq<char> {
    match emulator {
        Some(url) => url + "/"@ + host,
        None => "https://"@ + host,
    }
}

fn write_service_root(emulator: &Option<String>, host: &str) -> (root: String)
    ensures
        root@ == service_root(optional_view(*emulator), host@),
{
    match emulator {
        Some(url) => join3(url.as_str(), "/", host),
        None => join2("https://", host),
    }
}

/// The identifier under which the platform knows a provider.
pub open spec fn provider_id(provider: LoginProvider) -> Seq<char>
    recommends
        provider.supported(),
{
    if provider == LoginProvider::Google {
        "google.com"@
    } else {
        "github.com"@
    }
}

/// The name under which a provider returns its token, which is also the name
/// under which the platform takes it.
pub open spec fn token_field(provider: LoginProvider) -> Seq<char>
    recommends
        provider.supported(),
{
    if provider == LoginProvider::Google {
        "id_token"@
    } else {
        "access_token"@
    }
}

/// The five fields of the form that is posted to Google's token endpoint.
pub open spec fn google_form(
    code: Seq<char>,
    client_id: Seq<char>,
    client_secret: Seq<char>,
    port: u16,
) -> Seq<(Seq<char>, Seq<char>)> {
    seq![
        ("code"@, code),
        ("client_id"@, client_id),
        ("client_secret"@, client_secret),
        ("redirect_uri"@, redirect_uri(port)),
        ("grant_type"@, "authorization_code"@),
    ]
}

/// The address of Github's token endpoint, with the parameters in it.
pub open spec fn github_token_url(code: Seq<char>, client_id: Seq<char>, client_secret: Seq<char>) -> Seq<
    char,
> {
    "https://github.com/login/oauth/access_token?client_id="@ + client_id + "&client_secret="@
        + client_secret + "&code="@ + code
}

/// The request that trades an authorization code for a token of the provider.
#[derive(Debug)]
pub struct ProviderTokenRequest {
    /// Where the request is posted.
    pub url: String,
    /// The fields of the multipart form that is its body; empty where the
    /// parameters stand in the address.
    pub form: Vec<(String, String)>,
    /// Whether the answer is asked for as JSON by an `Accept` header.
    pub accept_json: bool,
    /// The field of the answer that holds the token.
    pub token_field: String,
}

impl ProviderTokenRequest {
    /// Whether this is the request by which `provider` trades `code` for its
    /// token: for Google a multipart form posted to the token endpoint, for
    /// Github a POST with the parameters in the address that asks for JSON.
    pub open spec fn fits(
        &self,
        provider: LoginProvider,
        client_id: Seq<char>,
        client_secret: Seq<char>,
        port: u16,
        code: Seq<char>,
    ) -> bool {
        &&& provider.supported()
        &&& self.token_field@ == token_field(provider)
        &&& provider == LoginProvider::Google ==> {
            &&& self.url@ == "https://www.googleapis.com/oauth2/v3/token"@
            &&& pairs_view(self.form@) == google_form(code, client_id, client_secret, port)
            &&& !self.accept_json
        }
        &&& provider == LoginProvider::Github ==> {
            &&& self.url@ == github_token_url(code, client_id, client_secret)
            &&& self.form@.len() == 0
            &&& self.accept_json
        }
    }
}

/// The request by which `provider` trades `code` for its token. There is none
/// for a provider that cannot be used to sign in.
pub fn provider_token_request(
    provider: LoginProvider,
    client_id: &str,
    client_secret: &str,
    port: u16,
    code: &str,
) -> (request: Option<ProviderTokenRequest>)
    ensures
        request is Some <==> provider.supported(),
        request matches Some(r) ==> r.fits(provider, client_id@, client_secret@, port, code@),
{
    match provider {
        LoginProvider::Google => {
            let mut form: Vec<(String, String)> = Vec::new();
            form.push((String::from_str("code"), String::from_str(code)));
            form.push((String::from_str("client_id"), String::from_str(client_id)));
            form.push((String::from_str("client_secret"), String::from_str(client_secret)));
            form.push((String::from_str("redirect_uri"), write_redirect_uri(port)));
            form.push((String::from_str("grant_type"), String::from_str("authorization_code")));
            assert(pairs_view(form@) =~= google_form(code@, client_id@, client_secret@, port));
            Some(
                ProviderTokenRequest {
                    url: String::from_str("https://www.googleapis.com/oauth2/v3/token"),
                    form,
                    accept_json: false,
                    token_field: String::from_str("id_token"),
                },
            )
        },
        LoginProvider::Github => {
            let mut url = String::from_str("https://github.com/login/oauth/access_token?client_id=");
            url.append(client_id);
            url.append("&client_secret=");
            url.append(client_secret);
            url.append("&code=");
            url.append(code);
            Some(
                ProviderTokenRequest {
                    url,
                    form: Vec::new(),
                    accept_json: true,
                    token_field: String::from_str("access_token"),
                },
            )
        },
        _ => None,
    }
}

/// The address at which a token of a provider is traded for a session.
pub open spec fn sign_in_url(emulator: Option<Seq<char>>, api_key: Seq<char>) -> Seq<char> {
    service_root(emulator, "identitytoolkit.googleapis.com"@) + "/v1/accounts:signInWithIdp?key="@
        + api_key
}

/// The `postBody` of the sign-in: the provider's token under its name, and
/// the provider's identifier.
pub open spec fn post_body(provider: LoginProvider, provider_token: Seq<char>) -> Seq<char>
    recommends
        provider.supported(),
{
    token_field(provider) + "="@ + provider_token + "&providerId="@ + provider_id(provider)
}

/// The request that trades a token of a provider for a session of the
/// platform. Its body is a JSON object of the four fields after `url`, under
/// the names `postBody`, `requestUri`, `returnIdpCredential` and
/// `returnSecureToken`.
#[derive(Debug)]
pub struct SignInRequest {
    pub url: String,
    pub post_body: String,
    pub request_uri: String,
    pub return_idp_credential: bool,
    pub return_secure_token: bool,
}

/// The request that signs in with the token that `provider` returned.
pub fn sign_in_request(
    provider: LoginProvider,
    provider_token: &str,
    port: u16,
    api_key: &str,
    emulator: &Option<String>,
) -> (request: Option<SignInRequest>)
    ensures
        request is Some <==> provider.supported(),
        request matches Some(r) ==> {
            &&& r.url@ == sign_in_url(optional_view(*emulator), api_key@)
            &&& r.post_body@ == post_body(provider, provider_token@)
            &&& r.request_uri@ == redirect_uri(port)
            &&& r.return_idp_credential
            &&& r.return_secure_token
        },
{
    let mut body = match provider {
        LoginProvider::Google => String::from_str("id_token"),
        LoginProvider::Github => String::from_str("access_token"),
        _ => {
            return None;
        },
    };
    body.append("=");
    body.append(provider_token);
    body.append("&providerId=");
    match provider {
        LoginProvider::Google => body.append("google.com"),
        _ => body.append("github.com"),
    }
    let mut url = write_service_root(emulator, "identitytoolkit.googleapis.com");
    url.append("/v1/accounts:signInWithIdp?key=");
    url.append(api_key);
    Some(
        SignInRequest {
            url,
            post_body: body,
            request_uri: write_redirect_uri(port),
            return_idp_credential: true,
            return_secure_token: true,
        },
    )
}

/// The address at which a refresh token is traded for a renewed session.
pub open spec fn refresh_url(emulator: Option<Seq<char>>, api_key: Seq<char>) -> Seq<char> {
    service_root(emulator, "securetoken.googleapis.com"@) + "/v1/token?key="@ + api_key
}

/// The body of the renewal.
pub open spec fn refresh_body(refresh_token: Seq<char>) -> Seq<char> {
    "grant_type=refresh_token&refresh_token="@ + refresh_token
}

/// The request that renews a session: a POST of `body` to `url` under the
/// given content type.
#[derive(Debug)]
pub struct RefreshRequest {
    pub url: String,
    pub content_type: String,
    pub body: String,
}

/// The request that renews the session of `refresh_token`.
pub fn refresh_login(refresh_token: &str, api_key: &str, emulator: &Option<String>) -> (request:
    RefreshRequest)
    ensures
        request.url@ == refresh_url(optional_view(*emulator), api_key@),
        request.content_type@ == "application/x-www-form-urlencoded"@,
        request.body@ == refresh_body(refresh_token@),
{
    let mut url = write_service_root(emulator, "securetoken.googleapis.com");
    url.append("/v1/token?key=");
    url.append(api_key);
    RefreshRequest {
        url,
        content_type: String::from_str("application/x-www-form-urlencoded"),
        body: join2("grant_type=refresh_token&refresh_token=", refresh_token),
    }
}

/// The address at which an account is deleted.
pub open spec fn delete_account_url(emulator: Option<Seq<char>>, api_key: Seq<char>) -> Seq<char> {
    service_root(emulator, "identitytoolkit.googleapis.com"@) + "/v1/accounts:delete?key="@ + api_key
}

/// The request that deletes the account of a session: a POST to `url` of a
/// JSON object whose one field, `idToken`, holds `id_token`.
#[derive(Debug)]
pub struct DeleteAccountRequest {
    pub url: String,
    pub content_type: String,
    pub id_token: String,
}

/// The request that deletes the account to which `id_token` belongs.
pub fn delete_account(id_token: &str, api_key: &str, emulator: &Option<String>) -> (request:
    DeleteAccountRequest)
    ensures
        request.url@ == delete_account_url(optional_view(*emulator), api_key@),
        request.content_type@ == "application/json"@,
        request.id_token@ == id_token@,
{
    let mut url = write_service_root(emulator, "identitytoolkit.googleapis.com");
    url.append("/v1/accounts:delete?key=");
    url.append(api_key);
    DeleteAccountRequest {
        url,
        content_type: String::from_str("application/json"),
        id_token: String::from_str(id_token),
    }
}

/// An authorization code together with the provider that it came from.
#[derive(Debug)]
pub struct AuthCodeEvent(pub (LoginProvider, String));

/// What the exchange of an authorization code needs: the request for the
/// provider's token, and the provider and port for the sign-in that follows.
#[derive(Debug)]
pub struct CodeExchange {
    pub provider: LoginProvider,
    pub port: u16,
    pub token_request: ProviderTokenRequest,
}

impl CodeExchange {
    /// Whether this is the exchange of `code`, which came from `provider`,
    /// with the keys that `keys` holds for that provider.
    pub open spec fn fits(
        &self,
        provider: LoginProvider,
        code: Seq<char>,
        keys: Seq<(LoginProvider, KeysView)>,
        port: u16,
    ) -> bool {
        &&& self.provider == provider
        &&& self.port == port
        &&& lookup(keys, provider) matches Some(Some((client_id, client_secret)))
        &&& self.token_request.fits(provider, client_id, client_secret, port, code)
    }
}

/// Whether a code from `provider` can be exchanged: the provider can be used
/// to sign in and was configured with keys.
pub open spec fn can_exchange(provider: LoginProvider, keys: Seq<(LoginProvider, KeysView)>) -> bool {
    provider.supported() && (lookup(keys, provider) matches Some(Some(_)))
}

/// Starts the exchange of the code in `event`, where it can be exchanged.
pub fn auth_code_to_firebase_token(event: &AuthCodeEvent, login_keys: &LoginKeys, port: u16) -> (exchange:
    Option<CodeExchange>)
    ensures
        exchange is Some <==> can_exchange(event.0.0, login_keys@),
        exchange matches Some(x) ==> x.fits(event.0.0, event.0.1@, login_keys@, port),
{
    let provider = event.0.0;
    match login_keys.get(provider) {
        Some(Some(pair)) => {
            match provider_token_request(
                provider,
                pair.0.as_str(),
                pair.1.as_str(),
                port,
                event.0.1.as_str(),
            ) {
                Some(token_request) => Some(CodeExchange { provider, port, token_request }),
                None => None,
            }
        },
        _ => None,
    }
}

} // verus!
