use bevy_firebase::exchange::{
    auth_code_to_firebase_token, delete_account, provider_token_request, refresh_login,
    sign_in_request, write_redirect_uri, AuthCodeEvent,
};
use bevy_firebase::provider::{
    init_login, make_authorization_url, write_authorization_url, LoginKeys, LoginProvider,
};
use bevy_firebase::redirect::{
    accept_step, confirmation_response, find_code, read_redirect_code, read_request_target,
    write_ok_response, AcceptAction, AcceptEvent,
};
use bevy_firebase::text::{decimal_string, is_whitespace, join2, join3};

fn keys(id: &str, secret: &str) -> Option<(String, String)> {
    Some((id.to_string(), secret.to_string()))
}

const ALL_PROVIDERS: [LoginProvider; 12] = [
    LoginProvider::Google,
    LoginProvider::Github,
    LoginProvider::EmailPassword,
    LoginProvider::Apple,
    LoginProvider::Phone,
    LoginProvider::Anonymous,
    LoginProvider::GooglePlayGames,
    LoginProvider::AppleGameCenter,
    LoginProvider::Facebook,
    LoginProvider::Twitter,
    LoginProvider::Microsoft,
    LoginProvider::Yahoo,
];

#[test]
fn decimal_notation_of_numbers() {
    assert_eq!(decimal_string(0), "0");
    assert_eq!(decimal_string(7), "7");
    assert_eq!(decimal_string(10), "10");
    assert_eq!(decimal_string(42), "42");
    assert_eq!(decimal_string(51000), "51000");
    assert_eq!(decimal_string(65535), "65535");
    assert_eq!(decimal_string(u64::MAX), "18446744073709551615");
}

#[test]
fn decimal_notation_agrees_with_std() {
    let mut n: u64 = 0;
    while n < 70000 {
        assert_eq!(decimal_string(n), n.to_string());
        n += 1;
    }
}

#[test]
fn whitespace_is_what_std_calls_whitespace() {
    let mut u: u32 = 0;
    while u <= 0x10FFFF {
        if let Some(c) = char::from_u32(u) {
            assert_eq!(is_whitespace(c), c.is_whitespace(), "code point {:x}", u);
        }
        u += 1;
    }
}

#[test]
fn joins_concatenate() {
    assert_eq!(join2("ab", "cd"), "abcd");
    assert_eq!(join2("", ""), "");
    assert_eq!(join3("a", "", "c"), "ac");
}

#[test]
fn google_authorization_url_is_written_with_port_and_client_id() {
    let text = write_authorization_url(LoginProvider::Google, 51000, "my-client").unwrap();
    assert_eq!(
        text,
        "https://accounts.google.com/o/oauth2/v2/auth?scope=openid profile email&response_type=code&redirect_uri=http://127.0.0.1:51000&client_id=my-client"
    );
}

#[test]
fn github_authorization_url_is_written_with_port_and_client_id() {
    let text = write_authorization_url(LoginProvider::Github, 8, "gh").unwrap();
    assert_eq!(
        text,
        "https://github.com/login/oauth/authorize?scope=read:user&redirect_uri=http://127.0.0.1:8&client_id=gh"
    );
}

#[test]
fn every_supported_provider_gets_a_url_with_port_and_client_id() {
    for provider in ALL_PROVIDERS {
        for port in [0u16, 1, 80, 51000, 65535] {
            let written = write_authorization_url(provider, port, "client-7");
            let made = make_authorization_url(provider, port, "client-7");
            assert_eq!(written.is_some(), provider.is_supported());
            assert_eq!(made.is_some(), provider.is_supported());
            if let Some(text) = written {
                assert!(text.contains(&port.to_string()));
                assert!(text.contains("client-7"));
            }
            if let Some(url) = made {
                assert!(url.contains(&format!("redirect_uri=http://127.0.0.1:{}&", port)));
                assert!(url.ends_with("&client_id=client-7"));
            }
        }
    }
}

#[test]
fn only_google_and_github_are_supported() {
    let supported: Vec<LoginProvider> =
        ALL_PROVIDERS.into_iter().filter(|p| p.is_supported()).collect();
    assert_eq!(supported, vec![LoginProvider::Google, LoginProvider::Github]);
}

#[test]
fn authorization_url_is_brought_into_normal_form() {
    let url = make_authorization_url(LoginProvider::Google, 51000, "cid").unwrap();
    assert_eq!(
        url,
        "https://accounts.google.com/o/oauth2/v2/auth?scope=openid%20profile%20email&response_type=code&redirect_uri=http://127.0.0.1:51000&client_id=cid"
    );
    let written = write_authorization_url(LoginProvider::Google, 51000, "cid").unwrap();
    assert_ne!(url, written);
}

#[test]
fn login_keys_hold_one_entry_for_each_provider() {
    let mut login_keys = LoginKeys::new();
    assert_eq!(login_keys.len(), 0);
    assert!(login_keys.get(LoginProvider::Google).is_none());
    login_keys.insert(LoginProvider::Google, keys("a", "b"));
    login_keys.insert(LoginProvider::Github, None);
    login_keys.insert(LoginProvider::Google, keys("c", "d"));
    assert_eq!(login_keys.len(), 2);
    assert_eq!(login_keys.provider_at(0), LoginProvider::Google);
    assert_eq!(login_keys.provider_at(1), LoginProvider::Github);
    assert_eq!(login_keys.keys_at(0), &keys("c", "d"));
    assert_eq!(login_keys.get(LoginProvider::Google), Some(&keys("c", "d")));
    assert_eq!(login_keys.get(LoginProvider::Github), Some(&None));
    assert_eq!(login_keys.get(LoginProvider::Yahoo), None);
}

#[test]
fn init_login_announces_a_url_for_each_usable_provider() {
    let mut login_keys = LoginKeys::new();
    login_keys.insert(LoginProvider::Github, keys("gh-id", "gh-secret"));
    login_keys.insert(LoginProvider::Facebook, keys("fb-id", "fb-secret"));
    login_keys.insert(LoginProvider::Google, None);
    let event = init_login(&login_keys, 4321);
    assert_eq!(
        event.0,
        vec![
            (
                LoginProvider::Github,
                "https://github.com/login/oauth/authorize?scope=read:user&redirect_uri=http://127.0.0.1:4321&client_id=gh-id".to_string()
            ),
            (
                LoginProvider::Google,
                "https://accounts.google.com/o/oauth2/v2/auth?scope=openid%20profile%20email&response_type=code&redirect_uri=http://127.0.0.1:4321&client_id=".to_string()
            ),
        ]
    );
}

#[test]
fn init_login_without_keys_announces_nothing() {
    let event = init_login(&LoginKeys::new(), 1);
    assert!(event.0.is_empty());
}

#[test]
fn request_target_is_the_second_word() {
    assert_eq!(
        read_request_target("GET /?code=abc HTTP/1.1\r\n"),
        Some("/?code=abc".to_string())
    );
    assert_eq!(read_request_target("  GET \t /x"), Some("/x".to_string()));
    assert_eq!(read_request_target("GET\u{a0}/y\u{3000}HTTP/1.1"), Some("/y".to_string()));
    assert_eq!(read_request_target("a b c d"), Some("b".to_string()));
}

#[test]
fn request_target_is_missing_from_short_lines() {
    assert_eq!(read_request_target(""), None);
    assert_eq!(read_request_target("   "), None);
    assert_eq!(read_request_target("GET"), None);
    assert_eq!(read_request_target("GET \r\n"), None);
}

#[test]
fn request_target_agrees_with_split_whitespace() {
    let lines = [
        "GET /?code=abc HTTP/1.1\r\n",
        "POST  /a/b?x=1&code=9   HTTP/1.0",
        "\t\tx\ty\tz",
        "one",
        "",
        " é   ü ",
    ];
    for line in lines {
        assert_eq!(
            read_request_target(line),
            line.split_whitespace().nth(1).map(|word| word.to_string())
        );
    }
}

#[test]
fn code_is_read_from_the_redirect() {
    assert_eq!(
        read_redirect_code("GET /?code=abc123 HTTP/1.1\r\n"),
        Some("abc123".to_string())
    );
    assert_eq!(
        read_redirect_code("GET /callback?state=s&code=4%2F0Ab+c&scope=email HTTP/1.1"),
        Some("4/0Ab c".to_string())
    );
    assert_eq!(read_redirect_code("GET /?code=first&code=second HTTP/1.1"), Some("first".to_string()));
    assert_eq!(read_redirect_code("GET /?code= HTTP/1.1"), Some(String::new()));
    assert_eq!(read_redirect_code("GET /?code HTTP/1.1"), Some(String::new()));
}

#[test]
fn redirect_without_code_gives_none() {
    assert_eq!(read_redirect_code("GET / HTTP/1.1"), None);
    assert_eq!(read_redirect_code("GET /favicon.ico HTTP/1.1"), None);
    assert_eq!(read_redirect_code("GET /?error=access_denied HTTP/1.1"), None);
    assert_eq!(read_redirect_code("GET /?Code=abc HTTP/1.1"), None);
    assert_eq!(read_redirect_code("GET /?xcode=abc&codex=d HTTP/1.1"), None);
    assert_eq!(read_redirect_code("GET"), None);
    assert_eq!(read_redirect_code(""), None);
}

#[test]
fn redirect_target_that_is_no_path_gives_none() {
    assert_eq!(read_redirect_code("GET :99999999/?code=abc HTTP/1.1"), None);
}

#[test]
fn find_code_takes_the_first_pair_named_code() {
    let pairs = vec![
        ("state".to_string(), "1".to_string()),
        ("code".to_string(), "a".to_string()),
        ("code".to_string(), "b".to_string()),
    ];
    assert_eq!(find_code(&pairs), Some("a".to_string()));
    assert_eq!(find_code(&Vec::new()), None);
    assert_eq!(find_code(&vec![("cod".to_string(), "e".to_string())]), None);
    assert_eq!(find_code(&vec![("a".to_string(), "code".to_string())]), None);
}

#[test]
fn confirmation_page_has_matching_content_length() {
    assert_eq!(
        confirmation_response(),
        "HTTP/1.1 200 OK\r\ncontent-length: 42\r\n\r\nLogin Complete! You can close this window."
    );
}

#[test]
fn ok_response_counts_bytes() {
    assert_eq!(write_ok_response(""), "HTTP/1.1 200 OK\r\ncontent-length: 0\r\n\r\n");
    assert_eq!(write_ok_response("é"), "HTTP/1.1 200 OK\r\ncontent-length: 2\r\n\r\né");
}

#[test]
fn accept_loop_serves_one_connection() {
    match accept_step(&AcceptEvent::Connection("GET /?code=abc123 HTTP/1.1\r\n".to_string())) {
        AcceptAction::Reply { code, response } => {
            assert_eq!(code, Some("abc123".to_string()));
            assert_eq!(response, confirmation_response());
        }
        other => panic!("unexpected {:?}", other),
    }
    match accept_step(&AcceptEvent::Connection("GET /favicon.ico HTTP/1.1\r\n".to_string())) {
        AcceptAction::Reply { code, response } => {
            assert_eq!(code, None);
            assert_eq!(response, confirmation_response());
        }
        other => panic!("unexpected {:?}", other),
    }
}

#[test]
fn accept_loop_sleeps_sixty_frames_when_nothing_waits() {
    assert!(matches!(accept_step(&AcceptEvent::WouldBlock), AcceptAction::Sleep(60)));
}

#[test]
fn accept_loop_gives_up_on_failure() {
    assert!(matches!(accept_step(&AcceptEvent::Failed), AcceptAction::Abort));
}

#[test]
fn redirect_uri_names_the_loopback_port() {
    assert_eq!(write_redirect_uri(51000), "http://127.0.0.1:51000");
    assert_eq!(write_redirect_uri(0), "http://127.0.0.1:0");
}

#[test]
fn google_token_request_is_a_form() {
    let request =
        provider_token_request(LoginProvider::Google, "cid", "secret", 51000, "abc123").unwrap();
    assert_eq!(request.url, "https://www.googleapis.com/oauth2/v3/token");
    assert_eq!(
        request.form,
        vec![
            ("code".to_string(), "abc123".to_string()),
            ("client_id".to_string(), "cid".to_string()),
            ("client_secret".to_string(), "secret".to_string()),
            ("redirect_uri".to_string(), "http://127.0.0.1:51000".to_string()),
            ("grant_type".to_string(), "authorization_code".to_string()),
        ]
    );
    assert!(!request.accept_json);
    assert_eq!(request.token_field, "id_token");
}

#[test]
fn github_token_request_has_its_parameters_in_the_address() {
    let request =
        provider_token_request(LoginProvider::Github, "cid", "secret", 51000, "abc123").unwrap();
    assert_eq!(
        request.url,
        "https://github.com/login/oauth/access_token?client_id=cid&client_secret=secret&code=abc123"
    );
    assert!(request.form.is_empty());
    assert!(request.accept_json);
    assert_eq!(request.token_field, "access_token");
}

#[test]
fn unsupported_provider_has_no_token_request() {
    assert!(provider_token_request(LoginProvider::Yahoo, "a", "b", 1, "c").is_none());
    assert!(sign_in_request(LoginProvider::Apple, "t", 1, "k", &None).is_none());
}

#[test]
fn sign_in_request_for_google() {
    let request = sign_in_request(LoginProvider::Google, "Gtok", 51000, "KEY", &None).unwrap();
    assert_eq!(
        request.url,
        "https://identitytoolkit.googleapis.com/v1/accounts:signInWithIdp?key=KEY"
    );
    assert_eq!(request.post_body, "id_token=Gtok&providerId=google.com");
    assert_eq!(request.request_uri, "http://127.0.0.1:51000");
    assert!(request.return_idp_credential);
    assert!(request.return_secure_token);
}

#[test]
fn sign_in_request_for_github_on_the_emulator() {
    let emulator = Some("http://127.0.0.1:9099".to_string());
    let request = sign_in_request(LoginProvider::Github, "tok", 7, "KEY", &emulator).unwrap();
    assert_eq!(
        request.url,
        "http://127.0.0.1:9099/identitytoolkit.googleapis.com/v1/accounts:signInWithIdp?key=KEY"
    );
    assert_eq!(request.post_body, "access_token=tok&providerId=github.com");
    assert_eq!(request.request_uri, "http://127.0.0.1:7");
}

#[test]
fn refresh_request_posts_the_refresh_token() {
    let request = refresh_login("r1", "KEY", &None);
    assert_eq!(request.url, "https://securetoken.googleapis.com/v1/token?key=KEY");
    assert_eq!(request.content_type, "application/x-www-form-urlencoded");
    assert_eq!(request.body, "grant_type=refresh_token&refresh_token=r1");
    let emulated = refresh_login("r1", "KEY", &Some("http://e".to_string()));
    assert_eq!(emulated.url, "http://e/securetoken.googleapis.com/v1/token?key=KEY");
}

#[test]
fn delete_account_request_names_the_session() {
    let request = delete_account("Ftok", "KEY", &None);
    assert_eq!(request.url, "https://identitytoolkit.googleapis.com/v1/accounts:delete?key=KEY");
    assert_eq!(request.content_type, "application/json");
    assert_eq!(request.id_token, "Ftok");
    let emulated = delete_account("Ftok", "KEY", &Some("http://e".to_string()));
    assert_eq!(emulated.url, "http://e/identitytoolkit.googleapis.com/v1/accounts:delete?key=KEY");
}

#[test]
fn exchange_needs_configured_keys() {
    let mut login_keys = LoginKeys::new();
    login_keys.insert(LoginProvider::Google, keys("cid", "secret"));
    login_keys.insert(LoginProvider::Github, None);
    login_keys.insert(LoginProvider::Twitter, keys("t", "s"));
    let google = AuthCodeEvent((LoginProvider::Google, "abc123".to_string()));
    let exchange = auth_code_to_firebase_token(&google, &login_keys, 51000).unwrap();
    assert_eq!(exchange.provider, LoginProvider::Google);
    assert_eq!(exchange.port, 51000);
    assert_eq!(exchange.token_request.form[0], ("code".to_string(), "abc123".to_string()));
    assert_eq!(exchange.token_request.form[1], ("client_id".to_string(), "cid".to_string()));
    let github = AuthCodeEvent((LoginProvider::Github, "abc123".to_string()));
    assert!(auth_code_to_firebase_token(&github, &login_keys, 51000).is_none());
    let twitter = AuthCodeEvent((LoginProvider::Twitter, "abc123".to_string()));
    assert!(auth_code_to_firebase_token(&twitter, &login_keys, 51000).is_none());
    let yahoo = AuthCodeEvent((LoginProvider::Yahoo, "abc123".to_string()));
    assert!(auth_code_to_firebase_token(&yahoo, &login_keys, 51000).is_none());
}
