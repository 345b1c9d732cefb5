use ota_cli::auth_plus::{AccessToken, AuthPlus, Credentials, OAuth2, Ostree};
use ota_cli::config::{Config, TokenStep};
use ota_cli::error::Error;
use ota_cli::http::Http;

fn token(scope: Option<&str>) -> AccessToken {
    AccessToken { access_token: "secret-token".to_string(), scope: scope.map(String::from) }
}

fn oauth2() -> OAuth2 {
    OAuth2 {
        server: "https://auth.example.com".to_string(),
        client_id: "client".to_string(),
        client_secret: "shh".to_string(),
    }
}

fn credentials(no_auth: Option<bool>, oauth2: Option<OAuth2>) -> Credentials {
    Credentials { no_auth, oauth2, ostree: Ostree { server: "https://ostree.example.com/".to_string() } }
}

fn config() -> Config {
    Config::init(
        "/tmp/credentials.zip".to_string(),
        "https://campaigner.example.com/".to_string(),
        "https://director.example.com/".to_string(),
        "https://registry.example.com/".to_string(),
        "https://reposerver.example.com/".to_string(),
    )
}

#[test]
fn namespace_from_single_entry() {
    let t = token(Some("read write namespace.acme other"));
    assert_eq!(t.namespace().expect("namespace"), "acme");
}

#[test]
fn namespace_ignores_surrounding_white_space() {
    let t = token(Some("\tnamespace.fleet-1\n  x.y\u{3000}"));
    assert_eq!(t.namespace().expect("namespace"), "fleet-1");
}

#[test]
fn namespace_strips_the_prefix_once() {
    let t = token(Some("namespace.namespace.inner"));
    assert_eq!(t.namespace().expect("namespace"), "namespace.inner");
}

#[test]
fn namespace_missing_is_an_error() {
    for scope in [None, Some(""), Some("read write"), Some("xnamespace.a namespace")] {
        match token(scope).namespace() {
            Err(Error::Token(m)) => assert_eq!(m, "namespace not found"),
            other => panic!("unexpected: {:?}", other),
        }
    }
}

#[test]
fn namespace_twice_is_an_error() {
    match token(Some("namespace.a read namespace.b")).namespace() {
        Err(Error::Token(m)) => assert_eq!(m, "multiple namespaces found: [\"a\", \"b\"]"),
        other => panic!("unexpected: {:?}", other),
    }
}

#[test]
fn first_step_reads_credentials() {
    assert!(matches!(config().token_step(), Ok(TokenStep::ReadCredentials)));
}

#[test]
fn no_auth_gives_no_token_and_no_request() {
    let mut c = config();
    c.set_credentials(credentials(Some(true), Some(oauth2())));
    assert!(matches!(c.token_step(), Ok(TokenStep::Ready(None))));
}

#[test]
fn missing_auth_method_is_an_auth_error() {
    let mut c = config();
    c.set_credentials(credentials(Some(false), None));
    match c.token_step() {
        Err(Error::Auth(m)) => assert_eq!(m, "no parseable auth method from credentials.zip"),
        other => panic!("unexpected: {:?}", other),
    }
    let mut c = config();
    c.set_credentials(credentials(None, None));
    assert!(matches!(c.token_step(), Err(Error::Auth(_))));
}

#[test]
fn oauth2_credentials_ask_for_a_token() {
    let mut c = config();
    c.set_credentials(credentials(None, Some(oauth2())));
    match c.token_step() {
        Ok(TokenStep::Request(r)) => {
            assert_eq!(r.url, "https://auth.example.com/token");
            assert_eq!(r.client_id, "client");
            assert_eq!(r.client_secret, "shh");
            assert_eq!(r.grant_type, "client_credentials");
        }
        other => panic!("unexpected: {:?}", other),
    }
}

#[test]
fn stored_token_is_reused_without_request() {
    let mut c = config();
    c.set_credentials(credentials(None, Some(oauth2())));
    assert!(matches!(c.token_step(), Ok(TokenStep::Request(_))));
    c.store_token(token(Some("namespace.acme")));
    for _ in 0..2 {
        match c.token_step() {
            Ok(TokenStep::Ready(Some(t))) => {
                assert_eq!(t.access_token, "secret-token");
                assert_eq!(t.scope.as_deref(), Some("namespace.acme"));
            }
            other => panic!("unexpected: {:?}", other),
        }
    }
}

#[test]
fn token_request_posts_to_token_endpoint() {
    let r = AuthPlus::token_request(&oauth2());
    assert_eq!(r.url, "https://auth.example.com/token");
}

#[test]
fn credentials_choose_auth_method() {
    assert!(matches!(credentials(Some(true), None).oauth2(), Ok(None)));
    match credentials(Some(false), Some(oauth2())).oauth2() {
        Ok(Some(o)) => assert_eq!(o.client_id, "client"),
        other => panic!("unexpected: {:?}", other),
    }
}

#[test]
fn request_auth_with_namespace() {
    let a = Http::auth(&Some(token(Some("namespace.acme"))));
    assert_eq!(a.bearer.as_deref(), Some("secret-token"));
    assert_eq!(a.namespace.expect("token given").expect("namespace"), "acme");
}

#[test]
fn request_auth_without_namespace_still_has_bearer() {
    let a = Http::auth(&Some(token(None)));
    assert_eq!(a.bearer.as_deref(), Some("secret-token"));
    assert!(matches!(a.namespace, Some(Err(Error::Token(_)))));
}

#[test]
fn request_auth_without_token() {
    let a = Http::auth(&None);
    assert!(a.bearer.is_none());
    assert!(a.namespace.is_none());
}
