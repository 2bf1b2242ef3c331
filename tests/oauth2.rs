use std::path::PathBuf;

use aurl::oauth2::{
    authorization_code, ok_or, random, state_from, AccessToken, AccessTokenError,
    GrantPlan, GrantType, OAuth2Config,
};
use aurl::profile::InvalidConfig;

fn config(grant_type: GrantType) -> OAuth2Config {
    OAuth2Config {
        auth_server_auth_endpoint: Some("https://auth.example/authorize".to_string()),
        auth_server_token_endpoint: Some("https://auth.example/token".to_string()),
        client_id: Some("cid".to_string()),
        client_secret: Some("secret".to_string()),
        scopes: Some("root".to_string()),
        username: Some("alice".to_string()),
        password: Some("pw".to_string()),
        grant_type,
        redirect: Some("https://app.example/cb".to_string()),
        default_content_type: None,
        default_user_agent: None,
        default_auth_header_template: None,
    }
}

fn pairs(v: &[(&str, &str)]) -> Vec<(String, String)> {
    v.iter().map(|(a, b)| (a.to_string(), b.to_string())).collect()
}

fn config_error(e: AccessTokenError) -> String {
    match e {
        AccessTokenError::InvalidConfig(m) => m,
        _ => panic!("not a configuration error"),
    }
}

#[test]
fn test_cache_path() {
    let home = dirs::home_dir().unwrap();
    let home = home.to_str().unwrap();
    let expected = PathBuf::from(format!("{}/.aurl/token/test.json", home));

    let actual = AccessToken::cache_file("test").unwrap();

    assert_eq!(expected, PathBuf::from(actual));
}

#[test]
fn cache_path_is_built_from_home_and_profile() {
    assert_eq!(AccessToken::cache_file_in("/home/u", "work"), "/home/u/.aurl/token/work.json");
    assert_eq!(AccessToken::cache_file_in("/home/u", "work"), AccessToken::cache_file_in("/home/u", "work"));
    assert_eq!(AccessToken::basedir_in("/root"), "/root/.aurl");
}

#[test]
fn ttl_is_issue_time_plus_lifetime() {
    assert_eq!(AccessToken::ttl_at(1_700_000_000, 3600), Some(1_700_003_600));
    assert_eq!(AccessToken::ttl_at(u64::MAX, 1), None);
    assert_eq!(AccessToken::ttl_at(u64::MAX - 1, 1), Some(u64::MAX));
    let t = AccessToken::calc_ttl(3600).unwrap();
    assert!(t > 3600);
}

fn token() -> AccessToken {
    AccessToken {
        access_token: "aaaaaa".to_string(),
        token_type: "bearer".to_string(),
        expires_in: 3600,
        id_token: None,
        refresh_token: None,
        scope: Some("root".to_string()),
        ttl: None,
    }
}

#[test]
fn stamping_sets_only_the_ttl() {
    let mut t = token();
    assert!(t.stamp_ttl_at(100));
    assert_eq!(t.ttl, Some(3700));
    assert_eq!(t.access_token, "aaaaaa");
    assert_eq!(t.token_type, "bearer");
    assert_eq!(t.expires_in, 3600);
    assert_eq!(t.scope, Some("root".to_string()));
    assert_eq!(t.refresh_token, None);

    let mut t = token();
    assert!(!t.stamp_ttl_at(u64::MAX));
    assert_eq!(t.ttl, None);

    let mut t = token();
    assert!(t.stamp_ttl());
    assert!(t.ttl.unwrap() > 3600);
}

#[test]
fn grant_type_names() {
    assert_eq!(GrantType::from_str("password").ok(), Some(GrantType::Password));
    assert_eq!(GrantType::from_str("authorization_code").ok(), Some(GrantType::AuthorizationCode));
    assert_eq!(GrantType::from_str("auth").ok(), Some(GrantType::AuthorizationCode));
    assert_eq!(GrantType::from_str("client_credentials").ok(), Some(GrantType::ClientCredentials));
    assert_eq!(GrantType::from_str("client").ok(), Some(GrantType::ClientCredentials));
    match GrantType::from_str("implicit") {
        Err(InvalidConfig::InvalidGrantType(s)) => assert_eq!(s, "implicit"),
        _ => panic!("expected an invalid grant type"),
    }
}

#[test]
fn missing_fields_are_named() {
    let mut c = config(GrantType::Password);
    assert_eq!(c.client_id().ok(), Some("cid".to_string()));
    c.client_id = None;
    assert_eq!(config_error(c.client_id().unwrap_err()), "client_id");
    c.redirect = None;
    assert_eq!(config_error(c.redirect().unwrap_err()), "redirect");
    assert_eq!(config_error(ok_or::<u8>(None, "scopes").unwrap_err()), "scopes");
    assert_eq!(ok_or(Some(3u8), "scopes").ok(), Some(3));
}

#[test]
fn password_grant_request() {
    let c = config(GrantType::Password);
    let r = c.password_request().ok().unwrap();
    assert_eq!(r.endpoint, "https://auth.example/token");
    assert_eq!(r.client_id, "cid");
    assert_eq!(r.client_secret, Some("secret".to_string()));
    assert_eq!(r.user_agent, "aurl");
    assert_eq!(
        r.form,
        pairs(&[("grant_type", "password"), ("scope", "root"), ("username", "alice"), ("password", "pw")])
    );
}

#[test]
fn client_credentials_grant_request() {
    let mut c = config(GrantType::ClientCredentials);
    c.default_user_agent = Some("agent/1".to_string());
    c.username = None;
    match GrantType::ClientCredentials.plan(&c, "st").ok().unwrap() {
        GrantPlan::Token(r) => {
            assert_eq!(r.user_agent, "agent/1");
            assert_eq!(r.form, pairs(&[("grant_type", "client_credentials"), ("scope", "root")]));
        }
        GrantPlan::Authorize(_) => panic!("expected a token request"),
    }
}

#[test]
fn first_missing_field_fails_before_any_request() {
    let mut c = config(GrantType::Password);
    c.password = None;
    c.scopes = None;
    assert_eq!(config_error(c.password_request().err().unwrap()), "scopes");
    c.auth_server_token_endpoint = None;
    assert_eq!(config_error(c.password_request().err().unwrap()), "auth_server_token_endpoint");
    let mut c = config(GrantType::AuthorizationCode);
    c.redirect = None;
    assert_eq!(config_error(GrantType::AuthorizationCode.plan(&c, "s").err().unwrap()), "redirect");
}

#[test]
fn authorization_code_grant_needs_token_endpoint_before_browser() {
    let mut c = config(GrantType::AuthorizationCode);
    c.auth_server_token_endpoint = None;
    assert_eq!(
        config_error(GrantType::AuthorizationCode.plan(&c, "s").err().unwrap()),
        "auth_server_token_endpoint"
    );
    c.scopes = None;
    assert_eq!(config_error(GrantType::AuthorizationCode.plan(&c, "s").err().unwrap()), "scopes");
}

#[test]
fn authorization_code_grant_requests() {
    let c = config(GrantType::AuthorizationCode);
    match GrantType::AuthorizationCode.plan(&c, "xyz").ok().unwrap() {
        GrantPlan::Authorize(a) => {
            assert_eq!(a.endpoint, "https://auth.example/authorize");
            assert_eq!(
                a.query,
                pairs(&[
                    ("response_type", "code"),
                    ("client_id", "cid"),
                    ("scope", "root"),
                    ("state", "xyz"),
                    ("redirect_uri", "https://app.example/cb"),
                ])
            );
        }
        GrantPlan::Token(_) => panic!("expected an authorization request"),
    }
    let r = c.code_exchange_request("the-code").ok().unwrap();
    assert_eq!(
        r.form,
        pairs(&[
            ("code", "the-code"),
            ("grant_type", "authorization_code"),
            ("redirect_uri", "https://app.example/cb"),
        ])
    );
}

#[test]
fn typed_code_is_trimmed_and_blank_lines_refused() {
    assert_eq!(authorization_code("  abc \n"), Some("abc".to_string()));
    assert_eq!(authorization_code("\n"), None);
    assert_eq!(authorization_code("   "), None);
}

#[test]
fn state_is_base64_of_random_bytes() {
    assert_eq!(state_from(&[0, 0, 0, 1]), "AAAAAQ==");
    assert_eq!(state_from(&[1, 2, 3, 4]), "AQIDBA==");
    assert_eq!(state_from(&[255; 16]).len(), 24);
    let a = random().unwrap();
    let b = random().unwrap();
    assert_eq!(a.len(), 24);
    assert_ne!(a, b);
}
