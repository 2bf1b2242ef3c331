use aurl::dispatch::{Action, Dispatch, Event, Outcome};
use aurl::oauth2::{AccessTokenError, GrantType, OAuth2Config};
use aurl::profile::{config_from_section, lookup, profiles_from_sections, InvalidConfig, Profile};
use aurl::request::{
    build_headers, credential, redirect_action, split_custom_header, str_eq_ignore_case, validate_template, Credential, Redirect,
};
use aurl::text::{contains_str, eq_str, replace_str, split_once_exact};
use aurl::timeout::Timeout;

fn bare_config() -> OAuth2Config {
    OAuth2Config {
        auth_server_auth_endpoint: None,
        auth_server_token_endpoint: None,
        client_id: None,
        client_secret: None,
        scopes: None,
        username: None,
        password: None,
        grant_type: GrantType::ClientCredentials,
        redirect: None,
        default_content_type: None,
        default_user_agent: None,
        default_auth_header_template: None,
    }
}

fn message(e: AccessTokenError) -> String {
    match e {
        AccessTokenError::InvalidConfig(m) => m,
        _ => panic!("not a configuration error"),
    }
}

#[test]
fn template_with_placeholder_yields_header() {
    let (name, value) = split_custom_header("X-Auth=Bearer $TOKEN", "abc123").ok().unwrap();
    assert_eq!(name, "X-Auth");
    assert_eq!(value, "bearer abc123");
}

#[test]
fn template_without_equals_fails() {
    let e = split_custom_header("X-Auth", "abc123").err().unwrap();
    assert_eq!(message(e), "invalid custom_header_template");
    let e = split_custom_header("X=a=$token", "abc123").err().unwrap();
    assert_eq!(message(e), "invalid custom_header_template");
}

#[test]
fn template_without_placeholder_fails() {
    let e = split_custom_header("X-Auth=Bearer xyz", "abc123").err().unwrap();
    assert_eq!(message(e), "can't find '$token' placeholder");
}

#[test]
fn template_value_is_trimmed_and_every_placeholder_replaced() {
    let (name, value) = split_custom_header("K= $Token-$TOKEN ", "T").ok().unwrap();
    assert_eq!(name, "K");
    assert_eq!(value, "T-T");
}

#[test]
fn credential_defaults_to_bearer() {
    match credential(&None, "tok").ok().unwrap() {
        Credential::Bearer(t) => assert_eq!(t, "tok"),
        _ => panic!("expected bearer"),
    }
    match credential(&Some(String::new()), "tok").ok().unwrap() {
        Credential::Bearer(t) => assert_eq!(t, "tok"),
        _ => panic!("expected bearer"),
    }
    match credential(&Some("X-Api=$token".to_string()), "tok").ok().unwrap() {
        Credential::Header(n, v) => {
            assert_eq!(n, "X-Api");
            assert_eq!(v, "tok");
        }
        _ => panic!("expected a header"),
    }
    assert!(credential(&Some("X-Api".to_string()), "tok").is_err());
}

fn header(h: &[(String, String)], k: &str) -> Option<String> {
    h.iter().rev().find(|p| p.0 == k).map(|p| p.1.clone())
}

#[test]
fn headers_from_arguments_and_defaults() {
    let mut c = bare_config();
    c.default_content_type = Some("application/json".to_string());
    let raw = vec!["accept,text/plain".to_string(), "bad".to_string(), "a,b,c".to_string(), "accept,*/*".to_string()];
    let h = build_headers(&raw, &c);
    assert_eq!(header(&h, "accept"), Some("*/*".to_string()));
    assert_eq!(header(&h, "bad"), None);
    assert_eq!(header(&h, "a"), None);
    assert_eq!(header(&h, "user-agent"), Some("aurl".to_string()));
    assert_eq!(header(&h, "content-type"), Some("application/json".to_string()));

    let raw = vec!["user-agent,me".to_string(), "content-type,text/xml".to_string()];
    let h = build_headers(&raw, &c);
    assert_eq!(header(&h, "user-agent"), Some("me".to_string()));
    assert_eq!(header(&h, "content-type"), Some("text/xml".to_string()));

    let h = build_headers(&vec![], &bare_config());
    assert_eq!(h, vec![("user-agent".to_string(), "aurl".to_string())]);
}

fn origins(n: usize, o: &str) -> Vec<Option<String>> {
    (0..n).map(|_| Some(o.to_string())).collect()
}

#[test]
fn redirect_policy_decisions() {
    let a = Some("https://a.example".to_string());
    let b = Some("https://b.example".to_string());
    assert_eq!(redirect_action(&origins(6, "https://a.example"), &a), Redirect::TooMany);
    assert_eq!(redirect_action(&origins(5, "https://a.example"), &a), Redirect::Follow);
    assert_eq!(redirect_action(&origins(1, "https://a.example"), &b), Redirect::CrossOrigin);
    assert_eq!(redirect_action(&origins(1, "https://a.example"), &a), Redirect::Follow);
    assert_eq!(redirect_action(&vec![], &a), Redirect::Stop);
    assert_eq!(redirect_action(&vec![None], &None), Redirect::CrossOrigin);
}

fn drive(events: &[Event]) -> Vec<Action> {
    let mut d = Dispatch::new();
    events.iter().map(|e| d.next(*e)).collect()
}

#[test]
fn no_cache_then_unauthorized_retries_exactly_once() {
    for second in [Outcome::Answered, Outcome::Unauthorized, Outcome::Failed] {
        let acts = drive(&[
            Event::Start,
            Event::CacheMiss,
            Event::Acquired,
            Event::Saved,
            Event::Responded(Outcome::Unauthorized),
            Event::Removed,
            Event::CacheMiss,
            Event::Acquired,
            Event::Saved,
            Event::Responded(second),
        ]);
        assert_eq!(
            acts,
            vec![
                Action::LoadCache,
                Action::Acquire,
                Action::SaveCache,
                Action::Send,
                Action::RemoveCache,
                Action::LoadCache,
                Action::Acquire,
                Action::SaveCache,
                Action::Send,
                Action::ReturnResponse,
            ]
        );
    }
}

#[test]
fn cached_token_needs_no_grant() {
    let acts = drive(&[Event::Start, Event::CacheHit, Event::Saved, Event::Responded(Outcome::Answered)]);
    assert_eq!(acts, vec![Action::LoadCache, Action::SaveCache, Action::Send, Action::ReturnResponse]);
    assert_eq!(acts.iter().filter(|a| **a == Action::Acquire).count(), 0);
}

#[test]
fn dispatch_ignores_out_of_turn_events_and_stops_on_errors() {
    let mut d = Dispatch::new();
    assert_eq!(d.next(Event::Saved), Action::Ignore);
    assert_eq!(d.next(Event::Start), Action::LoadCache);
    assert_eq!(d.next(Event::CacheMiss), Action::Acquire);
    assert_eq!(d.next(Event::AcquireFailed), Action::ReturnError);
    assert!(d.is_done());
    assert_eq!(d.next(Event::Start), Action::Ignore);
}

#[test]
fn text_helpers() {
    assert_eq!(split_once_exact("k,v", ','), Some(("k".to_string(), "v".to_string())));
    assert_eq!(split_once_exact(",", ','), Some((String::new(), String::new())));
    assert_eq!(split_once_exact("kv", ','), None);
    assert_eq!(split_once_exact("k,v,", ','), None);
    assert!(contains_str("ab$tokencd", "$token"));
    assert!(!contains_str("ab$toke", "$token"));
    assert_eq!(replace_str("aXbXX", "X", "yz"), "ayzbyzyz");
    assert_eq!(replace_str("aaa", "aa", "b"), "ba");
    assert!(eq_str("same", "same"));
    assert!(!eq_str("same", "sam"));
}

fn section(v: &[(&str, &str)]) -> Vec<(String, String)> {
    v.iter().map(|(a, b)| (a.to_string(), b.to_string())).collect()
}

#[test]
fn profile_sections_become_configurations() {
    let s = section(&[("grant_type", "client"), ("client_id", "x"), ("client_id", "y"), ("scopes", "root")]);
    assert_eq!(lookup(&s, "client_id"), Some("y".to_string()));
    assert_eq!(lookup(&s, "password"), None);
    let c = config_from_section(&s).ok().unwrap();
    assert_eq!(c.grant_type, GrantType::ClientCredentials);
    assert_eq!(c.client_id, Some("y".to_string()));
    assert_eq!(c.scopes, Some("root".to_string()));
    assert_eq!(c.password, None);

    for bad in [section(&[("client_id", "x")]), section(&[("grant_type", "implicit")])] {
        match config_from_section(&bad) {
            Err(InvalidConfig::MissingFields(m)) => assert_eq!(m, "grant_type"),
            _ => panic!("expected a missing grant type"),
        }
    }

    let sections = vec![("default".to_string(), s.clone()), ("other".to_string(), section(&[("grant_type", "password")]))];
    let ps = profiles_from_sections(&sections).ok().unwrap();
    assert_eq!(ps.len(), 2);
    assert_eq!(ps[1].0, "other");
    assert_eq!(ps[1].1.grant_type, GrantType::Password);
    let sections = vec![("default".to_string(), s), ("broken".to_string(), section(&[]))];
    assert!(profiles_from_sections(&sections).is_err());
}

#[test]
fn profile_file_location() {
    assert_eq!(Profile::new("work").name, "work");
    assert_eq!(Profile::config_file_in("/home/u"), "/home/u/.aurl/profiles");
    assert!(Profile::config_file().unwrap().ends_with("/.aurl/profiles"));
    let _ = Timeout::new();
}

#[test]
fn templates_are_checked_without_a_token() {
    assert!(validate_template(&None).is_ok());
    assert!(validate_template(&Some(String::new())).is_ok());
    assert!(validate_template(&Some("X-Auth=Bearer $TOKEN".to_string())).is_ok());
    let e = validate_template(&Some("X-Auth".to_string())).err().unwrap();
    assert_eq!(message(e), "invalid custom_header_template");
    let e = validate_template(&Some("X-Auth=Bearer xyz".to_string())).err().unwrap();
    assert_eq!(message(e), "can't find '$token' placeholder");
}

#[test]
fn header_names_are_matched_in_any_case() {
    let mut c = bare_config();
    c.default_content_type = Some("application/json".to_string());
    let raw = vec!["User-Agent,me".to_string(), "Content-Type,text/xml".to_string()];
    let h = build_headers(&raw, &c);
    assert_eq!(
        h,
        vec![
            ("User-Agent".to_string(), "me".to_string()),
            ("Content-Type".to_string(), "text/xml".to_string()),
        ]
    );
    assert!(str_eq_ignore_case("USER-agent", "user-agent"));
    assert!(!str_eq_ignore_case("user_agent", "user-agent"));
    assert!(!str_eq_ignore_case("user-agen", "user-agent"));
}
