use actix_xsrf::{post_hook, ProtectXSRF, RequestState, RequestXSRF};
use xsrf::{CookieToken, RequestToken};

const ZERO_SECRET: &str = "AAAAAAAAAAAAAAAAAAAAAAAAAAAAAAAAAAAAAAAAAAA=";

fn echo_request_token1(state: &mut RequestState, cookie: Option<&str>) -> String {
    state.xsrf_token(cookie).to_string()
}

fn echo_request_token2(state: &mut RequestState, cookie: Option<&str>) -> String {
    format!(
        "{}\n{}",
        state.xsrf_token(cookie).to_string(),
        state.xsrf_token(cookie).to_string()
    )
}

/// One request through the protected pipeline: the body that the route answers with, and the
/// `Set-Cookie` line of the response.
fn call_service(uri: &str, cookie: Option<&str>) -> (String, Option<String>) {
    let app = ProtectXSRF::new("x").new_transform(());
    let mut state = app.pre_hook();
    let body = match uri {
        "/unused/" => String::new(),
        "/echo1/" => echo_request_token1(&mut state, cookie),
        "/echo2/" => echo_request_token2(&mut state, cookie),
        _ => panic!("no such route"),
    };
    let set_cookie = post_hook(&state, true);
    (body, set_cookie)
}

fn belongs_to(secret: &str, token: &str) -> bool {
    let secret = CookieToken::try_from(secret).unwrap();
    let token = RequestToken::try_from(token).unwrap();
    secret.verify_req_token(token).is_ok()
}

#[test]
fn test_no_cookie_unless_used() {
    let (_, set_cookie) = call_service("/echo1/", None);
    assert!(&set_cookie.unwrap().starts_with("x="));
}

#[test]
fn unused_request_gets_no_cookie() {
    let (body, set_cookie) = call_service("/unused/", None);
    assert_eq!(body, "");
    assert_eq!(set_cookie, None);
}

#[test]
fn unused_request_with_cookie_gets_no_cookie() {
    let (_, set_cookie) = call_service("/unused/", Some(ZERO_SECRET));
    assert_eq!(set_cookie, None);
    let (_, set_cookie) = call_service("/unused/", Some("junk"));
    assert_eq!(set_cookie, None);
}

#[test]
fn two_calls_return_the_same_token() {
    let (body, set_cookie) = call_service("/echo2/", None);
    let tokens: Vec<&str> = body.split('\n').collect();
    assert_eq!(tokens.len(), 2);
    assert_eq!(tokens[0], tokens[1]);
    assert_eq!(tokens[0].len(), 88);
    assert!(set_cookie.unwrap().starts_with("x="));
}

#[test]
fn second_call_ignores_a_different_cookie() {
    let mut state = RequestState::new("x");
    let first = state.xsrf_token(Some(ZERO_SECRET)).to_string();
    let second = state.xsrf_token(None).to_string();
    let third = state.xsrf_token(Some("junk")).to_string();
    assert_eq!(first, second);
    assert_eq!(first, third);
    assert_eq!(state.cookie_token().unwrap().to_string(), ZERO_SECRET);
    assert!(!state.needs_cookie_write());
    assert_eq!(post_hook(&state, true), None);
}

#[test]
fn first_use_sets_a_cookie_that_reads_back() {
    let (token, set_cookie) = call_service("/echo1/", None);
    let line = set_cookie.unwrap();
    let value = line.strip_prefix("x=").unwrap();
    assert_eq!(value.len(), 44);
    assert!(CookieToken::try_from(value).is_ok());
    assert!(belongs_to(value, &token));
}

#[test]
fn issued_cookie_is_reused_by_the_next_request() {
    let (first_token, set_cookie) = call_service("/echo1/", None);
    let line = set_cookie.unwrap();
    let value = line.strip_prefix("x=").unwrap();
    let (second_token, set_cookie) = call_service("/echo1/", Some(value));
    assert_eq!(set_cookie, None);
    assert!(belongs_to(value, &second_token));
    assert!(belongs_to(value, &first_token));
}

#[test]
fn valid_cookie_is_reused() {
    let presented = CookieToken::new().to_string();
    let mut state = RequestState::new("x");
    let token = state.xsrf_token(Some(&presented)).to_string();
    assert!(belongs_to(&presented, &token));
    assert_eq!(state.cookie_token().unwrap().to_string(), presented);
    assert!(!state.needs_cookie_write());
    assert_eq!(state.set_cookie(), None);
    assert_eq!(post_hook(&state, true), None);
}

#[test]
fn token_of_another_secret_does_not_belong() {
    let (token, _) = call_service("/echo1/", Some(ZERO_SECRET));
    assert!(belongs_to(ZERO_SECRET, &token));
    let other = CookieToken::new().to_string();
    assert!(!belongs_to(&other, &token));
}

fn assert_replaced(presented: &str) {
    let (token, set_cookie) = call_service("/echo1/", Some(presented));
    let line = set_cookie.unwrap();
    let value = line.strip_prefix("x=").unwrap();
    assert_ne!(value, presented);
    assert!(CookieToken::try_from(value).is_ok());
    assert!(belongs_to(value, &token));
}

#[test]
fn malformed_cookie_is_replaced() {
    assert_replaced("");
    assert_replaced("junk");
    assert_replaced("not a secret at all, but of some length....");
    assert_replaced("AAAAAAAAAAAAAAAAAAAAAAAAAAAAAAAAAAAAAAAAAA=");
    assert_replaced("AAAAAAAAAAAAAAAAAAAAAAAAAAAAAAAAAAAAAAAAAAAA=");
}

#[test]
fn cookie_with_a_foreign_byte_is_replaced() {
    assert_replaced("AAAAAAAAAAAAAAAAAAAAAAAAAAAAAAAAAAAAAAAAAA!=");
    assert_replaced("AAAAAAAAAAAAAAAAAAAA+AAAAAAAAAAAAAAAAAAAAAA=");
    assert_replaced("AAAAAAAAAAAAAAAAAAAAAAAAAAAAAAAAAAAAAAAAA\u{e9}=");
    assert_replaced("AAAAAAAAAAAAAAAAAAAAAAAAAAAAAAAAAAAAAAAAA===");
    assert_replaced("=AAAAAAAAAAAAAAAAAAAAAAAAAAAAAAAAAAAAAAAAAA=");
}

#[test]
fn cookie_with_stray_bits_is_replaced() {
    assert_replaced("AAAAAAAAAAAAAAAAAAAAAAAAAAAAAAAAAAAAAAAAAAB=");
}

#[test]
fn full_length_cookie_without_pad_is_replaced() {
    assert_replaced("AAAAAAAAAAAAAAAAAAAAAAAAAAAAAAAAAAAAAAAAAAAA");
    assert_replaced("abcdefghijklmnopqrstuvwxyz0123456789-_ABCDEF");
    assert_replaced("AAAAAAAAAAAAAAAAAAAAAAAAAAAAAAAAAAAAAAAAAA=A");
    assert_replaced("AAAAAAAAAAAAAAAAAAAAAAAAAAAAAAAAAAAAAAAAAAA!");
    assert_replaced("AAAAAAAAAAAAAAAAAAAAAAAAAAAAAAAAAAAAAAAAA\u{e9}A");
}

#[test]
fn short_final_group_stands_for_a_secret() {
    let presented = "AAAAAAAAAAAAAAAAAAAAAAAAAAAAAAAAAAAAAAAAAA==";
    let mut state = RequestState::new("x");
    let token = state.xsrf_token(Some(presented)).to_string();
    assert_eq!(state.cookie_token().unwrap().to_string(), ZERO_SECRET);
    assert!(belongs_to(ZERO_SECRET, &token));
    assert_eq!(post_hook(&state, true), None);
}

#[test]
fn failed_stage_gets_no_cookie() {
    let mut state = RequestState::new("x");
    state.xsrf_token(None);
    assert!(state.needs_cookie_write());
    assert_eq!(post_hook(&state, false), None);
    assert!(post_hook(&state, true).is_some());
}

#[test]
fn one_request_does_not_touch_another() {
    let app = ProtectXSRF::new("x").new_transform(());
    let mut used = app.pre_hook();
    let unused = app.pre_hook();
    let mut reusing = app.pre_hook();
    let token = used.xsrf_token(None).to_string();
    let reused = reusing.xsrf_token(Some(ZERO_SECRET)).to_string();
    assert_ne!(token, reused);
    assert!(post_hook(&used, true).is_some());
    assert_eq!(post_hook(&unused, true), None);
    assert_eq!(post_hook(&reusing, true), None);
    assert!(unused.cookie_token().is_none());
    assert!(unused.get_existing_request_token().is_none());
}

#[test]
fn two_tokens_of_one_secret_differ_between_requests() {
    let (first, _) = call_service("/echo1/", Some(ZERO_SECRET));
    let (second, _) = call_service("/echo1/", Some(ZERO_SECRET));
    assert_ne!(first, second);
    assert!(belongs_to(ZERO_SECRET, &first));
    assert!(belongs_to(ZERO_SECRET, &second));
}
