use oauth2::url::Url;
use oauth2::{PkceCodeChallenge, PkceCodeVerifier};
use qvet::error::Error;
use qvet::flow::{
    complete_token_exchange, initiate_with, logout, oauth2_initiate,
    prepare_code_exchange, prepare_refresh, set_refresh_token_cookie, Oauth2CallbackRequest,
    Oauth2InitiateRequest, TokenPair,
};
use qvet::flow_state::Oauth2FlowState;
use qvet::provider::{github_oauth2_client, ProviderConfig};
use qvet::redacted::Redacted;
use axum::response::IntoResponse;
use axum_extra::extract::cookie::{Key, PrivateCookieJar};
use qvet::session;

fn github() -> ProviderConfig {
    github_oauth2_client(
        "client-123".to_string(),
        Redacted::new("s3cr3t".to_string()),
        vec![
            "https://app.example.com".to_string(),
            "mailto:a@b.c".to_string(),
        ],
    )
    .ok()
        .expect("valid provider")
}

fn query(url: &str) -> Vec<(String, String)> {
    Url::parse(url)
        .expect("valid url")
        .query_pairs()
        .map(|(k, v)| (k.into_owned(), v.into_owned()))
        .collect()
}

fn param(pairs: &[(String, String)], key: &str) -> Option<String> {
    pairs.iter().find(|(k, _)| k == key).map(|(_, v)| v.clone())
}

fn s256(verifier: &str) -> String {
    PkceCodeChallenge::from_code_verifier_sha256(&PkceCodeVerifier::new(verifier.to_string()))
        .as_str()
        .to_string()
}

#[test]
fn github_client_has_github_endpoints() {
    let c = github();
    assert_eq!(c.authorize_url, "https://github.com/login/oauth/authorize");
    assert_eq!(c.token_url, "https://github.com/login/oauth/access_token");
    assert_eq!(c.client_id, "client-123");
    assert_eq!(c.client_secret.masked(), "s3cr***");
}

#[test]
fn provider_with_bad_endpoint_is_invalid_configuration() {
    let r = ProviderConfig::new(
        "not a url".to_string(),
        "https://example.com/token".to_string(),
        "id".to_string(),
        Redacted::new("x".to_string()),
        vec![],
    );
    assert!(matches!(r, Err(Error::InvalidConfiguration { .. })));
    let r = ProviderConfig::checked(
        "https://example.com/a".to_string(),
        "https://example.com/t".to_string(),
        "id".to_string(),
        Redacted::new("x".to_string()),
        vec![],
        true,
        false,
    );
    assert!(matches!(r, Err(Error::InvalidConfiguration { .. })));
}

#[test]
fn initiate_with_fixed_secrets_builds_exact_url() {
    let verifier = "a".repeat(43);
    let resp = initiate_with(
        &github(),
        "https://app.example.com",
        "csrf123".to_string(),
        verifier.clone(),
    )
    .ok()
    .expect("initiate succeeds");
    let expected = format!(
        "https://github.com/login/oauth/authorize?response_type=code&client_id=client-123\
         &state=csrf123&code_challenge={}&code_challenge_method=S256\
         &redirect_uri=https%3A%2F%2Fapp.example.com%2Foauth2%2Fcallback",
        s256(&verifier)
    );
    assert_eq!(resp.redirect_url, expected);
    let back = Oauth2FlowState::decode(&resp.internal_state).ok().expect("decodes");
    assert_eq!(back.csrf_token, "csrf123");
    assert_eq!(back.pkce_verifier, verifier);
}

#[test]
fn initiate_with_unlisted_origin_is_client_error() {
    for origin in ["no origin", "https://evil.example.com", "https://app.example.com/"] {
        match initiate_with(&github(), origin, "c".to_string(), "v".repeat(43)) {
            Err(e) => {
                assert!(matches!(e, Error::InvalidRedirectOrigin), "{origin}");
                assert_eq!(e.status_code(), 400);
            }
            Ok(_) => panic!("{origin} must be refused"),
        }
    }
}

#[test]
fn initiate_with_origin_that_cannot_be_a_base_is_client_error() {
    let r = oauth2_initiate(
        &github(),
        Oauth2InitiateRequest {
            redirect_origin: "mailto:a@b.c".to_string(),
        },
    );
    match r {
        Err(e) => {
            assert!(matches!(e, Error::InvalidRedirectOrigin));
            assert_eq!(e.status_code(), 400);
        }
        Ok(_) => panic!("no redirect under a mailto origin"),
    }
}

#[test]
fn initiate_scenario_app_example_com() {
    let resp = oauth2_initiate(
        &github(),
        Oauth2InitiateRequest {
            redirect_origin: "https://app.example.com".to_string(),
        },
    )
    .ok()
    .expect("initiate succeeds");
    let pairs = query(&resp.redirect_url);
    assert_eq!(param(&pairs, "client_id").as_deref(), Some("client-123"));
    assert_eq!(param(&pairs, "code_challenge_method").as_deref(), Some("S256"));
    let state = param(&pairs, "state").expect("state present");
    assert!(!state.is_empty());
    assert_eq!(
        param(&pairs, "redirect_uri").as_deref(),
        Some("https://app.example.com/oauth2/callback")
    );
    let flow = Oauth2FlowState::decode(&resp.internal_state).ok().expect("decodes");
    assert_eq!(flow.csrf_token, state);
    assert_eq!(param(&pairs, "code_challenge"), Some(s256(&flow.pkce_verifier)));
}

#[test]
fn two_initiations_do_not_share_flow_state() {
    let a = oauth2_initiate(
        &github(),
        Oauth2InitiateRequest { redirect_origin: "https://app.example.com".to_string() },
    )
    .ok()
    .expect("first");
    let b = oauth2_initiate(
        &github(),
        Oauth2InitiateRequest { redirect_origin: "https://app.example.com".to_string() },
    )
    .ok()
    .expect("second");
    let fa = Oauth2FlowState::decode(&a.internal_state).ok().expect("a decodes");
    let fb = Oauth2FlowState::decode(&b.internal_state).ok().expect("b decodes");
    assert_ne!(fa.csrf_token, fb.csrf_token);
    assert_ne!(fa.pkce_verifier, fb.pkce_verifier);
}

#[test]
fn callback_with_undecodable_state_is_client_error() {
    let r = prepare_code_exchange(Oauth2CallbackRequest {
        code: "code".to_string(),
        state: "st".to_string(),
        internal_state: "definitely not hex".to_string(),
    });
    match r {
        Err(e) => {
            assert!(matches!(e, Error::MalformedFlowState));
            assert_eq!(e.status_code(), 400);
        }
        Ok(_) => panic!("must not reach the token exchange"),
    }
}

#[test]
fn callback_with_wrong_state_is_csrf_mismatch() {
    let token = Oauth2FlowState {
        csrf_token: "expected".to_string(),
        pkce_verifier: "v".repeat(43),
    }
    .encode();
    let r = prepare_code_exchange(Oauth2CallbackRequest {
        code: "code".to_string(),
        state: "forged".to_string(),
        internal_state: token,
    });
    match r {
        Err(e) => {
            assert!(matches!(e, Error::CsrfMismatch));
            assert_eq!(e.status_code(), 400);
        }
        Ok(_) => panic!("mismatched state must be refused"),
    }
}

#[test]
fn callback_with_matching_state_gives_code_and_verifier() {
    let token = Oauth2FlowState {
        csrf_token: "expected".to_string(),
        pkce_verifier: "v".repeat(43),
    }
    .encode();
    let ex = prepare_code_exchange(Oauth2CallbackRequest {
        code: "the-code".to_string(),
        state: "expected".to_string(),
        internal_state: token,
    })
    .ok()
    .expect("accepted");
    assert_eq!(ex.code, "the-code");
    assert_eq!(ex.pkce_verifier, "v".repeat(43));
}

fn empty_jar() -> PrivateCookieJar {
    PrivateCookieJar::new(Key::generate())
}

fn set_cookie_headers(jar: PrivateCookieJar) -> Vec<String> {
    let response = jar.into_response();
    response
        .headers()
        .get_all("set-cookie")
        .iter()
        .map(|v| v.to_str().expect("ascii header").to_string())
        .collect()
}

#[test]
fn access_token_without_cookie_is_unauthorized() {
    match prepare_refresh(&empty_jar()) {
        Err(e) => {
            assert!(matches!(e, Error::NotAuthenticated));
            assert_eq!(e.status_code(), 401);
        }
        Ok(_) => panic!("no network call without a session"),
    }
    let jar = session::set(empty_jar(), "rt".to_string());
    let t = prepare_refresh(&jar).ok().expect("session present");
    assert_eq!(t, "rt");
}

#[test]
fn exchange_with_refresh_token_sets_strict_cookie() {
    let (jar, body) = complete_token_exchange(
        empty_jar(),
        TokenPair {
            access_token: "at".to_string(),
            refresh_token: Some("rt".to_string()),
        },
    );
    assert_eq!(body.access_token, "at");
    assert_eq!(session::get(&jar), Some("rt".to_string()));
    let headers = set_cookie_headers(jar);
    assert_eq!(headers.len(), 1);
    let h = &headers[0];
    assert!(h.starts_with("qvet-github-refresh-token="), "{h}");
    assert!(!h.starts_with("qvet-github-refresh-token=rt;"), "value is encrypted: {h}");
    assert!(h.contains("HttpOnly"), "{h}");
    assert!(h.contains("Secure"), "{h}");
    assert!(h.contains("SameSite=Strict"), "{h}");
    assert!(h.contains("Path=/"), "{h}");
    assert!(!h.contains("Max-Age") && !h.contains("Expires"), "{h}");
}

#[test]
fn exchange_without_refresh_token_leaves_cookies() {
    let jar = session::set(empty_jar(), "old".to_string());
    let jar = set_refresh_token_cookie(
        jar,
        &TokenPair {
            access_token: "at".to_string(),
            refresh_token: None,
        },
    );
    assert_eq!(session::get(&jar), Some("old".to_string()));
    let (jar, body) = complete_token_exchange(
        empty_jar(),
        TokenPair {
            access_token: "only".to_string(),
            refresh_token: None,
        },
    );
    assert_eq!(body.access_token, "only");
    assert!(set_cookie_headers(jar).is_empty());
}

#[test]
fn refresh_rotates_the_cookie() {
    let jar = session::set(empty_jar(), "old".to_string());
    let (jar, body) = complete_token_exchange(
        jar,
        TokenPair {
            access_token: "at2".to_string(),
            refresh_token: Some("new".to_string()),
        },
    );
    assert_eq!(body.access_token, "at2");
    assert_eq!(session::get(&jar), Some("new".to_string()));
}

#[test]
fn logout_removes_cookie_and_is_idempotent() {
    let jar = session::set(empty_jar(), "rt".to_string());
    let jar = logout(jar);
    assert_eq!(session::get(&jar), None);
    let jar = logout(jar);
    assert_eq!(session::get(&jar), None);
    let jar = logout(empty_jar());
    assert_eq!(session::get(&jar), None);
    assert!(set_cookie_headers(jar).is_empty());
}
