use axum::http::HeaderMap;
use axum::response::IntoResponse;
use axum_extra::extract::cookie::{Key, PrivateCookieJar};
use qvet::session::{self, session_cookie, SameSite};

fn jar_from_browser(key: &Key, token: &str) -> PrivateCookieJar {
    // what a browser sends back after the relay set the cookie
    let written = session::set(PrivateCookieJar::new(key.clone()), token.to_string());
    let set_cookie = written.into_response().headers()["set-cookie"]
        .to_str()
        .expect("ascii header")
        .to_string();
    let pair = set_cookie.split(';').next().expect("name=value").to_string();
    let mut headers = HeaderMap::new();
    headers.insert("cookie", pair.parse().expect("header value"));
    PrivateCookieJar::from_headers(&headers, key.clone())
}

#[test]
fn set_then_get_gives_token() {
    let key = Key::generate();
    for jar in [PrivateCookieJar::new(key.clone()), jar_from_browser(&key, "old")] {
        let jar = session::set(jar, "tok".to_string());
        assert_eq!(session::get(&jar), Some("tok".to_string()));
    }
}

#[test]
fn cookie_survives_the_browser_round_trip() {
    let key = Key::generate();
    let jar = jar_from_browser(&key, "from-browser");
    assert_eq!(session::get(&jar), Some("from-browser".to_string()));
    let other = jar_from_browser(&key, "x");
    let foreign = PrivateCookieJar::from_headers(&HeaderMap::new(), Key::generate());
    assert_eq!(session::get(&foreign), None);
    assert_eq!(session::get(&other), Some("x".to_string()));
}

#[test]
fn clear_twice_is_clear_once() {
    let key = Key::generate();
    let once = session::clear(jar_from_browser(&key, "tok"));
    assert_eq!(session::get(&once), None);
    let twice = session::clear(once);
    assert_eq!(session::get(&twice), None);
}

#[test]
fn clear_of_browser_cookie_sends_removal() {
    let key = Key::generate();
    let cleared = session::clear(jar_from_browser(&key, "tok"));
    let headers = cleared.into_response();
    let h = headers.headers()["set-cookie"].to_str().expect("ascii").to_string();
    assert!(h.starts_with("qvet-github-refresh-token=;"), "{h}");
    assert!(h.contains("Path=/"), "{h}");
    assert!(h.contains("Max-Age=0"), "{h}");
}

#[test]
fn session_cookie_attributes() {
    let c = session_cookie("v".to_string());
    assert_eq!(c.name, "qvet-github-refresh-token");
    assert_eq!(c.value, "v");
    assert_eq!(c.path, "/");
    assert!(c.secure && c.http_only);
    assert_eq!(c.same_site, SameSite::Strict);
}
