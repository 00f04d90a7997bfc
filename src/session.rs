//! The session: one encrypted cookie that holds the provider's refresh
//! token, kept in the private (encrypted and authenticated) cookie jar of
//! `axum-extra`. The jar's key is configuration handed in from outside.

use axum_extra::extract::cookie::PrivateCookieJar;
use vstd::prelude::*;

verus! {

/// Name of the cookie that holds the refresh token.
pub const COOKIE_KEY_NAME_REFRESH_TOKEN: &'static str = "qvet-github-refresh-token";

/// Path to which the session cookie is scoped.
pub const SESSION_COOKIE_PATH: &'static str = "/";

/// The `SameSite` attribute of a cookie.
#[derive(Clone, Copy, Debug, PartialEq, Eq, Structural)]
pub enum SameSite {
    Strict,
    Lax,
    NoRestriction,
}

/// A cookie to be written, with its attributes.
pub struct SessionCookie {
    pub name: String,
    pub value: String,
    pub path: String,
    pub secure: bool,
    pub http_only: bool,
    pub same_site: SameSite,
}

/// `c` is the session cookie that carries `token`: the refresh-token name,
/// path `/`, `Secure`, `HttpOnly`, `SameSite=Strict`.
pub open spec fn is_session_cookie(c: SessionCookie, token: Seq<char>) -> bool {
    &&& c.name@ == COOKIE_KEY_NAME_REFRESH_TOKEN@
    &&& c.value@ == token
    &&& c.path@ == SESSION_COOKIE_PATH@
    &&& c.secure
    &&& c.http_only
    &&& c.same_site == SameSite::Strict
}

/// The session cookie that carries `token`.
pub fn session_cookie(token: String) -> (r: SessionCookie)
    ensures
        is_session_cookie(r, token@),
{
    SessionCookie {
        name: COOKIE_KEY_NAME_REFRESH_TOKEN.to_owned(),
        value: token,
        path: SESSION_COOKIE_PATH.to_owned(),
        secure: true,
        http_only: true,
        same_site: SameSite::Strict,
    }
}

#[verifier::external_type_specification]
#[verifier::external_body]
pub struct ExKey(axum_extra::extract::cookie::Key);

#[verifier::external_type_specification]
#[verifier::external_body]
#[verifier::reject_recursive_types(K)]
pub struct ExPrivateCookieJar<K>(PrivateCookieJar<K>);

/// What a private jar holds: the name and decrypted value of each cookie
/// that authenticates under the jar's key, with the jar's own additions and
/// removals applied.
pub uninterp spec fn jar_cookies(jar: PrivateCookieJar) -> Map<Seq<char>, Seq<char>>;

/// How a cookie that a jar writes is sent, by name: its path, `Secure`,
/// `HttpOnly`, its `SameSite` value as written in the header, and whether
/// it carries an expiry (`Expires` or `Max-Age`).
pub uninterp spec fn jar_written(jar: PrivateCookieJar) -> Map<
    Seq<char>,
    (Seq<char>, bool, bool, Seq<char>, bool),
>;

/// The `SameSite` value as it stands in a `Set-Cookie` header.
pub open spec fn same_site_text(s: SameSite) -> Seq<char> {
    match s {
        SameSite::Strict => "Strict"@,
        SameSite::Lax => "Lax"@,
        SameSite::NoRestriction => "None"@,
    }
}

/// How the session cookie is sent: path `/`, `Secure`, `HttpOnly`,
/// `SameSite=Strict`, no expiry.
pub open spec fn session_cookie_attributes() -> (Seq<char>, bool, bool, Seq<char>, bool) {
    (SESSION_COOKIE_PATH@, true, true, "Strict"@, false)
}

/// Relies on `PrivateCookieJar::get`: the decrypted value of the cookie of
/// that name, if one authenticates.
#[verifier::external_body]
fn jar_get(jar: &PrivateCookieJar, name: &str) -> (r: Option<String>)
    ensures
        match r {
            Some(v) => jar_cookies(*jar).contains_key(name@) && jar_cookies(*jar)[name@] == v@,
            None => !jar_cookies(*jar).contains_key(name@),
        },
{
    jar.get(name).map(|c| c.value().to_owned())
}

/// Relies on `PrivateCookieJar::add`: encrypts the cookie's value and adds
/// the cookie with its attributes, replacing one of the same name; `get`
/// then decrypts the value again. The cookie is built without an expiry.
#[verifier::external_body]
fn jar_add(jar: PrivateCookieJar, cookie: &SessionCookie) -> (r: PrivateCookieJar)
    ensures
        jar_cookies(r) == jar_cookies(jar).insert(cookie.name@, cookie.value@),
        jar_written(r) == jar_written(jar).insert(
            cookie.name@,
            (cookie.path@, cookie.secure, cookie.http_only, same_site_text(cookie.same_site), false),
        ),
{
    let same_site = match cookie.same_site {
        SameSite::Strict => axum_extra::extract::cookie::SameSite::Strict,
        SameSite::Lax => axum_extra::extract::cookie::SameSite::Lax,
        SameSite::NoRestriction => axum_extra::extract::cookie::SameSite::None,
    };
    jar.add(
        axum_extra::extract::cookie::Cookie::build((cookie.name.clone(), cookie.value.clone()))
            .path(cookie.path.clone())
            .secure(cookie.secure)
            .http_only(cookie.http_only)
            .same_site(same_site),
    )
}

/// Relies on `PrivateCookieJar::remove`: afterwards the jar holds no cookie
/// of that name; the removal cookie is scoped to `path`.
#[verifier::external_body]
fn jar_remove(jar: PrivateCookieJar, name: &str, path: &str) -> (r: PrivateCookieJar)
    ensures
        jar_cookies(r) == jar_cookies(jar).remove(name@),
{
    jar.remove(axum_extra::extract::cookie::Cookie::build(name.to_owned()).path(path.to_owned()))
}

/// The refresh token that the cookies hold, if any.
pub open spec fn session_token(cookies: Map<Seq<char>, Seq<char>>) -> Option<Seq<char>> {
    if cookies.contains_key(COOKIE_KEY_NAME_REFRESH_TOKEN@) {
        Some(cookies[COOKIE_KEY_NAME_REFRESH_TOKEN@])
    } else {
        None
    }
}

/// The cookies after storing `token` in the session.
pub open spec fn cookies_after_set(cookies: Map<Seq<char>, Seq<char>>, token: Seq<char>) -> Map<
    Seq<char>,
    Seq<char>,
> {
    cookies.insert(COOKIE_KEY_NAME_REFRESH_TOKEN@, token)
}

/// The cookies after ending the session.
pub open spec fn cookies_after_clear(cookies: Map<Seq<char>, Seq<char>>) -> Map<
    Seq<char>,
    Seq<char>,
> {
    cookies.remove(COOKIE_KEY_NAME_REFRESH_TOKEN@)
}

/// The refresh token of the session, if the request carried one.
pub fn get(jar: &PrivateCookieJar) -> (r: Option<String>)
    ensures
        match r {
            Some(t) => session_token(jar_cookies(*jar)) == Some(t@),
            None => session_token(jar_cookies(*jar)) is None,
        },
{
    jar_get(jar, COOKIE_KEY_NAME_REFRESH_TOKEN)
}

/// The cookies written after storing a token in the session.
pub open spec fn written_after_set(
    written: Map<Seq<char>, (Seq<char>, bool, bool, Seq<char>, bool)>,
) -> Map<Seq<char>, (Seq<char>, bool, bool, Seq<char>, bool)> {
    written.insert(COOKIE_KEY_NAME_REFRESH_TOKEN@, session_cookie_attributes())
}

/// Stores `token` in the session cookie (path `/`, `Secure`, `HttpOnly`,
/// `SameSite=Strict`, no expiry), replacing any earlier one.
pub fn set(jar: PrivateCookieJar, token: String) -> (r: PrivateCookieJar)
    ensures
        jar_cookies(r) == cookies_after_set(jar_cookies(jar), token@),
        jar_written(r) == written_after_set(jar_written(jar)),
{
    let cookie = session_cookie(token);
    jar_add(jar, &cookie)
}

/// Removes the session cookie if there is one; otherwise gives the jar
/// back as it came, with nothing to write.
pub fn clear(jar: PrivateCookieJar) -> (r: PrivateCookieJar)
    ensures
        jar_cookies(r) == cookies_after_clear(jar_cookies(jar)),
        session_token(jar_cookies(jar)) is None ==> r == jar,
{
    match jar_get(&jar, COOKIE_KEY_NAME_REFRESH_TOKEN) {
        Some(_) => jar_remove(jar, COOKIE_KEY_NAME_REFRESH_TOKEN, SESSION_COOKIE_PATH),
        None => {
            assert(jar_cookies(jar).remove(COOKIE_KEY_NAME_REFRESH_TOKEN@) =~= jar_cookies(jar));
            jar
        },
    }
}

/// Reading the session after storing a token gives that token, whatever
/// the jar held before.
pub proof fn lemma_cookie_round_trip(cookies: Map<Seq<char>, Seq<char>>, token: Seq<char>)
    ensures
        session_token(cookies_after_set(cookies, token)) == Some(token),
{
}

/// Ending a session twice is ending it once, and an ended session holds no
/// refresh token.
pub proof fn lemma_clear_idempotent(cookies: Map<Seq<char>, Seq<char>>)
    ensures
        cookies_after_clear(cookies_after_clear(cookies)) == cookies_after_clear(cookies),
        session_token(cookies_after_clear(cookies)) is None,
{
    assert(cookies_after_clear(cookies_after_clear(cookies)) =~= cookies_after_clear(cookies));
}

} // verus!
