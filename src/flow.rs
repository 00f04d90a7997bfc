//! The steps of the login flow: initiating an authorization, checking the
//! callback before the code exchange, turning a token response into a
//! session, minting a new access token from the session, and logging out.
//! The network calls to the provider happen between these steps, outside.

use crate::error::Error;
use crate::flow_state::{decoded_flow_token, flow_token, lemma_flow_token_round_trip, Oauth2FlowState};
use crate::provider::{
    authorize_pairs, oauth2_authorize_url, pkce_s256, push_path_segments, random_csrf_token,
    random_pkce_verifier, strings_view, url_parses, url_with_query, url_with_segments,
    verifier_len_ok, ProviderConfig,
};
use crate::session::{
    self, cookies_after_clear, cookies_after_set, jar_cookies, jar_written, session_token,
    written_after_set,
};
use axum_extra::extract::cookie::PrivateCookieJar;
use vstd::prelude::*;

verus! {

pub struct Oauth2InitiateRequest {
    /// Origin under which the browser comes back from the provider.
    pub redirect_origin: String,
}

pub struct Oauth2InitiateResponse {
    /// Where the browser is sent to authorize.
    pub redirect_url: String,
    /// The flow-state token that the caller hands back at the callback.
    pub internal_state: String,
}

pub struct Oauth2CallbackRequest {
    pub code: String,
    /// The `state` that the provider returned.
    pub state: String,
    pub internal_state: String,
}

pub struct Oauth2CallbackResponse {
    pub access_token: String,
}

/// What the provider's token endpoint granted.
pub struct TokenPair {
    pub access_token: String,
    pub refresh_token: Option<String>,
}

/// What the code exchange sends to the provider's token endpoint.
pub struct CodeExchange {
    pub code: String,
    pub pkce_verifier: String,
}

/// Path under the caller's origin to which the provider redirects.
pub open spec fn callback_path() -> Seq<Seq<char>> {
    seq!["oauth2"@, "callback"@]
}

/// The URI to which the provider sends the browser back: the callback path
/// under `redirect_origin`, where that origin is allowed, can carry the path,
/// and gives a URL again.
pub open spec fn accepted_redirect_uri(config: ProviderConfig, redirect_origin: Seq<char>) -> Option<
    Seq<char>,
> {
    if config.allows_origin(redirect_origin) {
        match url_with_segments(redirect_origin, callback_path()) {
            Some(uri) => if url_parses(uri) {
                Some(uri)
            } else {
                None
            },
            None => None,
        }
    } else {
        None
    }
}

/// The authorization URL for a return origin, a CSRF token and a PKCE
/// verifier, or `None` where the origin is not accepted.
pub open spec fn authorize_url_for(
    config: ProviderConfig,
    redirect_origin: Seq<char>,
    csrf_token: Seq<char>,
    pkce_verifier: Seq<char>,
) -> Option<Seq<char>> {
    match accepted_redirect_uri(config, redirect_origin) {
        Some(redirect_uri) => url_with_query(
            config.authorize_url@,
            authorize_pairs(config.client_id@, redirect_uri, csrf_token, pkce_s256(pkce_verifier)),
        ),
        None => None,
    }
}

/// Starts an authorization with the given CSRF token and PKCE verifier: the
/// provider URL carries the token as `state` and the verifier's S256
/// challenge, and the flow-state token carries both secrets. Fails with
/// `InvalidRedirectOrigin` exactly when the origin is not accepted.
pub fn initiate_with(
    config: &ProviderConfig,
    redirect_origin: &str,
    csrf_token: String,
    pkce_verifier: String,
) -> (r: Result<Oauth2InitiateResponse, Error>)
    requires
        config.wf(),
        verifier_len_ok(pkce_verifier@),
    ensures
        r is Ok <==> accepted_redirect_uri(*config, redirect_origin@) is Some,
        match r {
            Ok(resp) => {
                &&& authorize_url_for(*config, redirect_origin@, csrf_token@, pkce_verifier@)
                    == Some(resp.redirect_url@)
                &&& resp.internal_state@ == flow_token(csrf_token@, pkce_verifier@)
                &&& decoded_flow_token(resp.internal_state@) == Some(
                    (csrf_token@, pkce_verifier@),
                )
            },
            Err(e) => e is InvalidRedirectOrigin,
        },
{
    if !config.is_allowed_origin(redirect_origin) {
        return Err(Error::InvalidRedirectOrigin);
    }
    let mut segments: Vec<String> = Vec::new();
    segments.push("oauth2".to_owned());
    segments.push("callback".to_owned());
    assert(strings_view(segments@) =~= callback_path());
    let redirect_uri = match push_path_segments(redirect_origin, &segments) {
        Some(u) => u,
        None => return Err(Error::InvalidRedirectOrigin),
    };
    let redirect_url = match oauth2_authorize_url(
        config.authorize_url.as_str(),
        config.client_id.as_str(),
        redirect_uri.as_str(),
        csrf_token.as_str(),
        pkce_verifier.as_str(),
    ) {
        Some(u) => u,
        None => return Err(Error::InvalidRedirectOrigin),
    };
    let flow_state = Oauth2FlowState { csrf_token, pkce_verifier };
    let internal_state = flow_state.encode();
    proof {
        lemma_flow_token_round_trip(flow_state.csrf_token@, flow_state.pkce_verifier@);
    }
    Ok(Oauth2InitiateResponse { redirect_url, internal_state })
}

/// Starts an authorization with a fresh random CSRF token and PKCE verifier.
/// It succeeds exactly when the origin is accepted; then the flow-state
/// token decodes to a non-empty CSRF token and a verifier, and the provider
/// URL is the one built from exactly those.
pub fn oauth2_initiate(config: &ProviderConfig, request: Oauth2InitiateRequest) -> (r: Result<
    Oauth2InitiateResponse,
    Error,
>)
    requires
        config.wf(),
    ensures
        r is Ok <==> accepted_redirect_uri(*config, request.redirect_origin@) is Some,
        match r {
            Ok(resp) => exists|csrf: Seq<char>, verifier: Seq<char>|
                {
                    &&& csrf.len() > 0
                    &&& verifier_len_ok(verifier)
                    &&& decoded_flow_token(resp.internal_state@) == Some((csrf, verifier))
                    &&& authorize_url_for(*config, request.redirect_origin@, csrf, verifier)
                        == Some(resp.redirect_url@)
                },
            Err(e) => e is InvalidRedirectOrigin,
        },
{
    let csrf_token = random_csrf_token();
    let pkce_verifier = random_pkce_verifier();
    let ghost csrf = csrf_token@;
    let ghost verifier = pkce_verifier@;
    let r = initiate_with(config, request.redirect_origin.as_str(), csrf_token, pkce_verifier);
    proof {
        match &r {
            Ok(resp) => {
                assert(decoded_flow_token(resp.internal_state@) == Some((csrf, verifier)));
            },
            Err(_) => {},
        }
    }
    r
}

/// Checks a callback before any network call: the flow-state token must
/// decode, and the returned `state` must be its CSRF token. Gives what the
/// code exchange sends: the code and the PKCE verifier.
pub fn prepare_code_exchange(request: Oauth2CallbackRequest) -> (r: Result<CodeExchange, Error>)
    ensures
        match decoded_flow_token(request.internal_state@) {
            None => r is Err && r->Err_0 is MalformedFlowState,
            Some((csrf, verifier)) => if request.state@ == csrf {
                r is Ok && r->Ok_0.code@ == request.code@ && r->Ok_0.pkce_verifier@ == verifier
            } else {
                r is Err && r->Err_0 is CsrfMismatch
            },
        },
{
    let flow_state = match Oauth2FlowState::decode(request.internal_state.as_str()) {
        Ok(s) => s,
        Err(e) => return Err(e),
    };
    if request.state != flow_state.csrf_token {
        return Err(Error::CsrfMismatch);
    }
    Ok(CodeExchange { code: request.code, pkce_verifier: flow_state.pkce_verifier })
}

/// The refresh token to exchange for a new access token; `NotAuthenticated`
/// without a session, before any network call.
pub fn prepare_refresh(jar: &PrivateCookieJar) -> (r: Result<String, Error>)
    ensures
        match session_token(jar_cookies(*jar)) {
            Some(t) => r is Ok && r->Ok_0@ == t,
            None => r is Err && r->Err_0 is NotAuthenticated,
        },
{
    match session::get(jar) {
        Some(t) => Ok(t),
        None => Err(Error::NotAuthenticated),
    }
}

/// Keeps a granted refresh token in the session cookie, replacing the old
/// one; without one the jar is returned as it came.
pub fn set_refresh_token_cookie(jar: PrivateCookieJar, token_result: &TokenPair) -> (r:
    PrivateCookieJar)
    ensures
        match token_result.refresh_token {
            Some(t) => jar_cookies(r) == cookies_after_set(jar_cookies(jar), t@) && jar_written(r)
                == written_after_set(jar_written(jar)),
            None => r == jar,
        },
{
    match &token_result.refresh_token {
        Some(t) => session::set(jar, t.clone()),
        None => jar,
    }
}

/// Turns a token response into the answer to the caller: the body holds the
/// access token alone, and a refresh token goes into the session cookie.
pub fn complete_token_exchange(jar: PrivateCookieJar, token_result: TokenPair) -> (r: (
    PrivateCookieJar,
    Oauth2CallbackResponse,
))
    ensures
        r.1.access_token@ == token_result.access_token@,
        match token_result.refresh_token {
            Some(t) => jar_cookies(r.0) == cookies_after_set(jar_cookies(jar), t@) && jar_written(
                r.0,
            ) == written_after_set(jar_written(jar)),
            None => r.0 == jar,
        },
{
    let jar = set_refresh_token_cookie(jar, &token_result);
    (jar, Oauth2CallbackResponse { access_token: token_result.access_token })
}

/// Ends the session locally: the session cookie is removed if there is one,
/// and without one the jar comes back as it was; nothing is sent to the
/// provider.
pub fn logout(jar: PrivateCookieJar) -> (r: PrivateCookieJar)
    ensures
        jar_cookies(r) == cookies_after_clear(jar_cookies(jar)),
        session_token(jar_cookies(jar)) is None ==> r == jar,
{
    session::clear(jar)
}

/// The verifier that a callback presents to the token endpoint is the one
/// whose S256 challenge went out in the authorization request: the token of
/// an initiation decodes to its own CSRF token and verifier, so a callback
/// that returns that CSRF token is handed that verifier, and the request
/// carried `pkce_s256` of it as `code_challenge`.
pub proof fn lemma_pkce_binding(
    client_id: Seq<char>,
    redirect_uri: Seq<char>,
    csrf_token: Seq<char>,
    pkce_verifier: Seq<char>,
)
    ensures
        decoded_flow_token(flow_token(csrf_token, pkce_verifier)) == Some(
            (csrf_token, pkce_verifier),
        ),
        authorize_pairs(client_id, redirect_uri, csrf_token, pkce_s256(pkce_verifier))[3] == (
            "code_challenge"@,
            pkce_s256(pkce_verifier),
        ),
        authorize_pairs(client_id, redirect_uri, csrf_token, pkce_s256(pkce_verifier))[4] == (
            "code_challenge_method"@,
            "S256"@,
        ),
{
    lemma_flow_token_round_trip(csrf_token, pkce_verifier);
}

/// Initiations do not share flow state: each token depends on its own
/// secrets alone and decodes to them, so initiations with different secrets
/// hand out different tokens.
pub proof fn lemma_initiations_independent(
    csrf_a: Seq<char>,
    verifier_a: Seq<char>,
    csrf_b: Seq<char>,
    verifier_b: Seq<char>,
)
    ensures
        decoded_flow_token(flow_token(csrf_a, verifier_a)) == Some((csrf_a, verifier_a)),
        decoded_flow_token(flow_token(csrf_b, verifier_b)) == Some((csrf_b, verifier_b)),
        (csrf_a, verifier_a) != (csrf_b, verifier_b) ==> flow_token(csrf_a, verifier_a)
            != flow_token(csrf_b, verifier_b),
{
    lemma_flow_token_round_trip(csrf_a, verifier_a);
    lemma_flow_token_round_trip(csrf_b, verifier_b);
}

} // verus!
