//! The identity provider: its endpoints and client credentials, and the
//! URL and PKCE computations that the `oauth2` crate does for the relay.

use crate::error::Error;
use crate::redacted::Redacted;
use vstd::prelude::*;
use vstd::utf8::*;

verus! {

/// GitHub's authorization endpoint.
pub const GITHUB_AUTHORIZE_URL: &'static str = "https://github.com/login/oauth/authorize";

/// GitHub's token endpoint.
pub const GITHUB_TOKEN_URL: &'static str = "https://github.com/login/oauth/access_token";

/// Whether a text parses as an absolute URL.
pub uninterp spec fn url_parses(s: Seq<char>) -> bool;

/// The URL `base` with `segments` appended to its path, or `None` where
/// `base` is no URL or cannot be a base.
pub uninterp spec fn url_with_segments(base: Seq<char>, segments: Seq<Seq<char>>) -> Option<
    Seq<char>,
>;

/// The URL `base`, parsed, with `pairs` appended to its query,
/// form-encoded; `None` where `base` is no URL.
pub uninterp spec fn url_with_query(base: Seq<char>, pairs: Seq<(Seq<char>, Seq<char>)>) -> Option<
    Seq<char>,
>;

/// The S256 PKCE challenge of a verifier: base64url of its SHA-256 digest.
pub uninterp spec fn pkce_s256(verifier: Seq<char>) -> Seq<char>;

pub open spec fn strings_view(v: Seq<String>) -> Seq<Seq<char>> {
    v.map_values(|s: String| s@)
}

/// A PKCE verifier has between 43 and 128 bytes.
pub open spec fn verifier_len_ok(verifier: Seq<char>) -> bool {
    43 <= encode_utf8(verifier).len() <= 128
}

/// Relies on `url::Url::parse` (re-exported by `oauth2`): whether the text is
/// an absolute URL.
#[verifier::external_body]
pub(crate) fn is_absolute_url(s: &str) -> (r: bool)
    ensures
        r == url_parses(s@),
{
    oauth2::url::Url::parse(s).is_ok()
}

/// Relies on `url::Url::path_segments_mut` and its `extend`: appends each
/// segment to the path of the parsed URL.
#[verifier::external_body]
pub(crate) fn push_path_segments(base: &str, segments: &Vec<String>) -> (r: Option<String>)
    ensures
        match r {
            Some(u) => url_with_segments(base@, strings_view(segments@)) == Some(u@),
            None => url_with_segments(base@, strings_view(segments@)) is None,
        },
{
    let mut url = oauth2::url::Url::parse(base).ok()?;
    url.path_segments_mut().ok()?.extend(segments.iter());
    Some(url.to_string())
}

/// Query parameters of an authorization request with PKCE (method S256),
/// in the order in which they are appended.
pub open spec fn authorize_pairs(
    client_id: Seq<char>,
    redirect_uri: Seq<char>,
    state: Seq<char>,
    code_challenge: Seq<char>,
) -> Seq<(Seq<char>, Seq<char>)> {
    seq![
        ("response_type"@, "code"@),
        ("client_id"@, client_id),
        ("state"@, state),
        ("code_challenge"@, code_challenge),
        ("code_challenge_method"@, "S256"@),
        ("redirect_uri"@, redirect_uri),
    ]
}

/// Relies on `oauth2::Client::authorize_url` and `AuthorizationRequest::url`
/// (with `PkceCodeChallenge::from_code_verifier_sha256`): the authorize URL
/// with `response_type=code`, the client id, the state, the S256 challenge
/// and the redirect URI appended to its query, in that order. Building the
/// `AuthUrl` and the `RedirectUrl` parses both texts; nothing else fails.
/// The challenge panics unless the verifier has 43 to 128 bytes.
#[verifier::external_body]
pub(crate) fn oauth2_authorize_url(
    authorize_url: &str,
    client_id: &str,
    redirect_uri: &str,
    state: &str,
    pkce_verifier: &str,
) -> (r: Option<String>)
    requires
        verifier_len_ok(pkce_verifier@),
    ensures
        match r {
            Some(u) => {
                &&& url_parses(authorize_url@) && url_parses(redirect_uri@)
                &&& url_with_query(
                    authorize_url@,
                    authorize_pairs(client_id@, redirect_uri@, state@, pkce_s256(pkce_verifier@)),
                ) == Some(u@)
            },
            None => !(url_parses(authorize_url@) && url_parses(redirect_uri@)),
        },
{
    let auth = oauth2::AuthUrl::new(authorize_url.to_string()).ok()?;
    let redirect = oauth2::RedirectUrl::new(redirect_uri.to_string()).ok()?;
    let verifier = oauth2::PkceCodeVerifier::new(pkce_verifier.to_string());
    let csrf = oauth2::CsrfToken::new(state.to_string());
    let client = oauth2::basic::BasicClient::new(oauth2::ClientId::new(client_id.to_string()), None, auth, None);
    let (url, _) = client
        .authorize_url(|| csrf)
        .set_pkce_challenge(oauth2::PkceCodeChallenge::from_code_verifier_sha256(&verifier))
        .set_redirect_uri(std::borrow::Cow::Owned(redirect))
        .url();
    Some(url.to_string())
}

/// Relies on `oauth2::CsrfToken::new_random`: the base64url text of 16
/// random bytes, never empty.
#[verifier::external_body]
pub(crate) fn random_csrf_token() -> (r: String)
    ensures
        r@.len() > 0,
{
    oauth2::CsrfToken::new_random().secret().to_string()
}

/// Relies on `oauth2::PkceCodeChallenge::new_random_sha256`: its verifier is
/// the base64url text of 32 random bytes, 43 ASCII characters.
#[verifier::external_body]
pub(crate) fn random_pkce_verifier() -> (r: String)
    ensures
        verifier_len_ok(r@),
{
    oauth2::PkceCodeChallenge::new_random_sha256().1.secret().to_string()
}

/// What the relay knows of the identity provider, and the origins to which
/// it lets a browser come back. Built once at start and only read afterwards.
pub struct ProviderConfig {
    pub authorize_url: String,
    pub token_url: String,
    pub client_id: String,
    pub client_secret: Redacted,
    /// This service's own origin and its trusted variants: the only
    /// origins under which the provider may redirect back.
    pub allowed_redirect_origins: Vec<String>,
}

impl ProviderConfig {
    /// Both endpoints are URLs.
    pub open spec fn wf(&self) -> bool {
        url_parses(self.authorize_url@) && url_parses(self.token_url@)
    }

    /// `origin` is one of the allowed redirect origins, letter for letter.
    pub open spec fn allows_origin(&self, origin: Seq<char>) -> bool {
        strings_view(self.allowed_redirect_origins@).contains(origin)
    }

    /// Whether `origin` is one of the allowed redirect origins.
    pub fn is_allowed_origin(&self, origin: &str) -> (r: bool)
        ensures
            r == self.allows_origin(origin@),
    {
        let wanted = origin.to_owned();
        let mut i: usize = 0;
        while i < self.allowed_redirect_origins.len()
            invariant
                0 <= i <= self.allowed_redirect_origins@.len(),
                wanted@ == origin@,
                forall|j: int|
                    0 <= j < i ==> #[trigger] self.allowed_redirect_origins@[j]@ != origin@,
            decreases self.allowed_redirect_origins@.len() - i,
        {
            if self.allowed_redirect_origins[i] == wanted {
                assert(strings_view(self.allowed_redirect_origins@)[i as int] == origin@);
                return true;
            }
            i = i + 1;
        }
        assert(!strings_view(self.allowed_redirect_origins@).contains(origin@)) by {
            if strings_view(self.allowed_redirect_origins@).contains(origin@) {
                let k = choose|k: int|
                    0 <= k < strings_view(self.allowed_redirect_origins@).len()
                        && strings_view(self.allowed_redirect_origins@)[k] == origin@;
                assert(self.allowed_redirect_origins@[k]@ == origin@);
            }
        }
        false
    }

    /// A provider whose endpoints have already been checked: fails with
    /// `InvalidConfiguration` unless both were found to be URLs.
    pub fn checked(
        authorize_url: String,
        token_url: String,
        client_id: String,
        client_secret: Redacted,
        allowed_redirect_origins: Vec<String>,
        authorize_url_valid: bool,
        token_url_valid: bool,
    ) -> (r: Result<ProviderConfig, Error>)
        ensures
            match r {
                Ok(c) => {
                    &&& authorize_url_valid && token_url_valid
                    &&& c.authorize_url@ == authorize_url@ && c.token_url@ == token_url@
                    &&& c.client_id@ == client_id@ && c.client_secret.0@ == client_secret.0@
                    &&& c.allowed_redirect_origins@ == allowed_redirect_origins@
                },
                Err(e) => !(authorize_url_valid && token_url_valid) && e is InvalidConfiguration,
            },
    {
        if !authorize_url_valid {
            return Err(Error::InvalidConfiguration { message: "invalid authorize url".to_owned() });
        }
        if !token_url_valid {
            return Err(Error::InvalidConfiguration { message: "invalid token url".to_owned() });
        }
        Ok(ProviderConfig { authorize_url, token_url, client_id, client_secret, allowed_redirect_origins })
    }

    /// A provider with the given endpoints; fails with `InvalidConfiguration`
    /// exactly when one of them does not parse as a URL.
    pub fn new(
        authorize_url: String,
        token_url: String,
        client_id: String,
        client_secret: Redacted,
        allowed_redirect_origins: Vec<String>,
    ) -> (r: Result<ProviderConfig, Error>)
        ensures
            match r {
                Ok(c) => {
                    &&& c.wf()
                    &&& c.authorize_url@ == authorize_url@ && c.token_url@ == token_url@
                    &&& c.client_id@ == client_id@ && c.client_secret.0@ == client_secret.0@
                    &&& c.allowed_redirect_origins@ == allowed_redirect_origins@
                },
                Err(e) => !(url_parses(authorize_url@) && url_parses(token_url@))
                    && e is InvalidConfiguration,
            },
    {
        let authorize_url_valid = is_absolute_url(authorize_url.as_str());
        let token_url_valid = is_absolute_url(token_url.as_str());
        ProviderConfig::checked(
            authorize_url,
            token_url,
            client_id,
            client_secret,
            allowed_redirect_origins,
            authorize_url_valid,
            token_url_valid,
        )
    }
}

/// The GitHub provider for the given OAuth app credentials, redirecting
/// back only under the given origins.
pub fn github_oauth2_client(
    client_id: String,
    client_secret: Redacted,
    allowed_redirect_origins: Vec<String>,
) -> (r: Result<ProviderConfig, Error>)
    ensures
        match r {
            Ok(c) => {
                &&& c.wf()
                &&& c.authorize_url@ == GITHUB_AUTHORIZE_URL@ && c.token_url@ == GITHUB_TOKEN_URL@
                &&& c.client_id@ == client_id@ && c.client_secret.0@ == client_secret.0@
                &&& c.allowed_redirect_origins@ == allowed_redirect_origins@
            },
            Err(e) => !(url_parses(GITHUB_AUTHORIZE_URL@) && url_parses(GITHUB_TOKEN_URL@))
                && e is InvalidConfiguration,
        },
{
    ProviderConfig::new(
        GITHUB_AUTHORIZE_URL.to_owned(),
        GITHUB_TOKEN_URL.to_owned(),
        client_id,
        client_secret,
        allowed_redirect_origins,
    )
}

} // verus!
