//! OAuth client credentials: the configuration, the cache of the current
//! access token and the decisions of when to refresh it and what header to
//! send with each request.
use crate::error::{Result, ZeebeError};
use vstd::prelude::*;

verus! {

/// Name of the environment variable that holds the OAuth client id.
pub const CLIENT_ID_VAR: &'static str = "ZEEBE_CLIENT_ID";
/// Name of the environment variable that holds the OAuth client secret.
pub const CLIENT_SECRET_VAR: &'static str = "ZEEBE_CLIENT_SECRET";
/// Name of the environment variable that holds the token audience.
pub const TOKEN_AUDIENCE_VAR: &'static str = "ZEEBE_TOKEN_AUDIENCE";
/// Name of the environment variable that holds the authorization server url.
pub const AUTHORIZATION_SERVER_URL_VAR: &'static str = "ZEEBE_AUTHORIZATION_SERVER_URL";
/// Name of the environment variable that holds the token request timeout.
pub const AUTH_REQUEST_TIMEOUT_VAR: &'static str = "ZEEBE_AUTH_REQUEST_TIMEOUT";

/// The expected default URL for this credentials provider, the Camunda Cloud endpoint.
pub const DEFAULT_AUTH_SERVER_URL: &'static str = "https://login.cloud.camunda.io/oauth/token/";

/// The default timeout for OAuth requests, in milliseconds.
pub const DEFAULT_REQUEST_TIMEOUT_MS: u64 = 10000;

/// Offset from access token expiration time at which clients will start
/// requesting new tokens, in nanoseconds.
pub const CLOCK_SKEW_BUFFER_NANOS: u128 = 15_000_000_000;

/// The value of a decimal text as `u64::from_str` reads it: an optional `+`
/// followed by one or more digits, with no overflow.
pub open spec fn decimal_digits_value(s: Seq<char>) -> int
    decreases s.len(),
{
    if s.len() == 0 {
        0
    } else {
        decimal_digits_value(s.drop_last()) * 10 + (s.last() as int - '0' as int)
    }
}

pub open spec fn all_decimal_digits(s: Seq<char>) -> bool {
    forall|i: int| 0 <= i < s.len() ==> '0' <= #[trigger] s[i] <= '9'
}

pub open spec fn parsed_u64(s: Seq<char>) -> Option<u64> {
    let digits = if s.len() > 0 && s[0] == '+' { s.drop_first() } else { s };
    if digits.len() > 0 && all_decimal_digits(digits) && decimal_digits_value(digits) <= u64::MAX {
        Some(decimal_digits_value(digits) as u64)
    } else {
        None
    }
}

/// A text of decimal digits has a value no smaller than that of any of its
/// prefixes, and no value is negative.
proof fn lemma_digits_value_grows(s: Seq<char>, k: int)
    requires
        all_decimal_digits(s),
        0 <= k <= s.len(),
    ensures
        0 <= decimal_digits_value(s.subrange(0, k)) <= decimal_digits_value(s),
    decreases s.len(),
{
    if s.len() > 0 {
        assert(all_decimal_digits(s.drop_last())) by {
            assert forall|i: int| 0 <= i < s.drop_last().len() implies '0' <= #[trigger] s.drop_last()[i] <= '9' by {
                assert(s.drop_last()[i] == s[i]);
            }
        }
        assert('0' <= s[s.len() - 1] <= '9');
        if k < s.len() {
            lemma_digits_value_grows(s.drop_last(), k);
            assert(s.drop_last().subrange(0, k) =~= s.subrange(0, k));
        } else {
            lemma_digits_value_grows(s.drop_last(), k - 1);
            assert(s.drop_last().subrange(0, k - 1) =~= s.drop_last());
            assert(s.subrange(0, k) =~= s);
        }
    } else {
        assert(s.subrange(0, k) =~= s);
    }
}

/// Reads a decimal `u64` as `str::parse::<u64>` does: an optional `+`
/// followed by one or more digits, and no value above `u64::MAX`.
fn parse_u64(s: &str) -> (r: Option<u64>)
    ensures
        r == parsed_u64(s@),
{
    let n = s.unicode_len();
    let start: usize = if n > 0 && s.get_char(0) == '+' { 1 } else { 0 };
    let ghost digits = s@.subrange(start as int, n as int);
    assert(digits =~= (if s@.len() > 0 && s@[0] == '+' { s@.drop_first() } else { s@ }));
    if start == n {
        return None;
    }
    let mut value: u64 = 0;
    let mut i: usize = start;
    while i < n
        invariant
            start < n,
            start <= i <= n,
            n == s@.len(),
            digits == s@.subrange(start as int, n as int),
            digits == (if s@.len() > 0 && s@[0] == '+' { s@.drop_first() } else { s@ }),
            all_decimal_digits(s@.subrange(start as int, i as int)),
            value as int == decimal_digits_value(s@.subrange(start as int, i as int)),
        decreases n - i,
    {
        let c = s.get_char(i);
        let ghost before = s@.subrange(start as int, i as int);
        let ghost after = s@.subrange(start as int, i + 1);
        assert(after.drop_last() =~= before);
        assert(after.last() == c);
        assert(after =~= digits.subrange(0, i + 1 - start));
        if c < '0' || c > '9' {
            assert(!all_decimal_digits(digits)) by {
                assert(digits[i - start] == c);
            }
            return None;
        }
        let d: u64 = (c as u32 - '0' as u32) as u64;
        assert(all_decimal_digits(after)) by {
            assert forall|j: int| 0 <= j < after.len() implies '0' <= #[trigger] after[j] <= '9' by {
                if j < after.len() - 1 {
                    assert(after[j] == before[j]);
                }
            }
        }
        if value > (u64::MAX - d) / 10 {
            proof {
                assert(value * 10 + d > u64::MAX) by (nonlinear_arith)
                    requires
                        value > (u64::MAX - d) / 10,
                        d <= 9,
                ;
                assert(decimal_digits_value(after) == value * 10 + d);
                if all_decimal_digits(digits) {
                    lemma_digits_value_grows(digits, i + 1 - start);
                }
            }
            return None;
        }
        value = value * 10 + d;
        i = i + 1;
    }
    assert(s@.subrange(start as int, n as int) =~= digits);
    Some(value)
}

/// The environment variables that configure the client, as read at one time.
#[derive(Clone, Debug)]
pub struct Environment {
    pub ca_certificate_path: Option<String>,
    pub address: Option<String>,
    pub host: Option<String>,
    pub port: Option<String>,
    pub client_id: Option<String>,
    pub client_secret: Option<String>,
    pub token_audience: Option<String>,
    pub authorization_server_url: Option<String>,
    pub auth_request_timeout: Option<String>,
}

/// The timeout of token requests that an environment asks for.
pub open spec fn env_request_timeout_ms(env: Environment) -> u64 {
    match env.auth_request_timeout {
        Some(t) => match parsed_u64(t@) {
            Some(ms) => ms,
            None => DEFAULT_REQUEST_TIMEOUT_MS,
        },
        None => DEFAULT_REQUEST_TIMEOUT_MS,
    }
}

/// OAuth client credentials configuration.
#[derive(Clone)]
pub struct OAuthConfig {
    pub client_id: String,
    pub client_secret: String,
    pub token_audience: Option<String>,
    pub authorization_server_url: String,
    pub timeout_ms: u64,
}

impl OAuthConfig {
    /// Whether the environment asks for OAuth: the client id or the client
    /// secret is set.
    pub open spec fn should_use_env_config_spec(env: Environment) -> bool {
        env.client_id is Some || env.client_secret is Some
    }

    /// Whether `c` is the OAuth configuration that the environment
    /// describes: its id and secret, its audience if any, its server url or
    /// the default one, and its request timeout or the default one.
    pub open spec fn env_config(env: Environment, c: OAuthConfig) -> bool {
        &&& env.client_id matches Some(id) && c.client_id@ == id@
        &&& env.client_secret matches Some(secret) && c.client_secret@ == secret@
        &&& c.token_audience.deep_view() == env.token_audience.deep_view()
        &&& c.authorization_server_url@ == (match env.authorization_server_url {
            Some(u) => u@,
            None => DEFAULT_AUTH_SERVER_URL@,
        })
        &&& c.timeout_ms == env_request_timeout_ms(env)
    }

    /// Check if auth env vars set
    pub fn should_use_env_config(env: &Environment) -> (r: bool)
        ensures
            r == Self::should_use_env_config_spec(*env),
    {
        env.client_id.is_some() || env.client_secret.is_some()
    }

    /// The OAuth configuration that the environment describes: the client id
    /// and secret are required, the audience is optional, the server url and
    /// the request timeout have defaults.
    pub fn from_env(env: &Environment) -> (r: Result<Self>)
        ensures
            env.client_id is None ==> crate::error::is_invalid_parameters(r, "ZEEBE_CLIENT_ID not set"),
            env.client_id is Some && env.client_secret is None
                ==> crate::error::is_invalid_parameters(r, "ZEEBE_CLIENT_SECRET not set"),
            env.client_id is Some && env.client_secret is Some <==> r is Ok,
            r matches Ok(c) ==> Self::env_config(*env, c),
    {
        let client_id = match &env.client_id {
            Some(id) => id.clone(),
            None => return Err(ZeebeError::InvalidParameters("ZEEBE_CLIENT_ID not set")),
        };
        let client_secret = match &env.client_secret {
            Some(secret) => secret.clone(),
            None => return Err(ZeebeError::InvalidParameters("ZEEBE_CLIENT_SECRET not set")),
        };
        let token_audience = match &env.token_audience {
            Some(audience) => Some(audience.clone()),
            None => None,
        };
        let authorization_server_url = match &env.authorization_server_url {
            Some(url) => url.clone(),
            None => DEFAULT_AUTH_SERVER_URL.to_string(),
        };
        let timeout_ms = match &env.auth_request_timeout {
            Some(t) => match parse_u64(t.as_str()) {
                Some(ms) => ms,
                None => DEFAULT_REQUEST_TIMEOUT_MS,
            },
            None => DEFAULT_REQUEST_TIMEOUT_MS,
        };
        Ok(OAuthConfig {
            client_id,
            client_secret,
            token_audience,
            authorization_server_url,
            timeout_ms,
        })
    }
}

/// The name of the extra form parameter that carries the token audience.
pub const AUDIENCE_PARAM: &'static str = "audience";

impl OAuthConfig {
    /// The extra form parameters of the client-credentials token request:
    /// the audience, when one is configured.
    pub fn token_request_extra_params(&self) -> (r: Vec<(String, String)>)
        ensures
            match self.token_audience {
                Some(a) => r@.len() == 1 && r@[0].0@ == AUDIENCE_PARAM@ && r@[0].1@ == a@,
                None => r@.len() == 0,
            },
    {
        let mut params: Vec<(String, String)> = Vec::new();
        match &self.token_audience {
            Some(audience) => params.push((AUDIENCE_PARAM.to_string(), audience.clone())),
            None => {},
        }
        params
    }
}

/// An access token with the instant, in nanoseconds since the UNIX epoch, at
/// which it expires.
#[derive(Clone, Debug)]
pub struct CachedToken {
    pub access_token: String,
    pub expires_at: u128,
}

/// The cache of the current access token.
#[derive(Debug)]
pub struct TokenCache {
    pub token: Option<CachedToken>,
}

/// The text of the `authorization` header that carries an access token.
pub open spec fn bearer_text(access_token: Seq<char>) -> Seq<char> {
    "Bearer "@ + access_token
}

impl TokenCache {
    /// The token the cache hands out, if any.
    pub open spec fn spec_access_token(self) -> Option<Seq<char>> {
        match self.token {
            Some(t) => Some(t.access_token@),
            None => None,
        }
    }

    /// The `authorization` header the cache yields, if any.
    pub open spec fn spec_authorization(self) -> Option<Seq<char>> {
        match self.token {
            Some(t) => Some(bearer_text(t.access_token@)),
            None => None,
        }
    }

    /// The cache after storing a token obtained at `now`, valid for
    /// `expires_in` nanoseconds.
    pub open spec fn spec_stored(self, access_token: String, expires_in: Option<u128>, now: u128) -> TokenCache {
        TokenCache {
            token: Some(CachedToken {
                access_token,
                expires_at: (now + (match expires_in { Some(d) => d, None => 0u128 })) as u128,
            }),
        }
    }

    /// Whether the cached token is missing or expires within the clock skew
    /// buffer of `now`.
    pub open spec fn spec_is_expired(self, now: u128) -> bool {
        match self.token {
            Some(t) => t.expires_at <= now + CLOCK_SKEW_BUFFER_NANOS,
            None => true,
        }
    }

    /// An empty cache.
    pub fn new() -> (r: Self)
        ensures
            r.token is None,
    {
        TokenCache { token: None }
    }

    /// The cached access token, or an authentication error when no token was
    /// obtained yet.
    pub fn access_token(&self) -> (r: Result<String>)
        ensures
            match self.spec_access_token() {
                Some(t) => r matches Ok(s) && s@ == t,
                None => r matches Err(ZeebeError::Auth(m)) && m@ == "Not authed yet"@,
            },
    {
        match &self.token {
            Some(t) => Ok(t.access_token.clone()),
            None => Err(ZeebeError::Auth("Not authed yet".to_string())),
        }
    }

    /// Whether a new token must be requested at time `now` (nanoseconds since
    /// the UNIX epoch).
    pub fn cached_token_is_expired(&self, now: u128) -> (r: bool)
        requires
            now + CLOCK_SKEW_BUFFER_NANOS <= u128::MAX,
        ensures
            r == self.spec_is_expired(now),
    {
        match &self.token {
            Some(t) => t.expires_at <= now + CLOCK_SKEW_BUFFER_NANOS,
            None => true,
        }
    }

    /// Stores a token obtained at time `now` that the server says is valid
    /// for `expires_in` nanoseconds (none said: it expires at once).
    pub fn store(&mut self, access_token: String, expires_in: Option<u128>, now: u128)
        requires
            now + (match expires_in { Some(d) => d, None => 0 }) <= u128::MAX,
        ensures
            *final(self) == old(self).spec_stored(access_token, expires_in, now),
            final(self).token matches Some(t) && t.access_token == access_token
                && t.expires_at == now + (match expires_in { Some(d) => d, None => 0 }),
            expires_in is None ==> (final(self).token is Some && final(self).token->Some_0.expires_at == now),
    {
        let lifetime: u128 = match expires_in {
            Some(d) => d,
            None => 0,
        };
        self.token = Some(CachedToken { access_token, expires_at: now + lifetime });
    }

    /// The value of the `authorization` header for the next request: the
    /// bearer token when one is cached, otherwise the reason the request is
    /// denied.
    pub fn authorization_header(&self) -> (r: core::result::Result<String, &'static str>)
        ensures
            match self.spec_authorization() {
                Some(h) => r matches Ok(v) && v@ == h,
                None => r matches Err(m) && m@ == "No valid token available"@,
            },
    {
        match &self.token {
            Some(t) => {
                let header = String::from_str("Bearer ").concat(t.access_token.as_str());
                Ok(header)
            },
            None => Err("No valid token available"),
        }
    }
}

impl TokenCache {
    /// What the refresher does with the answer to a token request, taken at
    /// time `now`: a granted token (with its lifetime in nanoseconds, if the
    /// server gave one) is stored; a failed request leaves the cached token
    /// as it was. Says whether a token was stored, after which the clients
    /// waiting for the first token are told.
    pub fn apply_refresh(&mut self, outcome: core::result::Result<(String, Option<u128>), String>, now: u128) -> (stored: bool)
        requires
            outcome matches Ok((_, expires_in)) ==> now + (match expires_in { Some(d) => d, None => 0 }) <= u128::MAX,
        ensures
            stored == outcome is Ok,
            match outcome {
                Ok((access_token, expires_in)) => *final(self) == old(self).spec_stored(access_token, expires_in, now),
                Err(_) => *final(self) == *old(self),
            },
    {
        match outcome {
            Ok((access_token, expires_in)) => {
                self.store(access_token, expires_in, now);
                true
            },
            Err(_) => false,
        }
    }
}

/// What the background refresher does at a tick.
#[derive(Debug)]
pub enum RefreshStep {
    /// The cached token is still good for longer than the skew buffer.
    KeepCurrent,
    /// Request a new token with these extra form parameters, waiting at
    /// most `timeout_ms` milliseconds for the answer.
    RequestToken { extra_params: Vec<(String, String)>, timeout_ms: u64 },
}

impl TokenCache {
    /// The refresher's decision at time `now`: keep the cached token while it
    /// is not expired, otherwise request a new one as `config` says.
    pub fn refresh_step(&self, config: &OAuthConfig, now: u128) -> (r: RefreshStep)
        requires
            now + CLOCK_SKEW_BUFFER_NANOS <= u128::MAX,
        ensures
            self.spec_is_expired(now) <==> r is RequestToken,
            r matches RefreshStep::RequestToken { extra_params, timeout_ms } ==> {
                &&& timeout_ms == config.timeout_ms
                &&& match config.token_audience {
                    Some(a) => extra_params@.len() == 1 && extra_params@[0].0@ == AUDIENCE_PARAM@
                        && extra_params@[0].1@ == a@,
                    None => extra_params@.len() == 0,
                }
            },
    {
        if self.cached_token_is_expired(now) {
            RefreshStep::RequestToken { extra_params: config.token_request_extra_params(), timeout_ms: config.timeout_ms }
        } else {
            RefreshStep::KeepCurrent
        }
    }
}

/// Read after write: once a token is stored, the cache hands out exactly
/// that token and the `authorization` header carries it, whatever was cached
/// before.
pub proof fn lemma_store_then_read(before: TokenCache, access_token: String, expires_in: Option<u128>, now: u128)
    requires
        now + (match expires_in { Some(d) => d, None => 0 }) <= u128::MAX,
    ensures
        before.spec_stored(access_token, expires_in, now).spec_access_token() == Some(access_token@),
        before.spec_stored(access_token, expires_in, now).spec_authorization() == Some(bearer_text(access_token@)),
        before.spec_stored(access_token, expires_in, now).spec_authorization() == Some("Bearer "@ + access_token@),
{
}

/// A stored token expires its lifetime after the time it was stored, and a
/// token that the server grants without a lifetime expires at once: it is
/// expired at the time it was stored, so the next refresh requests another.
pub proof fn lemma_stored_token_expiry(before: TokenCache, access_token: String, expires_in: Option<u128>, now: u128)
    requires
        now + (match expires_in { Some(d) => d, None => 0 }) <= u128::MAX,
        now + CLOCK_SKEW_BUFFER_NANOS <= u128::MAX,
    ensures
        before.spec_stored(access_token, expires_in, now).token matches Some(t)
            && t.access_token == access_token
            && t.expires_at == now + (match expires_in { Some(d) => d, None => 0 }),
        expires_in is None ==> (before.spec_stored(access_token, expires_in, now).token is Some
            && before.spec_stored(access_token, expires_in, now).token->Some_0.expires_at == now),
        expires_in is None ==> before.spec_stored(access_token, expires_in, now).spec_is_expired(now),
        expires_in matches Some(d) && d > CLOCK_SKEW_BUFFER_NANOS
            ==> !before.spec_stored(access_token, expires_in, now).spec_is_expired(now),
{
}

/// A token that the server grants for longer than the clock skew buffer is
/// not expired at the time it was stored, and becomes expired once the
/// buffer before its expiry is reached; an empty cache is always expired.
pub proof fn lemma_expiry(access_token: String, lifetime: u128, now: u128)
    requires
        now + lifetime <= u128::MAX,
    ensures
        lifetime > CLOCK_SKEW_BUFFER_NANOS ==> !(TokenCache {
            token: Some(CachedToken { access_token, expires_at: (now + lifetime) as u128 }),
        }).spec_is_expired(now),
        forall|later: u128| later + CLOCK_SKEW_BUFFER_NANOS >= now + lifetime ==> #[trigger] (TokenCache {
            token: Some(CachedToken { access_token, expires_at: (now + lifetime) as u128 }),
        }).spec_is_expired(later),
        (TokenCache { token: None }).spec_is_expired(now),
{
}

/// The URL at which the authorization server is reached, as `oauth2` holds it.
#[verifier::external_type_specification]
#[verifier::external_body]
pub struct ExAuthUrl(oauth2::AuthUrl);

/// The URL at which tokens are requested, as `oauth2` holds it.
#[verifier::external_type_specification]
#[verifier::external_body]
pub struct ExTokenUrl(oauth2::TokenUrl);

/// What `oauth2::AuthUrl::new` makes of `url`: the parsed URL (with its
/// text), or `None` where `url::Url::parse` rejects the text. Parsing depends
/// on the text alone.
pub uninterp spec fn parsed_auth_url(url: Seq<char>) -> Option<oauth2::AuthUrl>;

/// What `oauth2::TokenUrl::new` makes of `url`: the parsed URL (with its
/// text), or `None` where `url::Url::parse` rejects the text. Parsing depends
/// on the text alone.
pub uninterp spec fn parsed_token_url(url: Seq<char>) -> Option<oauth2::TokenUrl>;

/// `oauth2::AuthUrl::new`: parses the authorization server's URL.
#[verifier::external_body]
fn auth_url(url: &String) -> (r: Option<oauth2::AuthUrl>)
    ensures
        r == parsed_auth_url(url@),
{
    oauth2::AuthUrl::new(url.clone()).ok()
}

/// `oauth2::TokenUrl::new`: parses the token endpoint's URL.
#[verifier::external_body]
fn token_url(url: &String) -> (r: Option<oauth2::TokenUrl>)
    ensures
        r == parsed_token_url(url@),
{
    oauth2::TokenUrl::new(url.clone()).ok()
}

impl OAuthConfig {
    /// The authorization and token URLs of the OAuth client, both read from
    /// the configured server URL; `None` where that text is not a URL.
    pub fn server_urls(&self) -> (r: Option<(oauth2::AuthUrl, oauth2::TokenUrl)>)
        ensures
            r is Some <==> (parsed_auth_url(self.authorization_server_url@) is Some
                && parsed_token_url(self.authorization_server_url@) is Some),
            r matches Some((a, t)) ==> parsed_auth_url(self.authorization_server_url@) == Some(a)
                && parsed_token_url(self.authorization_server_url@) == Some(t),
    {
        match (auth_url(&self.authorization_server_url), token_url(&self.authorization_server_url)) {
            (Some(a), Some(t)) => Some((a, t)),
            _ => None,
        }
    }
}

/// The state of one OAuth credentials provider: its configuration and the
/// cache of its current token.
pub struct TokenProvider {
    pub config: OAuthConfig,
    pub cache: TokenCache,
}

impl TokenProvider {
    /// A provider for `config` that holds no token yet, so that its first
    /// refresh requests one.
    pub fn new(config: OAuthConfig) -> (r: Self)
        ensures
            r.config == config,
            r.cache.token is None,
    {
        TokenProvider { config, cache: TokenCache::new() }
    }
}

/// A provider shared between its background refresher and the requests: its
/// state behind a lock, and the sender that announces each new token. The
/// runtime builds it around a new `TokenProvider`.
pub struct SharedTokenProvider {
    pub state: std::sync::Mutex<TokenProvider>,
    pub init_sender: tokio::sync::broadcast::Sender<()>,
}

/// Adds the bearer token of the configured provider, if any, to each request.
pub struct AuthInterceptor {
    pub token_provider: Option<std::sync::Arc<SharedTokenProvider>>,
}

impl AuthInterceptor {
    /// An interceptor that adds no credentials.
    pub fn unauthenticated() -> (r: Self)
        ensures
            r.token_provider is None,
    {
        AuthInterceptor { token_provider: None }
    }

    /// An interceptor that adds the tokens of `provider`.
    pub fn with_provider(provider: std::sync::Arc<SharedTokenProvider>) -> (r: Self)
        ensures
            r.token_provider == Some(provider),
    {
        AuthInterceptor { token_provider: Some(provider) }
    }

    /// Whether requests carry credentials.
    pub fn is_configured(&self) -> (r: bool)
        ensures
            r == self.token_provider is Some,
    {
        self.token_provider.is_some()
    }
}

impl Clone for AuthInterceptor {
    /// Another handle to the same provider.
    fn clone(&self) -> (r: Self)
        ensures
            r == *self,
    {
        match &self.token_provider {
            Some(p) => AuthInterceptor { token_provider: Some(crate::interop::share(p)) },
            None => AuthInterceptor { token_provider: None },
        }
    }
}

impl Default for AuthInterceptor {
    fn default() -> (r: Self)
        ensures
            r.token_provider is None,
    {
        AuthInterceptor::unauthenticated()
    }
}

} // verus!
