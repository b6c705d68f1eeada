//! Building a Protect client: the builder, its defaults, and the plan the
//! program turns into HTTP clients.
//!
//! Defaults: a proactive rate limiter at the server's advertised quota
//! (10 requests per second) and a retry policy that honours
//! `Retry-After` on 429 and retries 5xx/408 and transport failures, for
//! reads. Writes are rate-limited too, but retried only when asked
//! (`retry_on_mutations`), since re-sending a mutation after a 5xx can
//! apply it twice. The rate limiter sits inside the retry layer, so every
//! retry takes a fresh permit.

use vstd::prelude::*;

use crate::auth::{header_text_ok, ApiKey, ApiKeyHeader};
use crate::error::{reqwest_error_text, Error};
use crate::rate_limit::RateLimitConfig;
use crate::retry::RetryAfterAwareMiddleware;
use crate::text::{chars_of, push_char, push_str, to_owned};
use crate::time::Duration;

use url::{ParseError as UrlParseError, Url};

verus! {

#[verifier::external_type_specification]
#[verifier::external_body]
pub struct ExUrl(Url);

#[verifier::external_type_specification]
#[verifier::external_body]
pub struct ExUrlParseError(UrlParseError);

#[verifier::external_type_specification]
#[verifier::external_body]
pub struct ExCertificate(reqwest::Certificate);

/// How the TLS stack validates the NVR's certificate.
#[derive(Clone, Debug)]
pub enum TlsMode {
    /// The bundled trust store (the default).
    Native,
    /// Trust this PEM-encoded certificate (typical for a self-signed NVR).
    Pinned(Vec<u8>),
    /// No verification at all.
    AcceptInvalid,
}

/// Retry policy for transient failures; see [`crate::retry`].
#[derive(Clone, Copy, Debug, PartialEq, Eq)]
pub struct RetryConfig {
    pub max_retries: u32,
    pub initial_backoff: Duration,
    pub max_backoff: Duration,
}

impl RetryConfig {
    /// 3 retries, backoff from 200 ms up to 5 s.
    pub fn default() -> (c: RetryConfig)
        ensures
            c.max_retries == 3,
            c.initial_backoff@ == 200_000_000,
            c.max_backoff@ == 5_000_000_000,
    {
        RetryConfig {
            max_retries: 3,
            initial_backoff: Duration::from_millis(200),
            max_backoff: Duration::from_secs(5),
        }
    }
}

/// Middleware layers of an HTTP client, outermost first.
#[derive(Clone, Copy, Debug, PartialEq, Eq, Structural)]
pub enum Layer {
    Retry,
    RateLimit,
}

/// Builder for a Protect client.
pub struct ProtectClientBuilder {
    host: Option<String>,
    base_url: Option<String>,
    api_key: Option<ApiKey>,
    tls: TlsMode,
    retry: RetryConfig,
    retry_on_mutations: bool,
    rate_limit: Option<RateLimitConfig>,
    rate_limit_overridden: bool,
}

/// What building a client settles before the HTTP clients are made.
pub struct ClientPlan {
    pub base_url: ParsedUrl,
    pub api_key_header: ApiKeyHeader,
    pub tls: TlsMode,
    /// The certificate to trust, for `TlsMode::Pinned`.
    pub root_certificate: Option<reqwest::Certificate>,
    pub retry: RetryAfterAwareMiddleware,
    pub retry_on_mutations: bool,
    /// The rate limit in effect, shared by reads and writes.
    pub rate_limit: Option<RateLimitConfig>,
    /// Layers of the client used for reads (GET).
    pub read_layers: Vec<Layer>,
    /// Layers of the client used for mutations.
    pub write_layers: Vec<Layer>,
}

/// Names whether `s` parses as a URL under `Url::parse`.
pub uninterp spec fn url_parses(s: Seq<char>) -> bool;

/// A URL parsed by `Url::parse`, with the text it was parsed from.
pub struct ParsedUrl {
    url: Url,
    source: Ghost<Seq<char>>,
}

impl ParsedUrl {
    /// The text the URL was parsed from.
    pub closed spec fn source(self) -> Seq<char> {
        self.source@
    }

    /// The parsed URL.
    pub fn url(&self) -> &Url {
        &self.url
    }
}

/// `Url::parse`: succeeds exactly when `url_parses` holds of the text,
/// with the URL parsed from `s`.
#[verifier::external_body]
fn parse_url(s: &str) -> (r: Result<ParsedUrl, UrlParseError>)
    ensures
        r is Ok <==> url_parses(s@),
        r matches Ok(u) ==> u.source() == s@,
{
    match Url::parse(s) {
        Ok(url) => Ok(ParsedUrl { url, source: Ghost(s@) }),
        Err(e) => Err(e),
    }
}

/// `Display` of `url::ParseError` (a fixed text per kind of failure).
#[verifier::external_body]
fn url_parse_error_text(e: &UrlParseError) -> (r: String) {
    e.to_string()
}

/// `reqwest::Certificate::from_pem`. With the rustls backend this crate
/// builds with, it keeps the bytes and never fails; parsing happens when
/// the client is built.
#[verifier::external_body]
fn certificate_from_pem(pem: &[u8]) -> (r: Result<reqwest::Certificate, reqwest::Error>)
    ensures
        r is Ok,
{
    reqwest::Certificate::from_pem(pem)
}

/// The base URL text a builder names: `base_url` as given, else
/// `https://<host>/proxy/protect/integration`.
pub open spec fn raw_base_url(base_url: Option<Seq<char>>, host: Option<Seq<char>>) -> Option<Seq<char>> {
    match base_url {
        Some(u) => Some(u),
        None => match host {
            Some(h) => Some("https://"@ + h + "/proxy/protect/integration"@),
            None => None,
        },
    }
}

/// The text with a trailing `/`, added when missing.
pub open spec fn with_trailing_slash(s: Seq<char>) -> Seq<char> {
    if s.len() > 0 && s.last() == '/' {
        s
    } else {
        s.push('/')
    }
}

/// The read layers: retry, then the rate limit when there is one.
pub open spec fn read_layers_spec(limited: bool) -> Seq<Layer> {
    if limited {
        seq![Layer::Retry, Layer::RateLimit]
    } else {
        seq![Layer::Retry]
    }
}

/// The write layers: retry only when asked, then the rate limit when
/// there is one.
pub open spec fn write_layers_spec(retry_on_mutations: bool, limited: bool) -> Seq<Layer> {
    (if retry_on_mutations {
        seq![Layer::Retry]
    } else {
        Seq::empty()
    }) + (if limited {
        seq![Layer::RateLimit]
    } else {
        Seq::empty()
    })
}

/// Adds a trailing `/` when missing, then parses the URL.
pub fn parse_base_url(raw: &str) -> (r: Result<ParsedUrl, Error>)
    ensures
        r is Ok <==> url_parses(with_trailing_slash(raw@)),
        r matches Ok(u) ==> u.source() == with_trailing_slash(raw@),
        r matches Err(Error::InvalidUrl(m)) ==> exists|t: Seq<char>|
            m@ == with_trailing_slash(raw@) + ": "@ + t,
        r is Err ==> r matches Err(Error::InvalidUrl(_)),
{
    let v = chars_of(raw);
    let mut s = to_owned(raw);
    if !(v.len() > 0 && v[v.len() - 1] == '/') {
        push_char(&mut s, '/');
    }
    assert(s@ == with_trailing_slash(raw@));
    match parse_url(s.as_str()) {
        Ok(u) => Ok(u),
        Err(e) => {
            let t = url_parse_error_text(&e);
            let mut m = to_owned(s.as_str());
            push_str(&mut m, ": ");
            push_str(&mut m, t.as_str());
            Err(Error::InvalidUrl(m))
        },
    }
}

/// What a plan takes from the builder `b` besides its base URL: the key
/// as a sensitive header value, the TLS mode (with the certificate to
/// trust exactly when pinned), the retry policy, whether mutations are
/// retried, the rate limit in effect, and the layers of the two stacks.
pub open spec fn plan_settles(p: ClientPlan, b: ProtectClientBuilder) -> bool {
    &&& p.api_key_header.text() == b.api_key_spec()->Some_0
    &&& p.api_key_header.sensitive()
    &&& p.tls == b.tls_spec()
    &&& (p.root_certificate is Some <==> b.tls_spec() is Pinned)
    &&& p.retry.max_retries == b.retry_spec().max_retries
    &&& p.retry.initial_backoff == b.retry_spec().initial_backoff
    &&& p.retry.max_backoff == b.retry_spec().max_backoff
    &&& p.retry_on_mutations == b.retry_on_mutations_spec()
    &&& p.rate_limit == b.effective_rate_limit()
    &&& p.read_layers@ == read_layers_spec(b.effective_rate_limit() is Some)
    &&& p.write_layers@ == write_layers_spec(b.retry_on_mutations_spec(), b.effective_rate_limit() is Some)
}

impl ProtectClientBuilder {
    pub closed spec fn host_spec(&self) -> Option<Seq<char>> {
        match self.host {
            Some(h) => Some(h@),
            None => None,
        }
    }

    pub closed spec fn base_url_spec(&self) -> Option<Seq<char>> {
        match self.base_url {
            Some(u) => Some(u@),
            None => None,
        }
    }

    pub closed spec fn api_key_spec(&self) -> Option<Seq<char>> {
        match self.api_key {
            Some(k) => Some(k.text()),
            None => None,
        }
    }

    pub closed spec fn tls_spec(&self) -> TlsMode {
        self.tls
    }

    pub closed spec fn retry_spec(&self) -> RetryConfig {
        self.retry
    }

    pub closed spec fn retry_on_mutations_spec(&self) -> bool {
        self.retry_on_mutations
    }

    /// Whether `rate_limit` was called on this builder.
    pub closed spec fn rate_limit_set(&self) -> bool {
        self.rate_limit_overridden
    }

    /// The rate limit the client will use: the one set, when set (even to
    /// none), else the default.
    pub closed spec fn effective_rate_limit(&self) -> Option<RateLimitConfig> {
        if self.rate_limit_overridden {
            self.rate_limit
        } else {
            Some(crate::rate_limit::default_config())
        }
    }

    /// Nothing set: native TLS, default retry, no retry on mutations,
    /// default rate limit.
    pub fn new() -> (b: ProtectClientBuilder)
        ensures
            b.host_spec() is None,
            b.base_url_spec() is None,
            b.api_key_spec() is None,
            b.tls_spec() is Native,
            b.retry_spec().max_retries == 3,
            b.retry_spec().initial_backoff@ == 200_000_000,
            b.retry_spec().max_backoff@ == 5_000_000_000,
            !b.retry_on_mutations_spec(),
            b.effective_rate_limit() matches Some(c) && c.rate.spec_get() == 10 && c.per@
                == 1_000_000_000,
            b.effective_rate_limit() == Some(crate::rate_limit::default_config()),
            !b.rate_limit_set(),
    {
        proof {
            crate::rate_limit::lemma_default_config();
        }
        ProtectClientBuilder {
            host: None,
            base_url: None,
            api_key: None,
            tls: TlsMode::Native,
            retry: RetryConfig::default(),
            retry_on_mutations: false,
            rate_limit: None,
            rate_limit_overridden: false,
        }
    }

    /// The NVR hostname (or `host:port`); the base URL becomes
    /// `https://<host>/proxy/protect/integration` unless a base URL is set.
    pub fn host(self, host: String) -> (b: ProtectClientBuilder)
        ensures
            b.host_spec() == Some(host@),
            b.base_url_spec() == self.base_url_spec(),
            b.api_key_spec() == self.api_key_spec(),
            b.tls_spec() == self.tls_spec(),
            b.retry_spec() == self.retry_spec(),
            b.retry_on_mutations_spec() == self.retry_on_mutations_spec(),
            b.effective_rate_limit() == self.effective_rate_limit(),
            b.rate_limit_set() == self.rate_limit_set(),
    {
        ProtectClientBuilder { host: Some(host), ..self }
    }

    /// The whole base URL (e.g. a mock server); `host` is then ignored.
    pub fn base_url(self, url: String) -> (b: ProtectClientBuilder)
        ensures
            b.base_url_spec() == Some(url@),
            b.host_spec() == self.host_spec(),
            b.api_key_spec() == self.api_key_spec(),
            b.tls_spec() == self.tls_spec(),
            b.retry_spec() == self.retry_spec(),
            b.retry_on_mutations_spec() == self.retry_on_mutations_spec(),
            b.effective_rate_limit() == self.effective_rate_limit(),
            b.rate_limit_set() == self.rate_limit_set(),
    {
        ProtectClientBuilder { base_url: Some(url), ..self }
    }

    /// The API key.
    pub fn api_key(self, key: String) -> (b: ProtectClientBuilder)
        ensures
            b.api_key_spec() == Some(key@),
            b.host_spec() == self.host_spec(),
            b.base_url_spec() == self.base_url_spec(),
            b.tls_spec() == self.tls_spec(),
            b.retry_spec() == self.retry_spec(),
            b.retry_on_mutations_spec() == self.retry_on_mutations_spec(),
            b.effective_rate_limit() == self.effective_rate_limit(),
            b.rate_limit_set() == self.rate_limit_set(),
    {
        ProtectClientBuilder { api_key: Some(ApiKey::new(key)), ..self }
    }

    /// The TLS validation mode.
    pub fn tls(self, mode: TlsMode) -> (b: ProtectClientBuilder)
        ensures
            b.tls_spec() == mode,
            b.host_spec() == self.host_spec(),
            b.base_url_spec() == self.base_url_spec(),
            b.api_key_spec() == self.api_key_spec(),
            b.retry_spec() == self.retry_spec(),
            b.retry_on_mutations_spec() == self.retry_on_mutations_spec(),
            b.effective_rate_limit() == self.effective_rate_limit(),
            b.rate_limit_set() == self.rate_limit_set(),
    {
        ProtectClientBuilder { tls: mode, ..self }
    }

    /// The retry policy.
    pub fn retry(self, config: RetryConfig) -> (b: ProtectClientBuilder)
        ensures
            b.retry_spec() == config,
            b.host_spec() == self.host_spec(),
            b.base_url_spec() == self.base_url_spec(),
            b.api_key_spec() == self.api_key_spec(),
            b.tls_spec() == self.tls_spec(),
            b.retry_on_mutations_spec() == self.retry_on_mutations_spec(),
            b.effective_rate_limit() == self.effective_rate_limit(),
            b.rate_limit_set() == self.rate_limit_set(),
    {
        ProtectClientBuilder { retry: config, ..self }
    }

    /// Whether mutations are retried too (default: no).
    pub fn retry_on_mutations(self, enabled: bool) -> (b: ProtectClientBuilder)
        ensures
            b.retry_on_mutations_spec() == enabled,
            b.host_spec() == self.host_spec(),
            b.base_url_spec() == self.base_url_spec(),
            b.api_key_spec() == self.api_key_spec(),
            b.tls_spec() == self.tls_spec(),
            b.retry_spec() == self.retry_spec(),
            b.effective_rate_limit() == self.effective_rate_limit(),
            b.rate_limit_set() == self.rate_limit_set(),
    {
        ProtectClientBuilder { retry_on_mutations: enabled, ..self }
    }

    /// The proactive rate limit; `None` turns it off.
    pub fn rate_limit(self, config: Option<RateLimitConfig>) -> (b: ProtectClientBuilder)
        ensures
            b.effective_rate_limit() == config,
            b.rate_limit_set(),
            b.host_spec() == self.host_spec(),
            b.base_url_spec() == self.base_url_spec(),
            b.api_key_spec() == self.api_key_spec(),
            b.tls_spec() == self.tls_spec(),
            b.retry_spec() == self.retry_spec(),
            b.retry_on_mutations_spec() == self.retry_on_mutations_spec(),
    {
        ProtectClientBuilder { rate_limit: config, rate_limit_overridden: true, ..self }
    }

    /// Settles everything the client needs before its HTTP clients are
    /// made. Errors, in the order checked:
    /// - `MissingApiKey` without a key;
    /// - `InvalidUrl` without host or base URL, or when the base URL (with
    ///   a trailing `/`) does not parse;
    /// - `Other` when the key cannot be a header value.
    pub fn plan(self) -> (r: Result<ClientPlan, Error>)
        ensures
            self.api_key_spec() is None ==> r matches Err(Error::MissingApiKey),
            self.api_key_spec() is Some && raw_base_url(self.base_url_spec(), self.host_spec()) is None
                ==> (r matches Err(Error::InvalidUrl(m)) && m@
                == "either host or base_url must be set"@),
            self.api_key_spec() is Some ==> match raw_base_url(self.base_url_spec(), self.host_spec()) {
                None => true,
                Some(raw) => if !url_parses(with_trailing_slash(raw)) {
                    r matches Err(Error::InvalidUrl(_))
                } else if !header_text_ok(self.api_key_spec()->Some_0) {
                    r matches Err(Error::Other(m)) && m@
                        == "invalid api key for header: failed to parse header value"@
                } else {
                    r matches Ok(p) && p.base_url.source() == with_trailing_slash(raw)
                        && plan_settles(p, self)
                },
            },
    {
        if self.api_key.is_none() {
            return Err(Error::MissingApiKey);
        }
        let base_url_raw = match &self.base_url {
            Some(url) => to_owned(url.as_str()),
            None => match &self.host {
                Some(host) => {
                    let mut u = to_owned("https://");
                    push_str(&mut u, host.as_str());
                    push_str(&mut u, "/proxy/protect/integration");
                    u
                },
                None => return Err(
                    Error::InvalidUrl(to_owned("either host or base_url must be set")),
                ),
            },
        };
        match parse_base_url(base_url_raw.as_str()) {
            Ok(u) => self.plan_with_url(u),
            Err(e) => Err(e),
        }
    }

    /// The rest of [`Self::plan`], once the base URL is parsed: the key
    /// header, the pinned certificate, the retry policy, the rate limit and
    /// the layers of the two stacks. Errors: `MissingApiKey` without a key,
    /// `Other` when the key cannot be a header value.
    pub fn plan_with_url(self, base_url: ParsedUrl) -> (r: Result<ClientPlan, Error>)
        ensures
            self.api_key_spec() is None ==> r matches Err(Error::MissingApiKey),
            self.api_key_spec() matches Some(k) && !header_text_ok(k) ==> (r matches Err(
                Error::Other(m),
            ) && m@ == "invalid api key for header: failed to parse header value"@),
            self.api_key_spec() matches Some(k) && header_text_ok(k) ==> (r matches Ok(p)
                && p.base_url == base_url && plan_settles(p, self)),
    {
        let api_key = match self.api_key {
            Some(k) => k,
            None => return Err(Error::MissingApiKey),
        };
        let api_key_header = match api_key.header_value() {
            Ok(v) => v,
            Err(_) => {
                // `InvalidHeaderValue` displays as "failed to parse header value".
                return Err(
                    Error::Other(
                        to_owned("invalid api key for header: failed to parse header value"),
                    ),
                );
            },
        };
        let root_certificate = match &self.tls {
            TlsMode::Pinned(pem) => match certificate_from_pem(pem.as_slice()) {
                Ok(c) => Some(c),
                Err(e) => {
                    let mut m = to_owned("invalid pinned certificate: ");
                    let t = reqwest_error_text(&e);
                    push_str(&mut m, t.as_str());
                    return Err(Error::Other(m));
                },
            },
            _ => None,
        };
        let retry = RetryAfterAwareMiddleware {
            max_retries: self.retry.max_retries,
            initial_backoff: self.retry.initial_backoff,
            max_backoff: self.retry.max_backoff,
        };
        let rate_limit = if self.rate_limit_overridden {
            self.rate_limit
        } else {
            Some(RateLimitConfig::default())
        };
        let mut read_layers: Vec<Layer> = Vec::new();
        read_layers.push(Layer::Retry);
        let mut write_layers: Vec<Layer> = Vec::new();
        if self.retry_on_mutations {
            write_layers.push(Layer::Retry);
        }
        if rate_limit.is_some() {
            read_layers.push(Layer::RateLimit);
            write_layers.push(Layer::RateLimit);
        }
        proof {
            assert(read_layers@ =~= read_layers_spec(rate_limit is Some));
            assert(write_layers@ =~= write_layers_spec(self.retry_on_mutations, rate_limit is Some));
        }
        Ok(
            ClientPlan {
                base_url,
                api_key_header,
                tls: self.tls,
                root_certificate,
                retry,
                retry_on_mutations: self.retry_on_mutations,
                rate_limit,
                read_layers,
                write_layers,
            },
        )
    }
}

/// Which of a client's two HTTP stacks sends a request.
#[derive(Clone, Copy, Debug, PartialEq, Eq, Structural)]
pub enum Route {
    /// The read stack ([`ClientPlan::read_layers`]).
    Read,
    /// The write stack ([`ClientPlan::write_layers`]).
    Write,
}

/// Idempotent requests (GETs, and read-shaped POSTs such as asking for
/// RTSPS stream URLs or a talkback session) take the read stack, which
/// always retries; mutations take the write stack, which retries only
/// when `retry_on_mutations` is set.
pub fn route(idempotent: bool) -> (r: Route)
    ensures
        (r == Route::Read) == idempotent,
{
    if idempotent {
        Route::Read
    } else {
        Route::Write
    }
}

/// The layers of the stack a route takes.
pub open spec fn route_layers(r: Route, retry_on_mutations: bool, limited: bool) -> Seq<Layer> {
    match r {
        Route::Read => read_layers_spec(limited),
        Route::Write => write_layers_spec(retry_on_mutations, limited),
    }
}

/// An idempotent request is retried whatever the builder said about
/// mutations; a mutation only when `retry_on_mutations` is set. Either
/// way it passes the rate limit when there is one.
pub proof fn lemma_retry_follows_idempotence(idempotent: bool, retry_on_mutations: bool, limited: bool)
    ensures
        route_layers(if idempotent { Route::Read } else { Route::Write }, retry_on_mutations, limited).contains(
            Layer::Retry,
        ) == (idempotent || retry_on_mutations),
        route_layers(if idempotent { Route::Read } else { Route::Write }, retry_on_mutations, limited).contains(
            Layer::RateLimit,
        ) == limited,
{
    let l = route_layers(if idempotent { Route::Read } else { Route::Write }, retry_on_mutations, limited);
    if idempotent {
        assert(l[0] == Layer::Retry);
        if limited {
            assert(l[1] == Layer::RateLimit);
        } else {
            assert(l =~= seq![Layer::Retry]);
        }
    } else {
        if retry_on_mutations {
            assert(l[0] == Layer::Retry);
        } else if l.contains(Layer::Retry) {
            let i = choose|i: int| 0 <= i < l.len() && l[i] == Layer::Retry;
            assert(l[i] == Layer::RateLimit);
        }
        if limited {
            assert(l[l.len() - 1] == Layer::RateLimit);
        } else if l.contains(Layer::RateLimit) {
            let i = choose|i: int| 0 <= i < l.len() && l[i] == Layer::RateLimit;
            assert(l[i] == Layer::Retry);
        }
    }
}

/// A builder on which `rate_limit` was never called gives a client
/// throttled at the advertised policy, the same as one given
/// `RateLimitConfig::default()`: a cell every 100 ms with a burst of 10,
/// 10 requests per 1-second window, shared by reads and writes. One given
/// `None` has no proactive throttle.
pub proof fn lemma_rate_limit_default_unless_set(b: ProtectClientBuilder)
    ensures
        !b.rate_limit_set() ==> b.effective_rate_limit() == Some(
            crate::rate_limit::default_config(),
        ),
        !b.rate_limit_set() ==> (b.effective_rate_limit() matches Some(d) && d.cell_period_spec()
            == 100_000_000 && d.rate.spec_get() == 10),
        !b.rate_limit_set() ==> read_layers_spec(b.effective_rate_limit() is Some)
            == seq![Layer::Retry, Layer::RateLimit] && write_layers_spec(
            b.retry_on_mutations_spec(),
            b.effective_rate_limit() is Some,
        ).last() == Layer::RateLimit,
        read_layers_spec(false) == seq![Layer::Retry],
        !write_layers_spec(b.retry_on_mutations_spec(), false).contains(Layer::RateLimit),
{
    crate::rate_limit::lemma_default_quota_is_ten_per_second();
    let w = write_layers_spec(b.retry_on_mutations_spec(), false);
    if w.contains(Layer::RateLimit) {
        let i = choose|i: int| 0 <= i < w.len() && w[i] == Layer::RateLimit;
        assert(w[i] == Layer::Retry);
    }
}

/// The path relative to the base URL: leading `/`s removed.
pub open spec fn relative_path(p: Seq<char>) -> Seq<char>
    decreases p.len(),
{
    if p.len() > 0 && p[0] == '/' {
        relative_path(p.drop_first())
    } else {
        p
    }
}

/// `path.trim_start_matches('/')`.
pub fn strip_leading_slashes(path: &str) -> (r: String)
    ensures
        r@ == relative_path(path@),
{
    let v = chars_of(path);
    let mut i: usize = 0;
    assert(v@.subrange(0, v@.len() as int) == v@);
    while i < v.len() && v[i] == '/'
        invariant
            i <= v.len(),
            v@ == path@,
            relative_path(path@) == relative_path(v@.subrange(i as int, v@.len() as int)),
        decreases v.len() - i,
    {
        assert(v@.subrange(i as int, v@.len() as int).drop_first() == v@.subrange(
            i + 1,
            v@.len() as int,
        ));
        i = i + 1;
    }
    let r = crate::text::string_from_range(&v, i, v.len());
    proof {
        let rest = v@.subrange(i as int, v@.len() as int);
        if rest.len() > 0 {
            assert(rest[0] == v@[i as int]);
        }
    }
    r
}

} // verus!
