//! The transport materializer: turning an accumulated [`ClientOptions`]
//! into a concrete network client. Deferred values are resolved and
//! validated here, in a fixed order, and the builder calls into the
//! network library are applied to the resulting plan; any failure leaves
//! the caller with an error and no partial client.

use vstd::prelude::*;

use vstd::utf8::encode_utf8;

use crate::certificate::{der_cert_ok, pem_bundle_ders, Certificate};
use crate::config::{cv_display, cv_resolve, ConfigParse, ConfigValue, CvView};
use crate::duration::Duration;
use crate::error::{ClientError, ErrorModel};
use crate::options::{
    certs_dup, opt_cv_view, opt_pairs_view, opt_str_dup, opt_str_view, pairs_dup, pairs_view,
    ClientOptions, OptionsView,
};
use crate::strutil::{
    check_header_name, check_header_value, is_header_name_str, is_header_value_str,
};

verus! {

/// Declares the network library's client builder for use in signatures.
#[verifier::external_type_specification]
#[verifier::external_body]
pub struct ExClientBuilder(reqwest::ClientBuilder);

/// Declares the network library's client handle: the materialized,
/// shareable connection pool.
#[verifier::external_type_specification]
#[verifier::external_body]
pub struct ExClient(reqwest::Client);

/// Declares the network library's proxy descriptor.
#[verifier::external_type_specification]
#[verifier::external_body]
pub struct ExProxy(reqwest::Proxy);

/// Declares the network library's error type.
#[verifier::external_type_specification]
#[verifier::external_body]
pub struct ExReqwestError(reqwest::Error);

/// Whether the proxy URL parser accepts `u`: what `reqwest::Proxy::all`
/// decides, a function of the URL string alone.
pub uninterp spec fn proxy_url_accepted(u: Seq<char>) -> bool;

/// Relies on `reqwest::ClientBuilder::new`.
#[verifier::external_body]
fn cb_new() -> reqwest::ClientBuilder {
    reqwest::ClientBuilder::new()
}

/// Relies on `reqwest::ClientBuilder::user_agent`: sets the User-Agent
/// header for every request of the built client.
#[verifier::external_body]
fn cb_user_agent(b: reqwest::ClientBuilder, ua: &str) -> reqwest::ClientBuilder {
    b.user_agent(ua)
}

/// Relies on `reqwest::ClientBuilder::default_headers` and the header
/// map's `append`: installs the given headers on every request. The
/// names and values must be valid header characters, so parsing them
/// cannot fail; and the header map holds at most 32,768 entries and
/// refuses to grow its table beyond that, so the pair count must stay
/// at or below [`MAX_DEFAULT_HEADERS`] — a fifth of that table bound,
/// below which every growth step, including the collision-triggered
/// doubling, stays in range and `append` cannot fail.
#[verifier::external_body]
fn cb_default_headers(
    b: reqwest::ClientBuilder,
    headers: &Vec<(String, String)>,
) -> reqwest::ClientBuilder
    requires
        headers@.len() <= MAX_DEFAULT_HEADERS,
        forall|i: int|
            0 <= i < headers@.len() ==> is_header_name_str((#[trigger] headers@[i]).0@)
                && is_header_value_str(headers@[i].1@),
{
    let mut map = reqwest::header::HeaderMap::new();
    for (name, value) in headers {
        if let (Ok(n), Ok(v)) = (
            name.parse::<reqwest::header::HeaderName>(),
            value.parse::<reqwest::header::HeaderValue>(),
        ) {
            map.append(n, v);
        }
    }
    b.default_headers(map)
}

/// Relies on `reqwest::Proxy::all`: builds a proxy descriptor routing
/// every request through the given URL; fails exactly when the URL
/// string is rejected, which depends on the string alone.
#[verifier::external_body]
fn proxy_all(url: &str) -> (r: Result<reqwest::Proxy, reqwest::Error>)
    ensures
        r is Ok <==> proxy_url_accepted(url@),
{
    reqwest::Proxy::all(url)
}

/// Relies on `reqwest::Proxy::no_proxy` and `reqwest::NoProxy::
/// from_string`: attaches the comma-separated exclusion list to the
/// proxy descriptor.
#[verifier::external_body]
fn proxy_no_proxy(p: reqwest::Proxy, excludes: &str) -> reqwest::Proxy {
    p.no_proxy(reqwest::NoProxy::from_string(excludes))
}

/// Relies on `reqwest::ClientBuilder::proxy`.
#[verifier::external_body]
fn cb_proxy(b: reqwest::ClientBuilder, p: reqwest::Proxy) -> reqwest::ClientBuilder {
    b.proxy(p)
}

/// Relies on `reqwest::ClientBuilder::add_root_certificate` together
/// with `reqwest::tls::Certificate::from_der`, which with the rustls
/// backend stores the DER bytes without failing: installs one
/// additional trusted root.
#[verifier::external_body]
fn cb_add_root_der(b: reqwest::ClientBuilder, der: &Vec<u8>) -> reqwest::ClientBuilder {
    match reqwest::tls::Certificate::from_der(der) {
        Ok(cert) => b.add_root_certificate(cert),
        Err(_) => b,
    }
}

/// Relies on `reqwest::ClientBuilder::timeout`; the span is handed over
/// with `Duration::from_secs` and a saturating nanosecond addition, so
/// no length of time can make the conversion fail.
#[verifier::external_body]
fn cb_timeout(b: reqwest::ClientBuilder, secs: u64, nanos: u32) -> reqwest::ClientBuilder {
    b.timeout(
        core::time::Duration::from_secs(secs).saturating_add(
            core::time::Duration::from_nanos(nanos as u64),
        ),
    )
}

/// Relies on `reqwest::ClientBuilder::connect_timeout`; the span is
/// converted as in the request timeout.
#[verifier::external_body]
fn cb_connect_timeout(b: reqwest::ClientBuilder, secs: u64, nanos: u32) -> reqwest::ClientBuilder {
    b.connect_timeout(
        core::time::Duration::from_secs(secs).saturating_add(
            core::time::Duration::from_nanos(nanos as u64),
        ),
    )
}

/// Relies on `reqwest::ClientBuilder::pool_idle_timeout`; the span is
/// converted as in the request timeout.
#[verifier::external_body]
fn cb_pool_idle_timeout(
    b: reqwest::ClientBuilder,
    secs: u64,
    nanos: u32,
) -> reqwest::ClientBuilder {
    b.pool_idle_timeout(
        core::time::Duration::from_secs(secs).saturating_add(
            core::time::Duration::from_nanos(nanos as u64),
        ),
    )
}

/// Relies on `reqwest::ClientBuilder::pool_max_idle_per_host`.
#[verifier::external_body]
fn cb_pool_max_idle_per_host(b: reqwest::ClientBuilder, max: usize) -> reqwest::ClientBuilder {
    b.pool_max_idle_per_host(max)
}

/// Relies on `reqwest::ClientBuilder::http2_keep_alive_interval`; the
/// span is converted as in the request timeout.
#[verifier::external_body]
fn cb_http2_keep_alive_interval(
    b: reqwest::ClientBuilder,
    secs: u64,
    nanos: u32,
) -> reqwest::ClientBuilder {
    b.http2_keep_alive_interval(
        core::time::Duration::from_secs(secs).saturating_add(
            core::time::Duration::from_nanos(nanos as u64),
        ),
    )
}

/// Relies on `reqwest::ClientBuilder::http2_keep_alive_timeout`; the
/// span is converted as in the request timeout.
#[verifier::external_body]
fn cb_http2_keep_alive_timeout(
    b: reqwest::ClientBuilder,
    secs: u64,
    nanos: u32,
) -> reqwest::ClientBuilder {
    b.http2_keep_alive_timeout(
        core::time::Duration::from_secs(secs).saturating_add(
            core::time::Duration::from_nanos(nanos as u64),
        ),
    )
}

/// Relies on `reqwest::ClientBuilder::http2_keep_alive_while_idle`.
#[verifier::external_body]
fn cb_http2_keep_alive_while_idle(
    b: reqwest::ClientBuilder,
    enabled: bool,
) -> reqwest::ClientBuilder {
    b.http2_keep_alive_while_idle(enabled)
}

/// Relies on `reqwest::ClientBuilder::http2_max_frame_size`.
#[verifier::external_body]
fn cb_http2_max_frame_size(b: reqwest::ClientBuilder, sz: u32) -> reqwest::ClientBuilder {
    b.http2_max_frame_size(Some(sz))
}

/// Relies on `reqwest::ClientBuilder::http1_only`.
#[verifier::external_body]
fn cb_http1_only(b: reqwest::ClientBuilder) -> reqwest::ClientBuilder {
    b.http1_only()
}

/// Relies on `reqwest::ClientBuilder::http2_prior_knowledge`.
#[verifier::external_body]
fn cb_http2_prior_knowledge(b: reqwest::ClientBuilder) -> reqwest::ClientBuilder {
    b.http2_prior_knowledge()
}

/// Relies on `reqwest::ClientBuilder::danger_accept_invalid_certs`:
/// disables certificate validation, a security-downgrading option.
#[verifier::external_body]
fn cb_danger_accept_invalid_certs(
    b: reqwest::ClientBuilder,
    accept: bool,
) -> reqwest::ClientBuilder {
    b.danger_accept_invalid_certs(accept)
}

/// Relies on `reqwest::ClientBuilder::no_gzip`: disables transparent
/// response decompression, preserving an accurate `Content-Length`.
#[verifier::external_body]
fn cb_no_gzip(b: reqwest::ClientBuilder) -> reqwest::ClientBuilder {
    b.no_gzip()
}

/// Relies on `reqwest::ClientBuilder::https_only`: when enabled, the
/// built client rejects plaintext HTTP targets.
#[verifier::external_body]
fn cb_https_only(b: reqwest::ClientBuilder, enabled: bool) -> reqwest::ClientBuilder {
    b.https_only(enabled)
}

/// Relies on `reqwest::ClientBuilder::build`.
#[verifier::external_body]
fn cb_build(b: reqwest::ClientBuilder) -> Result<reqwest::Client, reqwest::Error> {
    b.build()
}

/// Relies on the `Display` implementation of `reqwest::Error` to
/// describe a transport failure.
#[verifier::external_body]
fn reqwest_error_message(e: &reqwest::Error) -> String {
    format!("{}", e)
}

/// The User-Agent used when none is configured: this library's own name
/// and version.
pub open spec fn default_user_agent() -> Seq<char> {
    "cloud_client/0.1.0"@
}

/// The issue with one configuration value, if any: a deferred string
/// that does not parse is reported with its key, the raw string and the
/// target type name.
pub open spec fn cfg_issue<T: ConfigParse>(v: CvView<T>, key: Seq<char>, target: Seq<char>) -> Option<
    ErrorModel,
> {
    if cv_resolve(v) is None {
        Some(ErrorModel::InvalidConfigValue { key, raw: cv_display(v), target })
    } else {
        None
    }
}

/// The issue with one optional configuration value, if any.
pub open spec fn opt_cfg_issue<T: ConfigParse>(
    v: Option<CvView<T>>,
    key: Seq<char>,
    target: Seq<char>,
) -> Option<ErrorModel> {
    match v {
        Option::Some(cv) => cfg_issue(cv, key, target),
        Option::None => None,
    }
}

/// The most default headers a configuration may carry. The HTTP layer's
/// header map stores at most 32,768 entries in a table it cannot grow
/// beyond that; a count at or below a fifth of that bound keeps every
/// growth step of the table in range.
pub const MAX_DEFAULT_HEADERS: usize = 6553;

/// Whether every configured default header has a usable name and value.
pub open spec fn headers_wf(hs: Option<Seq<(Seq<char>, Seq<char>)>>) -> bool {
    match hs {
        Option::Some(v) => forall|i: int|
            0 <= i < v.len() ==> is_header_name_str((#[trigger] v[i]).0) && is_header_value_str(
                v[i].1,
            ),
        Option::None => true,
    }
}

/// Whether the configured default headers stay within the count the
/// transport accepts.
pub open spec fn headers_count_ok(hs: Option<Seq<(Seq<char>, Seq<char>)>>) -> bool {
    match hs {
        Option::Some(v) => v.len() <= MAX_DEFAULT_HEADERS,
        Option::None => true,
    }
}

/// The issue with the configured default headers, if any: too many of
/// them, or a name or value with unusable characters.
pub open spec fn headers_issue(hs: Option<Seq<(Seq<char>, Seq<char>)>>) -> Option<ErrorModel> {
    if !headers_count_ok(hs) {
        Some(ErrorModel::Generic { message: "too many default headers"@ })
    } else if !headers_wf(hs) {
        Some(ErrorModel::Generic { message: "invalid default header"@ })
    } else {
        None
    }
}

/// The first issue that resolving the configuration runs into, in the
/// order the materializer applies its steps; `None` when every deferred
/// value resolves and the header material is usable.
/// The issue with the user agent or the default headers, if any:
/// the materializer's first two steps.
pub open spec fn ua_headers_issue(v: OptionsView) -> Option<ErrorModel> {
    let ua_issue: Option<ErrorModel> = match v.user_agent {
        Option::Some(ua) => if is_header_value_str(ua) {
            None
        } else {
            Some(
                ErrorModel::InvalidConfigValue {
                    key: "user_agent"@,
                    raw: ua,
                    target: "HTTP header value"@,
                },
            )
        },
        Option::None => None,
    };
    if ua_issue is Some {
        ua_issue
    } else {
        headers_issue(v.default_headers)
    }
}

/// The first deferred value that fails to resolve, in the order the
/// materializer applies the resolved settings.
pub open spec fn resolution_issue(v: OptionsView) -> Option<ErrorModel> {
    if opt_cfg_issue(v.timeout, "timeout"@, "duration"@) is Some {
        opt_cfg_issue(v.timeout, "timeout"@, "duration"@)
    } else if opt_cfg_issue(v.connect_timeout, "connect_timeout"@, "duration"@) is Some {
        opt_cfg_issue(v.connect_timeout, "connect_timeout"@, "duration"@)
    } else if opt_cfg_issue(v.pool_idle_timeout, "pool_idle_timeout"@, "duration"@) is Some {
        opt_cfg_issue(v.pool_idle_timeout, "pool_idle_timeout"@, "duration"@)
    } else if opt_cfg_issue(v.pool_max_idle_per_host, "pool_max_idle_per_host"@, "count"@)
        is Some {
        opt_cfg_issue(v.pool_max_idle_per_host, "pool_max_idle_per_host"@, "count"@)
    } else if opt_cfg_issue(
        v.http2_keep_alive_interval,
        "http2_keep_alive_interval"@,
        "duration"@,
    ) is Some {
        opt_cfg_issue(v.http2_keep_alive_interval, "http2_keep_alive_interval"@, "duration"@)
    } else if opt_cfg_issue(
        v.http2_keep_alive_timeout,
        "http2_keep_alive_timeout"@,
        "duration"@,
    ) is Some {
        opt_cfg_issue(v.http2_keep_alive_timeout, "http2_keep_alive_timeout"@, "duration"@)
    } else if cfg_issue(
        v.http2_keep_alive_while_idle,
        "http2_keep_alive_while_idle"@,
        "boolean"@,
    ) is Some {
        cfg_issue(v.http2_keep_alive_while_idle, "http2_keep_alive_while_idle"@, "boolean"@)
    } else if opt_cfg_issue(v.http2_max_frame_size, "http2_max_frame_size"@, "count"@) is Some {
        opt_cfg_issue(v.http2_max_frame_size, "http2_max_frame_size"@, "count"@)
    } else if cfg_issue(v.http1_only, "http1_only"@, "boolean"@) is Some {
        cfg_issue(v.http1_only, "http1_only"@, "boolean"@)
    } else if cfg_issue(v.http2_only, "http2_only"@, "boolean"@) is Some {
        cfg_issue(v.http2_only, "http2_only"@, "boolean"@)
    } else if cfg_issue(v.allow_insecure, "allow_invalid_certificates"@, "boolean"@) is Some {
        cfg_issue(v.allow_insecure, "allow_invalid_certificates"@, "boolean"@)
    } else if cfg_issue(v.allow_http, "allow_http"@, "boolean"@) is Some {
        cfg_issue(v.allow_http, "allow_http"@, "boolean"@)
    } else {
        None
    }
}

/// The first issue that resolving the configuration runs into: the user
/// agent and default headers first, then every deferred value in
/// application order; `None` when everything resolves.
pub open spec fn spec_plan_issue(v: OptionsView) -> Option<ErrorModel> {
    if ua_headers_issue(v) is Some {
        ua_headers_issue(v)
    } else {
        resolution_issue(v)
    }
}

/// The first failure of the whole materialization pipeline, in the order
/// of its steps: user agent, default headers, the proxy (its URL parse,
/// then its CA certificate), then the resolution of every remaining
/// deferred value. Only the final builder call of the network library
/// can fail beyond these.
pub enum BuildIssue {
    /// A configuration error, surfaced exactly.
    Config(ErrorModel),
    /// The proxy URL parser rejected the configured URL.
    ProxyRejected,
    /// The proxy CA certificate is not one well-formed PEM certificate.
    ProxyCaInvalid,
}

/// The first failure of the materialization pipeline for `v`, if any.
pub open spec fn spec_build_issue(v: OptionsView) -> Option<BuildIssue> {
    if ua_headers_issue(v) is Some {
        Some(BuildIssue::Config(ua_headers_issue(v)->Some_0))
    } else if v.proxy_url matches Some(u) && !proxy_url_accepted(u) {
        Some(BuildIssue::ProxyRejected)
    } else if !proxy_ca_ok(v) {
        Some(BuildIssue::ProxyCaInvalid)
    } else if resolution_issue(v) is Some {
        Some(BuildIssue::Config(resolution_issue(v)->Some_0))
    } else {
        None
    }
}

/// The fully resolved form of a configuration: every deferred value
/// parsed, the user agent defaulted, ready for the builder calls.
pub struct ClientPlan {
    /// The User-Agent to install.
    pub user_agent: String,
    /// Default headers to install, when configured.
    pub default_headers: Option<Vec<(String, String)>>,
    /// Proxy URL, handed to the proxy parser at build time.
    pub proxy_url: Option<String>,
    /// PEM text of the CA certificate trusted for proxy connections.
    pub proxy_ca_certificate: Option<String>,
    /// Hosts that bypass the proxy.
    pub proxy_excludes: Option<String>,
    /// DER bytes of each explicitly added trusted root.
    pub root_certificates: Vec<Certificate>,
    /// Request timeout, when set.
    pub timeout: Option<Duration>,
    /// Connect-phase timeout, when set.
    pub connect_timeout: Option<Duration>,
    /// Idle-pool timeout, when set.
    pub pool_idle_timeout: Option<Duration>,
    /// Maximum idle connections per host, when set.
    pub pool_max_idle_per_host: Option<usize>,
    /// HTTP2 keep-alive ping interval, when set.
    pub http2_keep_alive_interval: Option<Duration>,
    /// HTTP2 keep-alive ping acknowledgement timeout, when set.
    pub http2_keep_alive_timeout: Option<Duration>,
    /// Send keep-alive pings also while idle.
    pub http2_keep_alive_while_idle: bool,
    /// Maximum HTTP2 frame size, when set.
    pub http2_max_frame_size: Option<u32>,
    /// Force HTTP/1 connections.
    pub http1_only: bool,
    /// Force HTTP/2 connections.
    pub http2_only: bool,
    /// Disable certificate validation.
    pub accept_invalid_certs: bool,
    /// Allow plaintext HTTP targets; otherwise the client is HTTPS-only.
    pub allow_http: bool,
}

/// Whether an optional resolved duration matches its configured source.
pub open spec fn opt_duration_resolved(
    src: Option<CvView<Duration>>,
    got: Option<Duration>,
) -> bool {
    match src {
        Option::Some(cv) => got == cv_resolve(cv),
        Option::None => got is None,
    }
}

/// Whether `p` is exactly the resolution of the configuration `v`.
pub open spec fn plan_matches(v: OptionsView, p: ClientPlan) -> bool {
    &&& p.user_agent@ == (match v.user_agent {
        Option::Some(ua) => ua,
        Option::None => default_user_agent(),
    })
    &&& opt_pairs_view(p.default_headers) == v.default_headers
    &&& opt_str_view(p.proxy_url) == v.proxy_url
    &&& opt_str_view(p.proxy_ca_certificate) == v.proxy_ca_certificate
    &&& opt_str_view(p.proxy_excludes) == v.proxy_excludes
    &&& p.root_certificates@.map_values(|c: Certificate| c@) == v.root_certificates
    &&& opt_duration_resolved(v.timeout, p.timeout)
    &&& opt_duration_resolved(v.connect_timeout, p.connect_timeout)
    &&& opt_duration_resolved(v.pool_idle_timeout, p.pool_idle_timeout)
    &&& (match v.pool_max_idle_per_host {
        Option::Some(cv) => p.pool_max_idle_per_host == cv_resolve(cv),
        Option::None => p.pool_max_idle_per_host is None,
    })
    &&& opt_duration_resolved(v.http2_keep_alive_interval, p.http2_keep_alive_interval)
    &&& opt_duration_resolved(v.http2_keep_alive_timeout, p.http2_keep_alive_timeout)
    &&& Some(p.http2_keep_alive_while_idle) == cv_resolve(v.http2_keep_alive_while_idle)
    &&& (match v.http2_max_frame_size {
        Option::Some(cv) => p.http2_max_frame_size == cv_resolve(cv),
        Option::None => p.http2_max_frame_size is None,
    })
    &&& Some(p.http1_only) == cv_resolve(v.http1_only)
    &&& Some(p.http2_only) == cv_resolve(v.http2_only)
    &&& Some(p.accept_invalid_certs) == cv_resolve(v.allow_insecure)
    &&& Some(p.allow_http) == cv_resolve(v.allow_http)
}

/// Resolve one configuration value or report it with its key and target
/// type name.
fn resolve_cv<T: ConfigParse>(cv: &ConfigValue<T>, key: &str, target: &str) -> (r: Result<
    T,
    ClientError,
>)
    ensures
        match cfg_issue(cv@, key@, target@) {
            Option::Some(issue) => r matches Err(e) && e@ == issue,
            Option::None => r matches Ok(t) && Some(t) == cv_resolve(cv@),
        },
{
    match cv.get() {
        Option::Some(t) => Ok(t),
        Option::None => Err(
            ClientError::InvalidConfigValue {
                key: key.to_owned(),
                raw: cv.display(),
                target: target.to_owned(),
            },
        ),
    }
}

/// Resolve one optional configuration value or report it.
fn resolve_opt_cv<T: ConfigParse>(v: &Option<ConfigValue<T>>, key: &str, target: &str) -> (r:
    Result<Option<T>, ClientError>)
    ensures
        match opt_cfg_issue(opt_cv_view(*v), key@, target@) {
            Option::Some(issue) => r matches Err(e) && e@ == issue,
            Option::None => r matches Ok(t) && (match opt_cv_view(*v) {
                Option::Some(cv) => t == cv_resolve(cv),
                Option::None => t is None,
            }),
        },
{
    match v {
        Option::Some(cv) => match resolve_cv(cv, key, target) {
            Result::Ok(t) => Ok(Some(t)),
            Result::Err(e) => Err(e),
        },
        Option::None => Ok(None),
    }
}

/// Whether the configured proxy CA certificate, if one is to be used,
/// is a PEM text holding exactly one certificate section.
pub open spec fn proxy_ca_ok(v: OptionsView) -> bool {
    match (v.proxy_url, v.proxy_ca_certificate) {
        (Option::Some(_), Option::Some(ca)) => pem_bundle_ders(encode_utf8(ca)) matches Some(ds)
            && ds.len() == 1 && der_cert_ok(ds[0]),
        _ => true,
    }
}

/// The configuration from which a metadata client is built: the same
/// options with plaintext HTTP forced on and a one second connect
/// timeout.
pub open spec fn metadata_view(v: OptionsView) -> OptionsView {
    OptionsView {
        allow_http: CvView::Parsed(true),
        connect_timeout: Some(CvView::Parsed(Duration { secs: 1, nanos: 0 })),
        ..v
    }
}

/// Metadata client override: the derived configuration forces plaintext
/// HTTP on and a one second connect timeout, and leaves every other
/// field unchanged, whatever the base options held for those two.
pub proof fn lemma_metadata_view_override(v: OptionsView)
    ensures
        metadata_view(v).allow_http == CvView::<bool>::Parsed(true),
        metadata_view(v).connect_timeout == Some(
            CvView::<Duration>::Parsed(Duration { secs: 1, nanos: 0 }),
        ),
        metadata_view(v).user_agent == v.user_agent,
        metadata_view(v).root_certificates == v.root_certificates,
        metadata_view(v).content_type_map == v.content_type_map,
        metadata_view(v).default_content_type == v.default_content_type,
        metadata_view(v).default_headers == v.default_headers,
        metadata_view(v).proxy_url == v.proxy_url,
        metadata_view(v).proxy_ca_certificate == v.proxy_ca_certificate,
        metadata_view(v).proxy_excludes == v.proxy_excludes,
        metadata_view(v).allow_insecure == v.allow_insecure,
        metadata_view(v).timeout == v.timeout,
        metadata_view(v).pool_idle_timeout == v.pool_idle_timeout,
        metadata_view(v).pool_max_idle_per_host == v.pool_max_idle_per_host,
        metadata_view(v).http2_keep_alive_interval == v.http2_keep_alive_interval,
        metadata_view(v).http2_keep_alive_timeout == v.http2_keep_alive_timeout,
        metadata_view(v).http2_keep_alive_while_idle == v.http2_keep_alive_while_idle,
        metadata_view(v).http2_max_frame_size == v.http2_max_frame_size,
        metadata_view(v).http1_only == v.http1_only,
        metadata_view(v).http2_only == v.http2_only,
{
}

impl ClientOptions {
    /// The User-Agent to install: the configured one, when it is usable
    /// as a header value, or the library's own default; an unusable one
    /// is the configuration error carrying its key.
    fn resolve_user_agent(&self) -> (r: Result<String, ClientError>)
        ensures
            match self@.user_agent {
                Option::Some(ua) => if is_header_value_str(ua) {
                    r matches Ok(s) && s@ == ua
                } else {
                    r matches Err(e) && e@ == (ErrorModel::InvalidConfigValue {
                        key: "user_agent"@,
                        raw: ua,
                        target: "HTTP header value"@,
                    })
                },
                Option::None => r matches Ok(s) && s@ == default_user_agent(),
            },
    {
        match &self.user_agent {
            Option::Some(ua) => {
                if !check_header_value(ua.as_str()) {
                    Err(
                        ClientError::InvalidConfigValue {
                            key: "user_agent".to_owned(),
                            raw: ua.clone(),
                            target: "HTTP header value".to_owned(),
                        },
                    )
                } else {
                    Ok(ua.clone())
                }
            },
            Option::None => Ok("cloud_client/0.1.0".to_owned()),
        }
    }

    /// The default headers to install, validated: their count must stay
    /// within what the transport accepts, and every name and value must
    /// be usable header characters; else the matching generic error.
    fn validated_headers(&self) -> (r: Result<Option<Vec<(String, String)>>, ClientError>)
        ensures
            match headers_issue(self@.default_headers) {
                Option::Some(issue) => r matches Err(e) && e@ == issue,
                Option::None => r matches Ok(h) && opt_pairs_view(h) == self@.default_headers,
            },
    {
        match &self.default_headers {
            Option::Some(hs) => {
                if hs.len() > MAX_DEFAULT_HEADERS {
                    return Err(
                        ClientError::Generic { message: "too many default headers".to_owned() },
                    );
                }
                let mut i: usize = 0;
                while i < hs.len()
                    invariant
                        i <= hs@.len(),
                        hs@.len() <= MAX_DEFAULT_HEADERS,
                        self@.default_headers == Some(pairs_view(hs@)),
                        forall|k: int|
                            0 <= k < i ==> is_header_name_str((#[trigger] hs@[k]).0@)
                                && is_header_value_str(hs@[k].1@),
                    decreases hs@.len() - i,
                {
                    if !check_header_name(hs[i].0.as_str()) || !check_header_value(
                        hs[i].1.as_str(),
                    ) {
                        proof {
                            let dh = self@.default_headers;
                            assert(pairs_view(hs@)[i as int] == (
                                hs@[i as int].0@,
                                hs@[i as int].1@,
                            ));
                            assert(dh matches Some(h) && h == pairs_view(hs@));
                            assert(dh matches Some(h) && !(is_header_name_str(h[i as int].0)
                                && is_header_value_str(h[i as int].1)));
                            assert(!headers_wf(dh));
                        }
                        return Err(
                            ClientError::Generic { message: "invalid default header".to_owned() },
                        );
                    }
                    i = i + 1;
                }
                Ok(Some(pairs_dup(hs)))
            },
            Option::None => Ok(None),
        }
    }

    /// Resolve this configuration into a concrete plan: parse every
    /// deferred value, validate user agent and default headers, and
    /// default the user agent. The first issue, in the order the
    /// materializer resolves these values, is returned as the error;
    /// with none, the plan is exactly the resolution of the
    /// configuration. The proxy steps of the full pipeline stand
    /// between the headers and this resolution chain; see
    /// [`spec_build_issue`] and [`Self::client`].
    pub fn plan(&self) -> (r: Result<ClientPlan, ClientError>)
        ensures
            match spec_plan_issue(self@) {
                Option::Some(issue) => r matches Err(e) && e@ == issue,
                Option::None => r matches Ok(p) && plan_matches(self@, p),
            },
    {
        let user_agent: String = match self.resolve_user_agent() {
            Result::Ok(ua) => ua,
            Result::Err(e) => {
                return Err(e);
            },
        };
        let default_headers: Option<Vec<(String, String)>> = match self.validated_headers() {
            Result::Ok(h) => h,
            Result::Err(e) => {
                return Err(e);
            },
        };
        let timeout = match resolve_opt_cv(&self.timeout, "timeout", "duration") {
            Result::Ok(t) => t,
            Result::Err(e) => {
                return Err(e);
            },
        };
        let connect_timeout = match resolve_opt_cv(
            &self.connect_timeout,
            "connect_timeout",
            "duration",
        ) {
            Result::Ok(t) => t,
            Result::Err(e) => {
                return Err(e);
            },
        };
        let pool_idle_timeout = match resolve_opt_cv(
            &self.pool_idle_timeout,
            "pool_idle_timeout",
            "duration",
        ) {
            Result::Ok(t) => t,
            Result::Err(e) => {
                return Err(e);
            },
        };
        let pool_max_idle_per_host = match resolve_opt_cv(
            &self.pool_max_idle_per_host,
            "pool_max_idle_per_host",
            "count",
        ) {
            Result::Ok(t) => t,
            Result::Err(e) => {
                return Err(e);
            },
        };
        let http2_keep_alive_interval = match resolve_opt_cv(
            &self.http2_keep_alive_interval,
            "http2_keep_alive_interval",
            "duration",
        ) {
            Result::Ok(t) => t,
            Result::Err(e) => {
                return Err(e);
            },
        };
        let http2_keep_alive_timeout = match resolve_opt_cv(
            &self.http2_keep_alive_timeout,
            "http2_keep_alive_timeout",
            "duration",
        ) {
            Result::Ok(t) => t,
            Result::Err(e) => {
                return Err(e);
            },
        };
        let http2_keep_alive_while_idle = match resolve_cv(
            &self.http2_keep_alive_while_idle,
            "http2_keep_alive_while_idle",
            "boolean",
        ) {
            Result::Ok(t) => t,
            Result::Err(e) => {
                return Err(e);
            },
        };
        let http2_max_frame_size = match resolve_opt_cv(
            &self.http2_max_frame_size,
            "http2_max_frame_size",
            "count",
        ) {
            Result::Ok(t) => t,
            Result::Err(e) => {
                return Err(e);
            },
        };
        let http1_only = match resolve_cv(&self.http1_only, "http1_only", "boolean") {
            Result::Ok(t) => t,
            Result::Err(e) => {
                return Err(e);
            },
        };
        let http2_only = match resolve_cv(&self.http2_only, "http2_only", "boolean") {
            Result::Ok(t) => t,
            Result::Err(e) => {
                return Err(e);
            },
        };
        let accept_invalid_certs = match resolve_cv(
            &self.allow_insecure,
            "allow_invalid_certificates",
            "boolean",
        ) {
            Result::Ok(t) => t,
            Result::Err(e) => {
                return Err(e);
            },
        };
        let allow_http = match resolve_cv(&self.allow_http, "allow_http", "boolean") {
            Result::Ok(t) => t,
            Result::Err(e) => {
                return Err(e);
            },
        };
        let p = ClientPlan {
            user_agent,
            default_headers,
            proxy_url: opt_str_dup(&self.proxy_url),
            proxy_ca_certificate: opt_str_dup(&self.proxy_ca_certificate),
            proxy_excludes: opt_str_dup(&self.proxy_excludes),
            root_certificates: certs_dup(&self.root_certificates),
            timeout,
            connect_timeout,
            pool_idle_timeout,
            pool_max_idle_per_host,
            http2_keep_alive_interval,
            http2_keep_alive_timeout,
            http2_keep_alive_while_idle,
            http2_max_frame_size,
            http1_only,
            http2_only,
            accept_invalid_certs,
            allow_http,
        };
        proof {
            assert(p.root_certificates@.map_values(|c: Certificate| c@) =~= self@
                .root_certificates);
            match (&p.default_headers, &self.default_headers) {
                (Option::Some(got), Option::Some(from)) => {
                    assert(pairs_view(got@) =~= pairs_view(from@));
                },
                _ => {},
            }
        }
        Ok(p)
    }

    /// Build a concrete network client from the accumulated options,
    /// applying its steps in order: user agent, default headers, proxy
    /// (URL, CA certificate, exclusion list), explicitly added roots,
    /// timeouts and pool settings, HTTP2 keep-alive and frame size, the
    /// forced HTTP version, certificate-validation bypass, disabled
    /// response decompression, and HTTPS enforcement.
    ///
    /// The first failing step decides the error: configuration issues
    /// are surfaced exactly, a rejected proxy URL or malformed proxy CA
    /// as the generic transport error wrapping the cause. Past all
    /// steps, only the underlying build can still fail, again as the
    /// generic error. No partial client is ever handed out.
    pub fn client(&self) -> (r: Result<reqwest::Client, ClientError>)
        ensures
            match spec_build_issue(self@) {
                Option::Some(BuildIssue::Config(em)) => r matches Err(e) && e@ == em,
                Option::Some(BuildIssue::ProxyRejected) => r matches Err(e) && e@ is Generic,
                Option::Some(BuildIssue::ProxyCaInvalid) => r matches Err(e) && e@ is Generic,
                Option::None => r matches Err(e) ==> e@ is Generic,
            },
    {
        let mut builder = cb_new();
        // 1. the user agent: explicit when set, else the default
        let user_agent = match self.resolve_user_agent() {
            Result::Ok(ua) => ua,
            Result::Err(e) => {
                return Err(e);
            },
        };
        builder = cb_user_agent(builder, user_agent.as_str());
        // 2. default headers, applied verbatim once validated
        let default_headers = match self.validated_headers() {
            Result::Ok(h) => h,
            Result::Err(e) => {
                return Err(e);
            },
        };
        if let Option::Some(headers) = &default_headers {
            proof {
                let hv = self@.default_headers;
                assert(headers_count_ok(hv) && headers_wf(hv));
                assert(hv matches Some(h) && h == pairs_view(headers@));
                assert(headers@.len() == pairs_view(headers@).len());
                assert forall|i: int| 0 <= i < headers@.len() implies is_header_name_str(
                    (#[trigger] headers@[i]).0@,
                ) && is_header_value_str(headers@[i].1@) by {
                    assert(pairs_view(headers@)[i] == (headers@[i].0@, headers@[i].1@));
                    assert(hv matches Some(h) && h[i] == pairs_view(headers@)[i]);
                }
            }
            builder = cb_default_headers(builder, headers);
        }
        // 3. the proxy: its URL, an optional CA trusted for it, and the
        // hosts that bypass it
        if let Option::Some(url) = &self.proxy_url {
            let mut proxy = match proxy_all(url.as_str()) {
                Result::Ok(p) => p,
                Result::Err(e) => {
                    return Err(ClientError::Generic { message: reqwest_error_message(&e) });
                },
            };
            if let Option::Some(ca) = &self.proxy_ca_certificate {
                let cert = match Certificate::from_pem(ca.as_str().as_bytes()) {
                    Result::Ok(c) => c,
                    Result::Err(e) => {
                        return Err(e);
                    },
                };
                builder = cb_add_root_der(builder, cert.der_bytes());
            }
            if let Option::Some(excludes) = &self.proxy_excludes {
                proxy = proxy_no_proxy(proxy, excludes.as_str());
            }
            builder = cb_proxy(builder, proxy);
        }
        // 4. explicitly added trusted roots, independent of the proxy CA
        let mut ci: usize = 0;
        while ci < self.root_certificates.len()
            decreases self.root_certificates@.len() - ci,
        {
            builder = cb_add_root_der(builder, self.root_certificates[ci].der_bytes());
            ci = ci + 1;
        }
        // 5. timeouts and pool settings, resolved on demand
        match resolve_opt_cv(&self.timeout, "timeout", "duration") {
            Result::Ok(Option::Some(t)) => {
                builder = cb_timeout(builder, t.secs, t.nanos);
            },
            Result::Ok(Option::None) => {},
            Result::Err(e) => {
                return Err(e);
            },
        }
        match resolve_opt_cv(&self.connect_timeout, "connect_timeout", "duration") {
            Result::Ok(Option::Some(t)) => {
                builder = cb_connect_timeout(builder, t.secs, t.nanos);
            },
            Result::Ok(Option::None) => {},
            Result::Err(e) => {
                return Err(e);
            },
        }
        match resolve_opt_cv(&self.pool_idle_timeout, "pool_idle_timeout", "duration") {
            Result::Ok(Option::Some(t)) => {
                builder = cb_pool_idle_timeout(builder, t.secs, t.nanos);
            },
            Result::Ok(Option::None) => {},
            Result::Err(e) => {
                return Err(e);
            },
        }
        match resolve_opt_cv(&self.pool_max_idle_per_host, "pool_max_idle_per_host", "count") {
            Result::Ok(Option::Some(m)) => {
                builder = cb_pool_max_idle_per_host(builder, m);
            },
            Result::Ok(Option::None) => {},
            Result::Err(e) => {
                return Err(e);
            },
        }
        // 6. HTTP2 keep-alive and frame size
        match resolve_opt_cv(
            &self.http2_keep_alive_interval,
            "http2_keep_alive_interval",
            "duration",
        ) {
            Result::Ok(Option::Some(t)) => {
                builder = cb_http2_keep_alive_interval(builder, t.secs, t.nanos);
            },
            Result::Ok(Option::None) => {},
            Result::Err(e) => {
                return Err(e);
            },
        }
        match resolve_opt_cv(
            &self.http2_keep_alive_timeout,
            "http2_keep_alive_timeout",
            "duration",
        ) {
            Result::Ok(Option::Some(t)) => {
                builder = cb_http2_keep_alive_timeout(builder, t.secs, t.nanos);
            },
            Result::Ok(Option::None) => {},
            Result::Err(e) => {
                return Err(e);
            },
        }
        match resolve_cv(
            &self.http2_keep_alive_while_idle,
            "http2_keep_alive_while_idle",
            "boolean",
        ) {
            Result::Ok(enabled) => {
                if enabled {
                    builder = cb_http2_keep_alive_while_idle(builder, true);
                }
            },
            Result::Err(e) => {
                return Err(e);
            },
        }
        match resolve_opt_cv(&self.http2_max_frame_size, "http2_max_frame_size", "count") {
            Result::Ok(Option::Some(sz)) => {
                builder = cb_http2_max_frame_size(builder, sz);
            },
            Result::Ok(Option::None) => {},
            Result::Err(e) => {
                return Err(e);
            },
        }
        // 7. exactly one of HTTP/1 forced, HTTP/2 forced, or neither
        match resolve_cv(&self.http1_only, "http1_only", "boolean") {
            Result::Ok(forced) => {
                if forced {
                    builder = cb_http1_only(builder);
                }
            },
            Result::Err(e) => {
                return Err(e);
            },
        }
        match resolve_cv(&self.http2_only, "http2_only", "boolean") {
            Result::Ok(forced) => {
                if forced {
                    builder = cb_http2_prior_knowledge(builder);
                }
            },
            Result::Err(e) => {
                return Err(e);
            },
        }
        // 8. certificate-validation bypass, only when asked for
        match resolve_cv(&self.allow_insecure, "allow_invalid_certificates", "boolean") {
            Result::Ok(accept) => {
                if accept {
                    builder = cb_danger_accept_invalid_certs(builder, true);
                }
            },
            Result::Err(e) => {
                return Err(e);
            },
        }
        // 9. transparent decompression would drop the Content-Length header
        builder = cb_no_gzip(builder);
        // 10. HTTPS enforcement, unless plaintext HTTP is allowed
        let allow_http = match resolve_cv(&self.allow_http, "allow_http", "boolean") {
            Result::Ok(allow) => allow,
            Result::Err(e) => {
                return Err(e);
            },
        };
        builder = cb_https_only(builder, !allow_http);
        match cb_build(builder) {
            Result::Ok(c) => Ok(c),
            Result::Err(e) => Err(ClientError::Generic { message: reqwest_error_message(&e) }),
        }
    }

    /// Create a client with overrides optimised for metadata endpoint
    /// access: plaintext HTTP allowed, as metadata endpoints do not use
    /// TLS, and a one second connect timeout for quick feedback when the
    /// endpoint is unreachable. The original options value is never
    /// changed.
    pub fn metadata_client(&self) -> (r: Result<reqwest::Client, ClientError>)
        ensures
            match spec_build_issue(metadata_view(self@)) {
                Option::Some(BuildIssue::Config(em)) => r matches Err(e) && e@ == em,
                Option::Some(BuildIssue::ProxyRejected) => r matches Err(e) && e@ is Generic,
                Option::Some(BuildIssue::ProxyCaInvalid) => r matches Err(e) && e@ is Generic,
                Option::None => r matches Err(e) ==> e@ is Generic,
            },
    {
        let derived = self.duplicate().with_allow_http(true).with_connect_timeout(
            Duration::from_secs(1),
        );
        proof {
            assert(derived@ =~= metadata_view(self@));
        }
        derived.client()
    }
}

} // verus!
