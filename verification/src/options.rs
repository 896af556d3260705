//! HTTP client configuration: an immutable-builder aggregate of all
//! recognized options, with per-key get/set access. Every setter consumes
//! the value and returns the updated one; nothing shared is ever
//! mutated.

use vstd::prelude::*;

use crate::certificate::Certificate;
use crate::config::{cv_resolve, lemma_display_reparse, ConfigParse, ConfigValue, CvView};
use crate::duration::Duration;
use crate::keys::ClientConfigKey;
use crate::strutil::{check_header_value, is_header_value_str, str_eq};

verus! {

/// HTTP client configuration for remote catalog stores.
///
/// Typed fields hold either parsed values or raw strings parsed on
/// demand at materialization time; a malformed value is only diagnosed
/// when a client is actually built.
#[derive(Debug, Clone)]
pub struct ClientOptions {
    /// User-Agent header for every request; `None` means a default
    /// composed of this library's name and version.
    pub user_agent: Option<String>,
    /// Additional trusted root certificates.
    pub root_certificates: Vec<Certificate>,
    /// CONTENT_TYPE by file extension.
    pub content_type_map: Vec<(String, String)>,
    /// Default CONTENT_TYPE for uploads.
    pub default_content_type: Option<String>,
    /// Headers applied verbatim to every request, as name/value pairs.
    pub default_headers: Option<Vec<(String, String)>>,
    /// HTTP proxy for requests.
    pub proxy_url: Option<String>,
    /// PEM-formatted CA certificate trusted for proxy connections.
    pub proxy_ca_certificate: Option<String>,
    /// Comma-separated list of hosts that bypass the proxy.
    pub proxy_excludes: Option<String>,
    /// Allow plaintext HTTP connections.
    pub allow_http: ConfigValue<bool>,
    /// Skip certificate validation (security-downgrading; see
    /// [`ClientOptions::with_allow_invalid_certificates`]).
    pub allow_insecure: ConfigValue<bool>,
    /// Request timeout, from connecting until the response body is done.
    pub timeout: Option<ConfigValue<Duration>>,
    /// Timeout for the connect phase only.
    pub connect_timeout: Option<ConfigValue<Duration>>,
    /// How long an idle pooled connection is kept alive.
    pub pool_idle_timeout: Option<ConfigValue<Duration>>,
    /// Maximum number of idle pooled connections per host.
    pub pool_max_idle_per_host: Option<ConfigValue<usize>>,
    /// Interval of HTTP2 keep-alive pings.
    pub http2_keep_alive_interval: Option<ConfigValue<Duration>>,
    /// Timeout for acknowledgement of a keep-alive ping.
    pub http2_keep_alive_timeout: Option<ConfigValue<Duration>>,
    /// Send keep-alive pings also while no stream is active.
    pub http2_keep_alive_while_idle: ConfigValue<bool>,
    /// Maximum HTTP2 frame size.
    pub http2_max_frame_size: Option<ConfigValue<u32>>,
    /// Force HTTP/1 connections.
    pub http1_only: ConfigValue<bool>,
    /// Force HTTP/2 connections (prior-knowledge negotiation).
    pub http2_only: ConfigValue<bool>,
}

/// The pairs of `m` whose key is not `k`, in order.
pub open spec fn retain_other_keys(m: Seq<(String, String)>, k: Seq<char>) -> Seq<
    (String, String),
>
    decreases m.len(),
{
    if m.len() == 0 {
        Seq::empty()
    } else {
        let rest = retain_other_keys(m.drop_last(), k);
        if m.last().0@ == k {
            rest
        } else {
            rest.push(m.last())
        }
    }
}


/// The characters of each name/value pair.
pub open spec fn pairs_view(v: Seq<(String, String)>) -> Seq<(Seq<char>, Seq<char>)> {
    v.map_values(|p: (String, String)| (p.0@, p.1@))
}

/// The mathematical model of a [`ClientOptions`] value.
#[verifier::ext_equal]
pub struct OptionsView {
    /// User-Agent header characters, when set.
    pub user_agent: Option<Seq<char>>,
    /// DER bytes of each additional trusted root certificate.
    pub root_certificates: Seq<Seq<u8>>,
    /// CONTENT_TYPE by file extension.
    pub content_type_map: Seq<(Seq<char>, Seq<char>)>,
    /// Default CONTENT_TYPE for uploads.
    pub default_content_type: Option<Seq<char>>,
    /// Default header name/value pairs, when set.
    pub default_headers: Option<Seq<(Seq<char>, Seq<char>)>>,
    /// HTTP proxy for requests.
    pub proxy_url: Option<Seq<char>>,
    /// PEM text of the CA certificate trusted for proxy connections.
    pub proxy_ca_certificate: Option<Seq<char>>,
    /// Hosts that bypass the proxy.
    pub proxy_excludes: Option<Seq<char>>,
    /// Allow plaintext HTTP connections.
    pub allow_http: CvView<bool>,
    /// Skip certificate validation.
    pub allow_insecure: CvView<bool>,
    /// Request timeout.
    pub timeout: Option<CvView<Duration>>,
    /// Timeout for the connect phase only.
    pub connect_timeout: Option<CvView<Duration>>,
    /// How long an idle pooled connection is kept alive.
    pub pool_idle_timeout: Option<CvView<Duration>>,
    /// Maximum number of idle pooled connections per host.
    pub pool_max_idle_per_host: Option<CvView<usize>>,
    /// Interval of HTTP2 keep-alive pings.
    pub http2_keep_alive_interval: Option<CvView<Duration>>,
    /// Timeout for acknowledgement of a keep-alive ping.
    pub http2_keep_alive_timeout: Option<CvView<Duration>>,
    /// Send keep-alive pings also while no stream is active.
    pub http2_keep_alive_while_idle: CvView<bool>,
    /// Maximum HTTP2 frame size.
    pub http2_max_frame_size: Option<CvView<u32>>,
    /// Force HTTP/1 connections.
    pub http1_only: CvView<bool>,
    /// Force HTTP/2 connections.
    pub http2_only: CvView<bool>,
}

/// The view of an optional configuration value.
pub open spec fn opt_cv_view<T: ConfigParse>(v: Option<ConfigValue<T>>) -> Option<CvView<T>> {
    match v {
        Option::Some(cv) => Some(cv@),
        Option::None => None,
    }
}

/// The characters of an optional string.
pub open spec fn opt_str_view(v: Option<String>) -> Option<Seq<char>> {
    match v {
        Option::Some(s) => Some(s@),
        Option::None => None,
    }
}

/// The characters of each pair of an optional list.
pub open spec fn opt_pairs_view(v: Option<Vec<(String, String)>>) -> Option<
    Seq<(Seq<char>, Seq<char>)>,
> {
    match v {
        Option::Some(p) => Some(pairs_view(p@)),
        Option::None => None,
    }
}

impl View for ClientOptions {
    type V = OptionsView;

    open spec fn view(&self) -> OptionsView {
        OptionsView {
            user_agent: opt_str_view(self.user_agent),
            root_certificates: self.root_certificates@.map_values(|c: Certificate| c@),
            content_type_map: pairs_view(self.content_type_map@),
            default_content_type: opt_str_view(self.default_content_type),
            default_headers: opt_pairs_view(self.default_headers),
            proxy_url: opt_str_view(self.proxy_url),
            proxy_ca_certificate: opt_str_view(self.proxy_ca_certificate),
            proxy_excludes: opt_str_view(self.proxy_excludes),
            allow_http: self.allow_http@,
            allow_insecure: self.allow_insecure@,
            timeout: opt_cv_view(self.timeout),
            connect_timeout: opt_cv_view(self.connect_timeout),
            pool_idle_timeout: opt_cv_view(self.pool_idle_timeout),
            pool_max_idle_per_host: opt_cv_view(self.pool_max_idle_per_host),
            http2_keep_alive_interval: opt_cv_view(self.http2_keep_alive_interval),
            http2_keep_alive_timeout: opt_cv_view(self.http2_keep_alive_timeout),
            http2_keep_alive_while_idle: self.http2_keep_alive_while_idle@,
            http2_max_frame_size: opt_cv_view(self.http2_max_frame_size),
            http1_only: self.http1_only@,
            http2_only: self.http2_only@,
        }
    }
}

/// Duplicate a configuration value; the copy has the same model.
pub(crate) fn cv_dup<T: ConfigParse>(v: &ConfigValue<T>) -> (r: ConfigValue<T>)
    ensures
        r@ == v@,
{
    match v {
        ConfigValue::Parsed(t) => ConfigValue::Parsed(*t),
        ConfigValue::Deferred(s) => ConfigValue::Deferred(s.clone()),
    }
}

/// Duplicate an optional configuration value.
pub(crate) fn opt_cv_dup<T: ConfigParse>(v: &Option<ConfigValue<T>>) -> (r: Option<ConfigValue<T>>)
    ensures
        opt_cv_view(r) == opt_cv_view(*v),
{
    match v {
        Option::Some(cv) => Some(cv_dup(cv)),
        Option::None => None,
    }
}

/// Duplicate an optional string.
pub(crate) fn opt_str_dup(v: &Option<String>) -> (r: Option<String>)
    ensures
        opt_str_view(r) == opt_str_view(*v),
{
    match v {
        Option::Some(s) => Some(s.clone()),
        Option::None => None,
    }
}

/// Duplicate a list of certificates; the copies keep their bytes.
pub(crate) fn certs_dup(v: &Vec<Certificate>) -> (r: Vec<Certificate>)
    ensures
        r@.len() == v@.len(),
        forall|k: int| 0 <= k < v@.len() ==> (#[trigger] r@[k])@ == v@[k]@,
{
    let mut certs: Vec<Certificate> = Vec::new();
    let mut i: usize = 0;
    while i < v.len()
        invariant
            i <= v@.len(),
            certs@.len() == i,
            forall|k: int| 0 <= k < i ==> (#[trigger] certs@[k])@ == v@[k]@,
        decreases v@.len() - i,
    {
        let c = v[i].duplicate();
        certs.push(c);
        i = i + 1;
    }
    certs
}

/// Duplicate a list of string pairs.
pub(crate) fn pairs_dup(v: &Vec<(String, String)>) -> (r: Vec<(String, String)>)
    ensures
        pairs_view(r@) == pairs_view(v@),
{
    let mut out: Vec<(String, String)> = Vec::new();
    let mut i: usize = 0;
    while i < v.len()
        invariant
            i <= v@.len(),
            out@.len() == i,
            forall|k: int|
                0 <= k < i ==> (#[trigger] out@[k]).0@ == v@[k].0@ && out@[k].1@ == v@[k].1@,
        decreases v@.len() - i,
    {
        let p0 = v[i].0.clone();
        let p1 = v[i].1.clone();
        out.push((p0, p1));
        i = i + 1;
    }
    proof {
        assert(pairs_view(out@) =~= pairs_view(v@));
    }
    out
}

impl ClientOptions {
    /// The fixed default configuration: a request timeout of 30 seconds,
    /// a connect timeout of 5 seconds, HTTP/1 only, and every other
    /// option unset or false.
    pub open spec fn is_default(self) -> bool {
        &&& self.user_agent is None
        &&& self.root_certificates@ =~= Seq::<Certificate>::empty()
        &&& self.content_type_map@ =~= Seq::<(String, String)>::empty()
        &&& self.default_content_type is None
        &&& self.default_headers is None
        &&& self.proxy_url is None
        &&& self.proxy_ca_certificate is None
        &&& self.proxy_excludes is None
        &&& self.allow_http == ConfigValue::<bool>::Parsed(false)
        &&& self.allow_insecure == ConfigValue::<bool>::Parsed(false)
        &&& self.timeout == Some(ConfigValue::<Duration>::Parsed(Duration { secs: 30, nanos: 0 }))
        &&& self.connect_timeout == Some(
            ConfigValue::<Duration>::Parsed(Duration { secs: 5, nanos: 0 }),
        )
        &&& self.pool_idle_timeout is None
        &&& self.pool_max_idle_per_host is None
        &&& self.http2_keep_alive_interval is None
        &&& self.http2_keep_alive_timeout is None
        &&& self.http2_keep_alive_while_idle == ConfigValue::<bool>::Parsed(false)
        &&& self.http2_max_frame_size is None
        &&& self.http1_only == ConfigValue::<bool>::Parsed(true)
        &&& self.http2_only == ConfigValue::<bool>::Parsed(false)
    }

    /// Create a new [`ClientOptions`] with default values.
    pub fn new() -> (r: ClientOptions)
        ensures
            r.is_default(),
    {
        ClientOptions {
            user_agent: None,
            root_certificates: Vec::new(),
            content_type_map: Vec::new(),
            default_content_type: None,
            default_headers: None,
            proxy_url: None,
            proxy_ca_certificate: None,
            proxy_excludes: None,
            allow_http: ConfigValue::Parsed(false),
            allow_insecure: ConfigValue::Parsed(false),
            timeout: Some(ConfigValue::Parsed(Duration::from_secs(30))),
            connect_timeout: Some(ConfigValue::Parsed(Duration::from_secs(5))),
            pool_idle_timeout: None,
            pool_max_idle_per_host: None,
            http2_keep_alive_interval: None,
            http2_keep_alive_timeout: None,
            http2_keep_alive_while_idle: ConfigValue::Parsed(false),
            http2_max_frame_size: None,
            http1_only: ConfigValue::Parsed(true),
            http2_only: ConfigValue::Parsed(false),
        }
    }

    /// The options value after setting `key` to the raw string `value`.
    /// Typed fields store the string verbatim, deferred; plain string
    /// fields store it directly.
    pub open spec fn spec_with_config(self, key: ClientConfigKey, value: String) -> ClientOptions {
        match key {
            ClientConfigKey::AllowHttp => ClientOptions {
                allow_http: ConfigValue::Deferred(value),
                ..self
            },
            ClientConfigKey::AllowInvalidCertificates => ClientOptions {
                allow_insecure: ConfigValue::Deferred(value),
                ..self
            },
            ClientConfigKey::ConnectTimeout => ClientOptions {
                connect_timeout: Some(ConfigValue::Deferred(value)),
                ..self
            },
            ClientConfigKey::DefaultContentType => ClientOptions {
                default_content_type: Some(value),
                ..self
            },
            ClientConfigKey::Http1Only => ClientOptions {
                http1_only: ConfigValue::Deferred(value),
                ..self
            },
            ClientConfigKey::Http2KeepAliveInterval => ClientOptions {
                http2_keep_alive_interval: Some(ConfigValue::Deferred(value)),
                ..self
            },
            ClientConfigKey::Http2KeepAliveTimeout => ClientOptions {
                http2_keep_alive_timeout: Some(ConfigValue::Deferred(value)),
                ..self
            },
            ClientConfigKey::Http2KeepAliveWhileIdle => ClientOptions {
                http2_keep_alive_while_idle: ConfigValue::Deferred(value),
                ..self
            },
            ClientConfigKey::Http2MaxFrameSize => ClientOptions {
                http2_max_frame_size: Some(ConfigValue::Deferred(value)),
                ..self
            },
            ClientConfigKey::Http2Only => ClientOptions {
                http2_only: ConfigValue::Deferred(value),
                ..self
            },
            ClientConfigKey::PoolIdleTimeout => ClientOptions {
                pool_idle_timeout: Some(ConfigValue::Deferred(value)),
                ..self
            },
            ClientConfigKey::PoolMaxIdlePerHost => ClientOptions {
                pool_max_idle_per_host: Some(ConfigValue::Deferred(value)),
                ..self
            },
            ClientConfigKey::ProxyUrl => ClientOptions { proxy_url: Some(value), ..self },
            ClientConfigKey::ProxyCaCertificate => ClientOptions {
                proxy_ca_certificate: Some(value),
                ..self
            },
            ClientConfigKey::ProxyExcludes => ClientOptions { proxy_excludes: Some(value), ..self },
            ClientConfigKey::Timeout => ClientOptions {
                timeout: Some(ConfigValue::Deferred(value)),
                ..self
            },
            ClientConfigKey::UserAgent => ClientOptions { user_agent: Some(value), ..self },
        }
    }

    /// Set an option by key.
    pub fn with_config(self, key: ClientConfigKey, value: String) -> (r: ClientOptions)
        ensures
            r == self.spec_with_config(key, value),
    {
        let mut o = self;
        match key {
            ClientConfigKey::AllowHttp => {
                o.allow_http = ConfigValue::Deferred(value);
            },
            ClientConfigKey::AllowInvalidCertificates => {
                o.allow_insecure = ConfigValue::Deferred(value);
            },
            ClientConfigKey::ConnectTimeout => {
                o.connect_timeout = Some(ConfigValue::Deferred(value));
            },
            ClientConfigKey::DefaultContentType => {
                o.default_content_type = Some(value);
            },
            ClientConfigKey::Http1Only => {
                o.http1_only = ConfigValue::Deferred(value);
            },
            ClientConfigKey::Http2KeepAliveInterval => {
                o.http2_keep_alive_interval = Some(ConfigValue::Deferred(value));
            },
            ClientConfigKey::Http2KeepAliveTimeout => {
                o.http2_keep_alive_timeout = Some(ConfigValue::Deferred(value));
            },
            ClientConfigKey::Http2KeepAliveWhileIdle => {
                o.http2_keep_alive_while_idle = ConfigValue::Deferred(value);
            },
            ClientConfigKey::Http2MaxFrameSize => {
                o.http2_max_frame_size = Some(ConfigValue::Deferred(value));
            },
            ClientConfigKey::Http2Only => {
                o.http2_only = ConfigValue::Deferred(value);
            },
            ClientConfigKey::PoolIdleTimeout => {
                o.pool_idle_timeout = Some(ConfigValue::Deferred(value));
            },
            ClientConfigKey::PoolMaxIdlePerHost => {
                o.pool_max_idle_per_host = Some(ConfigValue::Deferred(value));
            },
            ClientConfigKey::ProxyUrl => {
                o.proxy_url = Some(value);
            },
            ClientConfigKey::ProxyCaCertificate => {
                o.proxy_ca_certificate = Some(value);
            },
            ClientConfigKey::ProxyExcludes => {
                o.proxy_excludes = Some(value);
            },
            ClientConfigKey::Timeout => {
                o.timeout = Some(ConfigValue::Deferred(value));
            },
            ClientConfigKey::UserAgent => {
                o.user_agent = Some(value);
            },
        }
        o
    }

    /// The string reported for `key`: a deferred value shows its raw
    /// string, a parsed value its canonical notation, an unset optional
    /// field nothing. A user agent is reported only when it is usable as
    /// a header value.
    pub open spec fn spec_get_config_value(self, key: ClientConfigKey) -> Option<Seq<char>> {
        match key {
            ClientConfigKey::AllowHttp => Some(self.allow_http.display_spec()),
            ClientConfigKey::AllowInvalidCertificates => Some(self.allow_insecure.display_spec()),
            ClientConfigKey::ConnectTimeout => match self.connect_timeout {
                Option::Some(v) => Some(v.display_spec()),
                Option::None => None,
            },
            ClientConfigKey::DefaultContentType => match self.default_content_type {
                Option::Some(s) => Some(s@),
                Option::None => None,
            },
            ClientConfigKey::Http1Only => Some(self.http1_only.display_spec()),
            ClientConfigKey::Http2KeepAliveInterval => match self.http2_keep_alive_interval {
                Option::Some(v) => Some(v.display_spec()),
                Option::None => None,
            },
            ClientConfigKey::Http2KeepAliveTimeout => match self.http2_keep_alive_timeout {
                Option::Some(v) => Some(v.display_spec()),
                Option::None => None,
            },
            ClientConfigKey::Http2KeepAliveWhileIdle => Some(
                self.http2_keep_alive_while_idle.display_spec(),
            ),
            ClientConfigKey::Http2MaxFrameSize => match self.http2_max_frame_size {
                Option::Some(v) => Some(v.display_spec()),
                Option::None => None,
            },
            ClientConfigKey::Http2Only => Some(self.http2_only.display_spec()),
            ClientConfigKey::PoolIdleTimeout => match self.pool_idle_timeout {
                Option::Some(v) => Some(v.display_spec()),
                Option::None => None,
            },
            ClientConfigKey::PoolMaxIdlePerHost => match self.pool_max_idle_per_host {
                Option::Some(v) => Some(v.display_spec()),
                Option::None => None,
            },
            ClientConfigKey::ProxyUrl => match self.proxy_url {
                Option::Some(s) => Some(s@),
                Option::None => None,
            },
            ClientConfigKey::ProxyCaCertificate => match self.proxy_ca_certificate {
                Option::Some(s) => Some(s@),
                Option::None => None,
            },
            ClientConfigKey::ProxyExcludes => match self.proxy_excludes {
                Option::Some(s) => Some(s@),
                Option::None => None,
            },
            ClientConfigKey::Timeout => match self.timeout {
                Option::Some(v) => Some(v.display_spec()),
                Option::None => None,
            },
            ClientConfigKey::UserAgent => match self.user_agent {
                Option::Some(ua) => if is_header_value_str(ua@) {
                    Some(ua@)
                } else {
                    None
                },
                Option::None => None,
            },
        }
    }

    /// Get an option by key.
    pub fn get_config_value(&self, key: &ClientConfigKey) -> (r: Option<String>)
        ensures
            match r {
                Option::Some(s) => self.spec_get_config_value(*key) == Some(s@),
                Option::None => self.spec_get_config_value(*key) is None,
            },
    {
        match key {
            ClientConfigKey::AllowHttp => Some(self.allow_http.display()),
            ClientConfigKey::AllowInvalidCertificates => Some(self.allow_insecure.display()),
            ClientConfigKey::ConnectTimeout => match &self.connect_timeout {
                Option::Some(v) => Some(v.display()),
                Option::None => None,
            },
            ClientConfigKey::DefaultContentType => match &self.default_content_type {
                Option::Some(s) => Some(s.clone()),
                Option::None => None,
            },
            ClientConfigKey::Http1Only => Some(self.http1_only.display()),
            ClientConfigKey::Http2KeepAliveInterval => match &self.http2_keep_alive_interval {
                Option::Some(v) => Some(v.display()),
                Option::None => None,
            },
            ClientConfigKey::Http2KeepAliveTimeout => match &self.http2_keep_alive_timeout {
                Option::Some(v) => Some(v.display()),
                Option::None => None,
            },
            ClientConfigKey::Http2KeepAliveWhileIdle => Some(
                self.http2_keep_alive_while_idle.display(),
            ),
            ClientConfigKey::Http2MaxFrameSize => match &self.http2_max_frame_size {
                Option::Some(v) => Some(v.display()),
                Option::None => None,
            },
            ClientConfigKey::Http2Only => Some(self.http2_only.display()),
            ClientConfigKey::PoolIdleTimeout => match &self.pool_idle_timeout {
                Option::Some(v) => Some(v.display()),
                Option::None => None,
            },
            ClientConfigKey::PoolMaxIdlePerHost => match &self.pool_max_idle_per_host {
                Option::Some(v) => Some(v.display()),
                Option::None => None,
            },
            ClientConfigKey::ProxyUrl => match &self.proxy_url {
                Option::Some(s) => Some(s.clone()),
                Option::None => None,
            },
            ClientConfigKey::ProxyCaCertificate => match &self.proxy_ca_certificate {
                Option::Some(s) => Some(s.clone()),
                Option::None => None,
            },
            ClientConfigKey::ProxyExcludes => match &self.proxy_excludes {
                Option::Some(s) => Some(s.clone()),
                Option::None => None,
            },
            ClientConfigKey::Timeout => match &self.timeout {
                Option::Some(v) => Some(v.display()),
                Option::None => None,
            },
            ClientConfigKey::UserAgent => match &self.user_agent {
                Option::Some(ua) => {
                    if check_header_value(ua.as_str()) {
                        Some(ua.clone())
                    } else {
                        None
                    }
                },
                Option::None => None,
            },
        }
    }


    /// An explicit copy whose model is the same. Cloned strings keep
    /// their characters, certificates their bytes.
    pub fn duplicate(&self) -> (r: ClientOptions)
        ensures
            r@ == self@,
    {
        let certs = certs_dup(&self.root_certificates);
        let r = ClientOptions {
            user_agent: opt_str_dup(&self.user_agent),
            root_certificates: certs,
            content_type_map: pairs_dup(&self.content_type_map),
            default_content_type: opt_str_dup(&self.default_content_type),
            default_headers: match &self.default_headers {
                Option::Some(h) => Some(pairs_dup(h)),
                Option::None => None,
            },
            proxy_url: opt_str_dup(&self.proxy_url),
            proxy_ca_certificate: opt_str_dup(&self.proxy_ca_certificate),
            proxy_excludes: opt_str_dup(&self.proxy_excludes),
            allow_http: cv_dup(&self.allow_http),
            allow_insecure: cv_dup(&self.allow_insecure),
            timeout: opt_cv_dup(&self.timeout),
            connect_timeout: opt_cv_dup(&self.connect_timeout),
            pool_idle_timeout: opt_cv_dup(&self.pool_idle_timeout),
            pool_max_idle_per_host: opt_cv_dup(&self.pool_max_idle_per_host),
            http2_keep_alive_interval: opt_cv_dup(&self.http2_keep_alive_interval),
            http2_keep_alive_timeout: opt_cv_dup(&self.http2_keep_alive_timeout),
            http2_keep_alive_while_idle: cv_dup(&self.http2_keep_alive_while_idle),
            http2_max_frame_size: opt_cv_dup(&self.http2_max_frame_size),
            http1_only: cv_dup(&self.http1_only),
            http2_only: cv_dup(&self.http2_only),
        };
        proof {
            assert(r@.root_certificates =~= self@.root_certificates);
            assert(r@ =~= self@);
        }
        r
    }

    /// Sets the User-Agent header to be used by this client. The agent
    /// string must be usable as a header value.
    pub fn with_user_agent(self, agent: String) -> (r: ClientOptions)
        requires
            is_header_value_str(agent@),
        ensures
            r == (ClientOptions { user_agent: Some(agent), ..self }),
    {
        let mut o = self;
        o.user_agent = Some(agent);
        o
    }

    /// Add a custom root certificate, for example to connect to a server
    /// with a self-signed certificate. Explicitly added roots are
    /// trusted independently of the proxy CA.
    pub fn with_root_certificate(self, certificate: Certificate) -> (r: ClientOptions)
        ensures
            r.root_certificates@ == self.root_certificates@.push(certificate),
            r == (ClientOptions { root_certificates: r.root_certificates, ..self }),
    {
        let mut o = self;
        o.root_certificates.push(certificate);
        o
    }

    /// Set the default CONTENT_TYPE for uploads.
    pub fn with_default_content_type(self, mime: String) -> (r: ClientOptions)
        ensures
            r == (ClientOptions { default_content_type: Some(mime), ..self }),
    {
        let mut o = self;
        o.default_content_type = Some(mime);
        o
    }

    /// Set the CONTENT_TYPE for a given file extension. A mapping set
    /// earlier for the same extension is replaced.
    pub fn with_content_type_for_suffix(self, extension: String, mime: String) -> (r: ClientOptions)
        ensures
            r.content_type_map@ == retain_other_keys(self.content_type_map@, extension@).push(
                (extension, mime),
            ),
            r == (ClientOptions { content_type_map: r.content_type_map, ..self }),
    {
        let mut o = self;
        let ghost orig = o.content_type_map@;
        let mut rest = o.content_type_map;
        o.content_type_map = Vec::new();
        let mut kept: Vec<(String, String)> = Vec::new();
        while rest.len() > 0
            invariant
                rest@.len() <= orig.len(),
                rest@ =~= orig.subrange(orig.len() - rest@.len(), orig.len() as int),
                kept@ =~= retain_other_keys(
                    orig.subrange(0, orig.len() - rest@.len()),
                    extension@,
                ),
            decreases rest@.len(),
        {
            let ghost done = orig.len() - rest@.len();
            let p = rest.remove(0);
            proof {
                assert(p == orig[done]);
                assert(orig.subrange(0, done + 1).drop_last() =~= orig.subrange(0, done));
                assert(orig.subrange(0, done + 1).last() == orig[done]);
                assert(rest@ =~= orig.subrange(done + 1, orig.len() as int));
            }
            if !str_eq(p.0.as_str(), extension.as_str()) {
                kept.push(p);
            }
            proof {
                assert(kept@ =~= retain_other_keys(orig.subrange(0, done + 1), extension@));
            }
        }
        proof {
            assert(orig.subrange(0, orig.len() as int) =~= orig);
        }
        kept.push((extension, mime));
        o.content_type_map = kept;
        o
    }

    /// Sets the default headers for every request, applied verbatim.
    pub fn with_default_headers(self, headers: Vec<(String, String)>) -> (r: ClientOptions)
        ensures
            r == (ClientOptions { default_headers: Some(headers), ..self }),
    {
        let mut o = self;
        o.default_headers = Some(headers);
        o
    }

    /// Sets what protocol is allowed. If `allow_http` is:
    /// * false (default): only HTTPS is allowed
    /// * true: HTTP and HTTPS are allowed
    pub fn with_allow_http(self, allow_http: bool) -> (r: ClientOptions)
        ensures
            r == (ClientOptions { allow_http: ConfigValue::Parsed(allow_http), ..self }),
    {
        let mut o = self;
        o.allow_http = ConfigValue::Parsed(allow_http);
        o
    }

    /// Allows connections to invalid SSL certificates.
    /// * false (default): only valid HTTPS certificates are allowed
    /// * true: all HTTPS certificates are allowed
    ///
    /// # Warning
    ///
    /// Trusting invalid certificates trusts *any* certificate for *any*
    /// site, including expired ones. This is a security-downgrading
    /// option that should only be used as a last resort or for testing.
    pub fn with_allow_invalid_certificates(self, allow_insecure: bool) -> (r: ClientOptions)
        ensures
            r == (ClientOptions { allow_insecure: ConfigValue::Parsed(allow_insecure), ..self }),
    {
        let mut o = self;
        o.allow_insecure = ConfigValue::Parsed(allow_insecure);
        o
    }

    /// Only use http1 connections. On by default. Mutually exclusive
    /// with [`ClientOptions::with_http2_only`]: each clears the other
    /// flag, the last setter called wins.
    pub fn with_http1_only(self) -> (r: ClientOptions)
        ensures
            r == (ClientOptions {
                http1_only: ConfigValue::Parsed(true),
                http2_only: ConfigValue::Parsed(false),
                ..self
            }),
    {
        let mut o = self;
        o.http2_only = ConfigValue::Parsed(false);
        o.http1_only = ConfigValue::Parsed(true);
        o
    }

    /// Only use http2 connections. Mutually exclusive with
    /// [`ClientOptions::with_http1_only`]: each clears the other flag,
    /// the last setter called wins.
    pub fn with_http2_only(self) -> (r: ClientOptions)
        ensures
            r == (ClientOptions {
                http1_only: ConfigValue::Parsed(false),
                http2_only: ConfigValue::Parsed(true),
                ..self
            }),
    {
        let mut o = self;
        o.http1_only = ConfigValue::Parsed(false);
        o.http2_only = ConfigValue::Parsed(true);
        o
    }

    /// Use http2 if supported, otherwise use http1: clears both forced
    /// flags, so the version is negotiated normally.
    pub fn with_allow_http2(self) -> (r: ClientOptions)
        ensures
            r == (ClientOptions {
                http1_only: ConfigValue::Parsed(false),
                http2_only: ConfigValue::Parsed(false),
                ..self
            }),
    {
        let mut o = self;
        o.http1_only = ConfigValue::Parsed(false);
        o.http2_only = ConfigValue::Parsed(false);
        o
    }

    /// Set a proxy URL to use for requests.
    pub fn with_proxy_url(self, proxy_url: String) -> (r: ClientOptions)
        ensures
            r == (ClientOptions { proxy_url: Some(proxy_url), ..self }),
    {
        let mut o = self;
        o.proxy_url = Some(proxy_url);
        o
    }

    /// Set a trusted proxy CA certificate, in PEM format.
    pub fn with_proxy_ca_certificate(self, proxy_ca_certificate: String) -> (r: ClientOptions)
        ensures
            r == (ClientOptions { proxy_ca_certificate: Some(proxy_ca_certificate), ..self }),
    {
        let mut o = self;
        o.proxy_ca_certificate = Some(proxy_ca_certificate);
        o
    }

    /// Set a list of hosts to exclude from proxy connections.
    pub fn with_proxy_excludes(self, proxy_excludes: String) -> (r: ClientOptions)
        ensures
            r == (ClientOptions { proxy_excludes: Some(proxy_excludes), ..self }),
    {
        let mut o = self;
        o.proxy_excludes = Some(proxy_excludes);
        o
    }

    /// Set a request timeout, applied from when the request starts
    /// connecting until the response body has finished. Default is 30
    /// seconds.
    pub fn with_timeout(self, timeout: Duration) -> (r: ClientOptions)
        ensures
            r == (ClientOptions { timeout: Some(ConfigValue::Parsed(timeout)), ..self }),
    {
        let mut o = self;
        o.timeout = Some(ConfigValue::Parsed(timeout));
        o
    }

    /// Disables the request timeout: the network layer's own default
    /// applies.
    pub fn with_timeout_disabled(self) -> (r: ClientOptions)
        ensures
            r == (ClientOptions { timeout: None, ..self }),
    {
        let mut o = self;
        o.timeout = None;
        o
    }

    /// Set a timeout for only the connect phase of a client. Default is
    /// 5 seconds.
    pub fn with_connect_timeout(self, timeout: Duration) -> (r: ClientOptions)
        ensures
            r == (ClientOptions { connect_timeout: Some(ConfigValue::Parsed(timeout)), ..self }),
    {
        let mut o = self;
        o.connect_timeout = Some(ConfigValue::Parsed(timeout));
        o
    }

    /// Disables the connection timeout: the network layer's own default
    /// applies.
    pub fn with_connect_timeout_disabled(self) -> (r: ClientOptions)
        ensures
            r == (ClientOptions { connect_timeout: None, ..self }),
    {
        let mut o = self;
        o.connect_timeout = None;
        o
    }

    /// Set how long an idle connection is kept alive in the pool.
    pub fn with_pool_idle_timeout(self, timeout: Duration) -> (r: ClientOptions)
        ensures
            r == (ClientOptions { pool_idle_timeout: Some(ConfigValue::Parsed(timeout)), ..self }),
    {
        let mut o = self;
        o.pool_idle_timeout = Some(ConfigValue::Parsed(timeout));
        o
    }

    /// Set the maximum number of idle connections per host.
    pub fn with_pool_max_idle_per_host(self, max: usize) -> (r: ClientOptions)
        ensures
            r == (ClientOptions { pool_max_idle_per_host: Some(ConfigValue::Parsed(max)), ..self }),
    {
        let mut o = self;
        o.pool_max_idle_per_host = Some(ConfigValue::Parsed(max));
        o
    }

    /// Sets the interval for HTTP2 Ping frames sent to keep a connection
    /// alive.
    pub fn with_http2_keep_alive_interval(self, interval: Duration) -> (r: ClientOptions)
        ensures
            r == (ClientOptions {
                http2_keep_alive_interval: Some(ConfigValue::Parsed(interval)),
                ..self
            }),
    {
        let mut o = self;
        o.http2_keep_alive_interval = Some(ConfigValue::Parsed(interval));
        o
    }

    /// Sets a timeout for receiving an acknowledgement of the keep-alive
    /// ping; the connection is closed when the ping is not acknowledged
    /// in time. Does nothing if the keep-alive interval is disabled.
    pub fn with_http2_keep_alive_timeout(self, interval: Duration) -> (r: ClientOptions)
        ensures
            r == (ClientOptions {
                http2_keep_alive_timeout: Some(ConfigValue::Parsed(interval)),
                ..self
            }),
    {
        let mut o = self;
        o.http2_keep_alive_timeout = Some(ConfigValue::Parsed(interval));
        o
    }

    /// Enable HTTP2 keep alive pings also for idle connections, not only
    /// while request/response streams are open.
    pub fn with_http2_keep_alive_while_idle(self) -> (r: ClientOptions)
        ensures
            r == (ClientOptions {
                http2_keep_alive_while_idle: ConfigValue::Parsed(true),
                ..self
            }),
    {
        let mut o = self;
        o.http2_keep_alive_while_idle = ConfigValue::Parsed(true);
        o
    }

    /// Sets the maximum frame size to use for HTTP2.
    pub fn with_http2_max_frame_size(self, sz: u32) -> (r: ClientOptions)
        ensures
            r == (ClientOptions { http2_max_frame_size: Some(ConfigValue::Parsed(sz)), ..self }),
    {
        let mut o = self;
        o.http2_max_frame_size = Some(ConfigValue::Parsed(sz));
        o
    }
}

impl Default for ClientOptions {
    /// The fixed default configuration; see [`ClientOptions::is_default`].
    fn default() -> (r: ClientOptions)
        ensures
            r.is_default(),
    {
        ClientOptions::new()
    }
}

/// Round trip: for every recognized key, setting it to a raw string and
/// reading it back reports that exact string. The one proviso concerns
/// the user agent, which is reported only when it is usable as a header
/// value.
pub proof fn lemma_config_round_trip(o: ClientOptions, key: ClientConfigKey, value: String)
    requires
        key is UserAgent ==> is_header_value_str(value@),
    ensures
        o.spec_with_config(key, value).spec_get_config_value(key) == Some(value@),
{
}

/// Defaults: a freshly constructed options value reports a 30 second
/// timeout, a 5 second connect timeout, HTTP/1 forced on, HTTP/2 forced
/// off, the boolean options false, and every other optional key absent.
pub proof fn lemma_default_report(o: ClientOptions)
    requires
        o.is_default(),
    ensures
        o.spec_get_config_value(ClientConfigKey::Timeout) == Some("30s"@),
        o.spec_get_config_value(ClientConfigKey::ConnectTimeout) == Some("5s"@),
        o.spec_get_config_value(ClientConfigKey::Http1Only) == Some("true"@),
        o.spec_get_config_value(ClientConfigKey::Http2Only) == Some("false"@),
        o.spec_get_config_value(ClientConfigKey::AllowHttp) == Some("false"@),
        o.spec_get_config_value(ClientConfigKey::AllowInvalidCertificates) == Some("false"@),
        o.spec_get_config_value(ClientConfigKey::Http2KeepAliveWhileIdle) == Some("false"@),
        o.spec_get_config_value(ClientConfigKey::DefaultContentType) is None,
        o.spec_get_config_value(ClientConfigKey::Http2KeepAliveInterval) is None,
        o.spec_get_config_value(ClientConfigKey::Http2KeepAliveTimeout) is None,
        o.spec_get_config_value(ClientConfigKey::Http2MaxFrameSize) is None,
        o.spec_get_config_value(ClientConfigKey::PoolIdleTimeout) is None,
        o.spec_get_config_value(ClientConfigKey::PoolMaxIdlePerHost) is None,
        o.spec_get_config_value(ClientConfigKey::ProxyUrl) is None,
        o.spec_get_config_value(ClientConfigKey::ProxyCaCertificate) is None,
        o.spec_get_config_value(ClientConfigKey::ProxyExcludes) is None,
        o.spec_get_config_value(ClientConfigKey::UserAgent) is None,
{
    reveal_strlit("30s");
    reveal_strlit("5s");
    assert(crate::decimal::dec_digits(30) =~= "30s"@.subrange(0, 2)) by {
        reveal_strlit("30s");
        assert(crate::decimal::dec_digits(3) =~= seq!['3']);
        assert(crate::decimal::dec_digits(30) =~= seq!['3', '0']);
    };
    assert(Duration { secs: 30, nanos: 0 }.canonical() =~= "30s"@) by {
        reveal_strlit("s");
        reveal_strlit("30s");
        assert(crate::decimal::dec_digits(30) =~= seq!['3', '0']);
    };
    assert(Duration { secs: 5, nanos: 0 }.canonical() =~= "5s"@) by {
        reveal_strlit("s");
        reveal_strlit("5s");
        assert(crate::decimal::dec_digits(5) =~= seq!['5']);
    };
}


/// What an optional configuration value resolves to: `None` when unset,
/// otherwise the resolution of the stored value.
pub open spec fn opt_resolution<T: ConfigParse>(v: Option<ConfigValue<T>>) -> Option<Option<T>> {
    match v {
        Option::Some(cv) => Some(cv.resolve_spec()),
        Option::None => None,
    }
}

/// Whether an optional duration value, if already parsed, is well-formed.
pub open spec fn opt_duration_wf(v: Option<CvView<Duration>>) -> bool {
    match v {
        Option::Some(CvView::Parsed(d)) => d.wf(),
        _ => true,
    }
}

impl ClientOptions {
    /// Whether every already-parsed duration of this configuration is
    /// well-formed. Every constructor and setter of this crate only
    /// stores well-formed durations.
    pub open spec fn durations_wf(self) -> bool {
        &&& opt_duration_wf(opt_cv_view(self.timeout))
        &&& opt_duration_wf(opt_cv_view(self.connect_timeout))
        &&& opt_duration_wf(opt_cv_view(self.pool_idle_timeout))
        &&& opt_duration_wf(opt_cv_view(self.http2_keep_alive_interval))
        &&& opt_duration_wf(opt_cv_view(self.http2_keep_alive_timeout))
    }
}

/// Feeding a reported value back reconstructs an equivalent
/// configuration: when `key` reports the string `s`, storing `s` under
/// `key` yields an options value whose field for that key resolves to
/// the same typed value as before; a plain string field holds the same
/// characters. Already-parsed durations must be well-formed, which every
/// constructor of this crate guarantees.
pub proof fn lemma_report_reconstructs(o: ClientOptions, key: ClientConfigKey, s: String)
    requires
        o.durations_wf(),
        o.spec_get_config_value(key) == Some(s@),
    ensures
        ({
            let n = o.spec_with_config(key, s);
            match key {
                ClientConfigKey::AllowHttp => cv_resolve(n.allow_http@) == cv_resolve(
                    o.allow_http@,
                ),
                ClientConfigKey::AllowInvalidCertificates => cv_resolve(n.allow_insecure@)
                    == cv_resolve(o.allow_insecure@),
                ClientConfigKey::ConnectTimeout => opt_resolution(n.connect_timeout)
                    == opt_resolution(o.connect_timeout),
                ClientConfigKey::DefaultContentType => opt_str_view(n.default_content_type)
                    == opt_str_view(o.default_content_type),
                ClientConfigKey::Http1Only => cv_resolve(n.http1_only@) == cv_resolve(
                    o.http1_only@,
                ),
                ClientConfigKey::Http2KeepAliveInterval => opt_resolution(
                    n.http2_keep_alive_interval,
                ) == opt_resolution(o.http2_keep_alive_interval),
                ClientConfigKey::Http2KeepAliveTimeout => opt_resolution(
                    n.http2_keep_alive_timeout,
                ) == opt_resolution(o.http2_keep_alive_timeout),
                ClientConfigKey::Http2KeepAliveWhileIdle => cv_resolve(
                    n.http2_keep_alive_while_idle@,
                ) == cv_resolve(o.http2_keep_alive_while_idle@),
                ClientConfigKey::Http2MaxFrameSize => opt_resolution(n.http2_max_frame_size)
                    == opt_resolution(o.http2_max_frame_size),
                ClientConfigKey::Http2Only => cv_resolve(n.http2_only@) == cv_resolve(
                    o.http2_only@,
                ),
                ClientConfigKey::PoolIdleTimeout => opt_resolution(n.pool_idle_timeout)
                    == opt_resolution(o.pool_idle_timeout),
                ClientConfigKey::PoolMaxIdlePerHost => opt_resolution(n.pool_max_idle_per_host)
                    == opt_resolution(o.pool_max_idle_per_host),
                ClientConfigKey::ProxyUrl => opt_str_view(n.proxy_url) == opt_str_view(
                    o.proxy_url,
                ),
                ClientConfigKey::ProxyCaCertificate => opt_str_view(n.proxy_ca_certificate)
                    == opt_str_view(o.proxy_ca_certificate),
                ClientConfigKey::ProxyExcludes => opt_str_view(n.proxy_excludes) == opt_str_view(
                    o.proxy_excludes,
                ),
                ClientConfigKey::Timeout => opt_resolution(n.timeout) == opt_resolution(o.timeout),
                ClientConfigKey::UserAgent => opt_str_view(n.user_agent) == opt_str_view(
                    o.user_agent,
                ),
            }
        }),
{
    match key {
        ClientConfigKey::AllowHttp => {
            lemma_display_reparse::<bool>(o.allow_http@);
        },
        ClientConfigKey::AllowInvalidCertificates => {
            lemma_display_reparse::<bool>(o.allow_insecure@);
        },
        ClientConfigKey::ConnectTimeout => {
            match o.connect_timeout {
                Option::Some(cv) => lemma_display_reparse::<Duration>(cv@),
                Option::None => {},
            }
        },
        ClientConfigKey::DefaultContentType => {},
        ClientConfigKey::Http1Only => {
            lemma_display_reparse::<bool>(o.http1_only@);
        },
        ClientConfigKey::Http2KeepAliveInterval => {
            match o.http2_keep_alive_interval {
                Option::Some(cv) => lemma_display_reparse::<Duration>(cv@),
                Option::None => {},
            }
        },
        ClientConfigKey::Http2KeepAliveTimeout => {
            match o.http2_keep_alive_timeout {
                Option::Some(cv) => lemma_display_reparse::<Duration>(cv@),
                Option::None => {},
            }
        },
        ClientConfigKey::Http2KeepAliveWhileIdle => {
            lemma_display_reparse::<bool>(o.http2_keep_alive_while_idle@);
        },
        ClientConfigKey::Http2MaxFrameSize => {
            match o.http2_max_frame_size {
                Option::Some(cv) => lemma_display_reparse::<u32>(cv@),
                Option::None => {},
            }
        },
        ClientConfigKey::Http2Only => {
            lemma_display_reparse::<bool>(o.http2_only@);
        },
        ClientConfigKey::PoolIdleTimeout => {
            match o.pool_idle_timeout {
                Option::Some(cv) => lemma_display_reparse::<Duration>(cv@),
                Option::None => {},
            }
        },
        ClientConfigKey::PoolMaxIdlePerHost => {
            match o.pool_max_idle_per_host {
                Option::Some(cv) => lemma_display_reparse::<usize>(cv@),
                Option::None => {},
            }
        },
        ClientConfigKey::ProxyUrl => {},
        ClientConfigKey::ProxyCaCertificate => {},
        ClientConfigKey::ProxyExcludes => {},
        ClientConfigKey::Timeout => {
            match o.timeout {
                Option::Some(cv) => lemma_display_reparse::<Duration>(cv@),
                Option::None => {},
            }
        },
        ClientConfigKey::UserAgent => {},
    }
}

} // verus!
