//! The closed set of recognized configuration keys and its bidirectional
//! mapping to canonical lowercase snake_case identifiers.

use vstd::prelude::*;

use crate::error::{ClientError, ErrorModel};
use crate::strutil::str_eq;

verus! {

/// Configuration keys for `ClientOptions`.
#[derive(PartialEq, Eq, Hash, Clone, Debug, Copy, Structural)]
#[non_exhaustive]
pub enum ClientConfigKey {
    /// Allow non-TLS, i.e. non-HTTPS connections.
    AllowHttp,
    /// Skip certificate validation on https connections.
    ///
    /// # Warning
    ///
    /// Trusting invalid certificates trusts *any* certificate for *any*
    /// site, including expired ones. This is a security-downgrading
    /// option that should only be used as a last resort or for testing.
    AllowInvalidCertificates,
    /// Timeout for only the connect phase of a client.
    ConnectTimeout,
    /// Default CONTENT_TYPE for uploads.
    DefaultContentType,
    /// Only use http1 connections.
    Http1Only,
    /// Interval for HTTP2 Ping frames to keep a connection alive.
    Http2KeepAliveInterval,
    /// Timeout for receiving an acknowledgement of the keep-alive ping.
    Http2KeepAliveTimeout,
    /// Enable HTTP2 keep alive pings for idle connections.
    Http2KeepAliveWhileIdle,
    /// Sets the maximum frame size to use for HTTP2.
    Http2MaxFrameSize,
    /// Only use http2 connections.
    Http2Only,
    /// The length of time an idle connection is kept alive in the pool.
    PoolIdleTimeout,
    /// Maximum number of idle connections per host.
    PoolMaxIdlePerHost,
    /// HTTP proxy to use for requests.
    ProxyUrl,
    /// PEM-formatted CA certificate for proxy connections.
    ProxyCaCertificate,
    /// List of hosts that bypass the proxy.
    ProxyExcludes,
    /// Request timeout, applied from the start of the connection until the
    /// response body has finished.
    Timeout,
    /// User-Agent header to be used by this client.
    UserAgent,
}

impl ClientConfigKey {
    /// The canonical string identifier of this key.
    pub open spec fn spec_name(self) -> Seq<char> {
        match self {
            ClientConfigKey::AllowHttp => "allow_http"@,
            ClientConfigKey::AllowInvalidCertificates => "allow_invalid_certificates"@,
            ClientConfigKey::ConnectTimeout => "connect_timeout"@,
            ClientConfigKey::DefaultContentType => "default_content_type"@,
            ClientConfigKey::Http1Only => "http1_only"@,
            ClientConfigKey::Http2KeepAliveInterval => "http2_keep_alive_interval"@,
            ClientConfigKey::Http2KeepAliveTimeout => "http2_keep_alive_timeout"@,
            ClientConfigKey::Http2KeepAliveWhileIdle => "http2_keep_alive_while_idle"@,
            ClientConfigKey::Http2MaxFrameSize => "http2_max_frame_size"@,
            ClientConfigKey::Http2Only => "http2_only"@,
            ClientConfigKey::PoolIdleTimeout => "pool_idle_timeout"@,
            ClientConfigKey::PoolMaxIdlePerHost => "pool_max_idle_per_host"@,
            ClientConfigKey::ProxyUrl => "proxy_url"@,
            ClientConfigKey::ProxyCaCertificate => "proxy_ca_certificate"@,
            ClientConfigKey::ProxyExcludes => "proxy_excludes"@,
            ClientConfigKey::Timeout => "timeout"@,
            ClientConfigKey::UserAgent => "user_agent"@,
        }
    }

    /// The key whose canonical identifier is `s`, if any.
    pub open spec fn spec_of_name(s: Seq<char>) -> Option<ClientConfigKey> {
        if s == "allow_http"@ {
            Some(ClientConfigKey::AllowHttp)
        } else if s == "allow_invalid_certificates"@ {
            Some(ClientConfigKey::AllowInvalidCertificates)
        } else if s == "connect_timeout"@ {
            Some(ClientConfigKey::ConnectTimeout)
        } else if s == "default_content_type"@ {
            Some(ClientConfigKey::DefaultContentType)
        } else if s == "http1_only"@ {
            Some(ClientConfigKey::Http1Only)
        } else if s == "http2_keep_alive_interval"@ {
            Some(ClientConfigKey::Http2KeepAliveInterval)
        } else if s == "http2_keep_alive_timeout"@ {
            Some(ClientConfigKey::Http2KeepAliveTimeout)
        } else if s == "http2_keep_alive_while_idle"@ {
            Some(ClientConfigKey::Http2KeepAliveWhileIdle)
        } else if s == "http2_max_frame_size"@ {
            Some(ClientConfigKey::Http2MaxFrameSize)
        } else if s == "http2_only"@ {
            Some(ClientConfigKey::Http2Only)
        } else if s == "pool_idle_timeout"@ {
            Some(ClientConfigKey::PoolIdleTimeout)
        } else if s == "pool_max_idle_per_host"@ {
            Some(ClientConfigKey::PoolMaxIdlePerHost)
        } else if s == "proxy_url"@ {
            Some(ClientConfigKey::ProxyUrl)
        } else if s == "proxy_ca_certificate"@ {
            Some(ClientConfigKey::ProxyCaCertificate)
        } else if s == "proxy_excludes"@ {
            Some(ClientConfigKey::ProxyExcludes)
        } else if s == "timeout"@ {
            Some(ClientConfigKey::Timeout)
        } else if s == "user_agent"@ {
            Some(ClientConfigKey::UserAgent)
        } else {
            None
        }
    }

    /// The canonical string identifier of this key.
    pub fn as_str(&self) -> (r: &'static str)
        ensures
            r@ == self.spec_name(),
    {
        match self {
            ClientConfigKey::AllowHttp => "allow_http",
            ClientConfigKey::AllowInvalidCertificates => "allow_invalid_certificates",
            ClientConfigKey::ConnectTimeout => "connect_timeout",
            ClientConfigKey::DefaultContentType => "default_content_type",
            ClientConfigKey::Http1Only => "http1_only",
            ClientConfigKey::Http2KeepAliveInterval => "http2_keep_alive_interval",
            ClientConfigKey::Http2KeepAliveTimeout => "http2_keep_alive_timeout",
            ClientConfigKey::Http2KeepAliveWhileIdle => "http2_keep_alive_while_idle",
            ClientConfigKey::Http2MaxFrameSize => "http2_max_frame_size",
            ClientConfigKey::Http2Only => "http2_only",
            ClientConfigKey::PoolIdleTimeout => "pool_idle_timeout",
            ClientConfigKey::PoolMaxIdlePerHost => "pool_max_idle_per_host",
            ClientConfigKey::ProxyUrl => "proxy_url",
            ClientConfigKey::ProxyCaCertificate => "proxy_ca_certificate",
            ClientConfigKey::ProxyExcludes => "proxy_excludes",
            ClientConfigKey::Timeout => "timeout",
            ClientConfigKey::UserAgent => "user_agent",
        }
    }

    /// Parse a string into the key it names. An unrecognized string is a
    /// hard error naming that exact string.
    pub fn parse_str(s: &str) -> (r: Result<ClientConfigKey, ClientError>)
        ensures
            match Self::spec_of_name(s@) {
                Some(k) => r matches Ok(got) && got == k,
                None => r matches Err(e) && e@ == (ErrorModel::UnknownConfigurationKey {
                    key: s@,
                }),
            },
    {
        if str_eq(s, "allow_http") {
            Ok(ClientConfigKey::AllowHttp)
        } else if str_eq(s, "allow_invalid_certificates") {
            Ok(ClientConfigKey::AllowInvalidCertificates)
        } else if str_eq(s, "connect_timeout") {
            Ok(ClientConfigKey::ConnectTimeout)
        } else if str_eq(s, "default_content_type") {
            Ok(ClientConfigKey::DefaultContentType)
        } else if str_eq(s, "http1_only") {
            Ok(ClientConfigKey::Http1Only)
        } else if str_eq(s, "http2_keep_alive_interval") {
            Ok(ClientConfigKey::Http2KeepAliveInterval)
        } else if str_eq(s, "http2_keep_alive_timeout") {
            Ok(ClientConfigKey::Http2KeepAliveTimeout)
        } else if str_eq(s, "http2_keep_alive_while_idle") {
            Ok(ClientConfigKey::Http2KeepAliveWhileIdle)
        } else if str_eq(s, "http2_max_frame_size") {
            Ok(ClientConfigKey::Http2MaxFrameSize)
        } else if str_eq(s, "http2_only") {
            Ok(ClientConfigKey::Http2Only)
        } else if str_eq(s, "pool_idle_timeout") {
            Ok(ClientConfigKey::PoolIdleTimeout)
        } else if str_eq(s, "pool_max_idle_per_host") {
            Ok(ClientConfigKey::PoolMaxIdlePerHost)
        } else if str_eq(s, "proxy_url") {
            Ok(ClientConfigKey::ProxyUrl)
        } else if str_eq(s, "proxy_ca_certificate") {
            Ok(ClientConfigKey::ProxyCaCertificate)
        } else if str_eq(s, "proxy_excludes") {
            Ok(ClientConfigKey::ProxyExcludes)
        } else if str_eq(s, "timeout") {
            Ok(ClientConfigKey::Timeout)
        } else if str_eq(s, "user_agent") {
            Ok(ClientConfigKey::UserAgent)
        } else {
            Err(ClientError::UnknownConfigurationKey { key: s.to_owned() })
        }
    }
}

impl core::str::FromStr for ClientConfigKey {
    type Err = ClientError;

    fn from_str(s: &str) -> Result<ClientConfigKey, ClientError> {
        ClientConfigKey::parse_str(s)
    }
}

/// The two string identifier mappings are mutual inverses: parsing the
/// canonical name of a key yields that key back.
#[verifier::rlimit(60)]
pub proof fn lemma_key_name_round_trip(k: ClientConfigKey)
    ensures
        ClientConfigKey::spec_of_name(k.spec_name()) == Some(k),
{
    reveal_strlit("allow_http");
    reveal_strlit("allow_invalid_certificates");
    reveal_strlit("connect_timeout");
    reveal_strlit("default_content_type");
    reveal_strlit("http1_only");
    reveal_strlit("http2_keep_alive_interval");
    reveal_strlit("http2_keep_alive_timeout");
    reveal_strlit("http2_keep_alive_while_idle");
    reveal_strlit("http2_max_frame_size");
    reveal_strlit("http2_only");
    reveal_strlit("pool_idle_timeout");
    reveal_strlit("pool_max_idle_per_host");
    reveal_strlit("proxy_url");
    reveal_strlit("proxy_ca_certificate");
    reveal_strlit("proxy_excludes");
    reveal_strlit("timeout");
    reveal_strlit("user_agent");
    // Distinguish the identifiers: most differ in length, and those of
    // equal length differ in one of the asserted characters.
    assert("allow_http"@.len() == 10);
    assert("allow_invalid_certificates"@.len() == 26);
    assert("connect_timeout"@.len() == 15);
    assert("default_content_type"@.len() == 20);
    assert("http1_only"@.len() == 10);
    assert("http2_keep_alive_interval"@.len() == 25);
    assert("http2_keep_alive_timeout"@.len() == 24);
    assert("http2_keep_alive_while_idle"@.len() == 27);
    assert("http2_max_frame_size"@.len() == 20);
    assert("http2_only"@.len() == 10);
    assert("pool_idle_timeout"@.len() == 17);
    assert("pool_max_idle_per_host"@.len() == 22);
    assert("proxy_url"@.len() == 9);
    assert("proxy_ca_certificate"@.len() == 20);
    assert("proxy_excludes"@.len() == 14);
    assert("timeout"@.len() == 7);
    assert("user_agent"@.len() == 10);
    assert("allow_http"@[0] == 'a');
    assert("http1_only"@[0] == 'h');
    assert("http2_only"@[0] == 'h');
    assert("user_agent"@[0] == 'u');
    assert("http1_only"@[4] == '1');
    assert("http2_only"@[4] == '2');
    assert("default_content_type"@[0] == 'd');
    assert("http2_max_frame_size"@[0] == 'h');
    assert("proxy_ca_certificate"@[0] == 'p');
}

} // verus!
