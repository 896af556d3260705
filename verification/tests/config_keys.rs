//! Configuration keys and per-key get/set behaviour.

use std::collections::HashMap;

use cloud_client::error::ClientError;
use cloud_client::keys::ClientConfigKey;
use cloud_client::options::ClientOptions;

#[test]
fn client_test_config_from_map() {
    let allow_http = "true".to_string();
    let allow_invalid_certificates = "false".to_string();
    let connect_timeout = "90 seconds".to_string();
    let default_content_type = "object_store:fake_default_content_type".to_string();
    let http1_only = "true".to_string();
    let http2_only = "false".to_string();
    let http2_keep_alive_interval = "90 seconds".to_string();
    let http2_keep_alive_timeout = "91 seconds".to_string();
    let http2_keep_alive_while_idle = "92 seconds".to_string();
    let http2_max_frame_size = "1337".to_string();
    let pool_idle_timeout = "93 seconds".to_string();
    let pool_max_idle_per_host = "94".to_string();
    let proxy_url = "https://fake_proxy_url".to_string();
    let timeout = "95 seconds".to_string();
    let user_agent = "object_store:fake_user_agent".to_string();

    let options = HashMap::from([
        ("allow_http", allow_http.clone()),
        (
            "allow_invalid_certificates",
            allow_invalid_certificates.clone(),
        ),
        ("connect_timeout", connect_timeout.clone()),
        ("default_content_type", default_content_type.clone()),
        ("http1_only", http1_only.clone()),
        ("http2_only", http2_only.clone()),
        (
            "http2_keep_alive_interval",
            http2_keep_alive_interval.clone(),
        ),
        ("http2_keep_alive_timeout", http2_keep_alive_timeout.clone()),
        (
            "http2_keep_alive_while_idle",
            http2_keep_alive_while_idle.clone(),
        ),
        ("http2_max_frame_size", http2_max_frame_size.clone()),
        ("pool_idle_timeout", pool_idle_timeout.clone()),
        ("pool_max_idle_per_host", pool_max_idle_per_host.clone()),
        ("proxy_url", proxy_url.clone()),
        ("timeout", timeout.clone()),
        ("user_agent", user_agent.clone()),
    ]);

    let builder = options
        .into_iter()
        .fold(ClientOptions::new(), |builder, (key, value)| {
            builder.with_config(key.parse().unwrap(), value)
        });

    assert_eq!(
        builder
            .get_config_value(&ClientConfigKey::AllowHttp)
            .unwrap(),
        allow_http
    );
    assert_eq!(
        builder
            .get_config_value(&ClientConfigKey::AllowInvalidCertificates)
            .unwrap(),
        allow_invalid_certificates
    );
    assert_eq!(
        builder
            .get_config_value(&ClientConfigKey::ConnectTimeout)
            .unwrap(),
        connect_timeout
    );
    assert_eq!(
        builder
            .get_config_value(&ClientConfigKey::DefaultContentType)
            .unwrap(),
        default_content_type
    );
    assert_eq!(
        builder
            .get_config_value(&ClientConfigKey::Http1Only)
            .unwrap(),
        http1_only
    );
    assert_eq!(
        builder
            .get_config_value(&ClientConfigKey::Http2Only)
            .unwrap(),
        http2_only
    );
    assert_eq!(
        builder
            .get_config_value(&ClientConfigKey::Http2KeepAliveInterval)
            .unwrap(),
        http2_keep_alive_interval
    );
    assert_eq!(
        builder
            .get_config_value(&ClientConfigKey::Http2KeepAliveTimeout)
            .unwrap(),
        http2_keep_alive_timeout
    );
    assert_eq!(
        builder
            .get_config_value(&ClientConfigKey::Http2KeepAliveWhileIdle)
            .unwrap(),
        http2_keep_alive_while_idle
    );
    assert_eq!(
        builder
            .get_config_value(&ClientConfigKey::Http2MaxFrameSize)
            .unwrap(),
        http2_max_frame_size
    );

    assert_eq!(
        builder
            .get_config_value(&ClientConfigKey::PoolIdleTimeout)
            .unwrap(),
        pool_idle_timeout
    );
    assert_eq!(
        builder
            .get_config_value(&ClientConfigKey::PoolMaxIdlePerHost)
            .unwrap(),
        pool_max_idle_per_host
    );
    assert_eq!(
        builder
            .get_config_value(&ClientConfigKey::ProxyUrl)
            .unwrap(),
        proxy_url
    );
    assert_eq!(
        builder.get_config_value(&ClientConfigKey::Timeout).unwrap(),
        timeout
    );
    assert_eq!(
        builder
            .get_config_value(&ClientConfigKey::UserAgent)
            .unwrap(),
        user_agent
    );
}

#[test]
fn round_trip_every_key() {
    let keys = [
        ClientConfigKey::AllowHttp,
        ClientConfigKey::AllowInvalidCertificates,
        ClientConfigKey::ConnectTimeout,
        ClientConfigKey::DefaultContentType,
        ClientConfigKey::Http1Only,
        ClientConfigKey::Http2KeepAliveInterval,
        ClientConfigKey::Http2KeepAliveTimeout,
        ClientConfigKey::Http2KeepAliveWhileIdle,
        ClientConfigKey::Http2MaxFrameSize,
        ClientConfigKey::Http2Only,
        ClientConfigKey::PoolIdleTimeout,
        ClientConfigKey::PoolMaxIdlePerHost,
        ClientConfigKey::ProxyUrl,
        ClientConfigKey::ProxyCaCertificate,
        ClientConfigKey::ProxyExcludes,
        ClientConfigKey::Timeout,
        ClientConfigKey::UserAgent,
    ];
    for key in keys {
        // a representative value, valid as a header value too
        let value = format!("value_for_{}", key.as_str());
        let options = ClientOptions::new().with_config(key, value.clone());
        assert_eq!(options.get_config_value(&key), Some(value));
        // the canonical name parses back to the key itself
        let parsed: ClientConfigKey = key.as_str().parse().unwrap();
        assert_eq!(parsed, key);
    }
}

#[test]
fn unknown_key_is_an_error_naming_it() {
    let err = "definitely_not_a_key".parse::<ClientConfigKey>().unwrap_err();
    match err {
        ClientError::UnknownConfigurationKey { key } => {
            assert_eq!(key, "definitely_not_a_key");
        }
        _ => panic!("expected an unknown-configuration-key error"),
    }
}

#[test]
fn defaults_report_fixed_values() {
    let options = ClientOptions::new();
    assert_eq!(
        options.get_config_value(&ClientConfigKey::Timeout),
        Some("30s".to_string())
    );
    assert_eq!(
        options.get_config_value(&ClientConfigKey::ConnectTimeout),
        Some("5s".to_string())
    );
    assert_eq!(
        options.get_config_value(&ClientConfigKey::Http1Only),
        Some("true".to_string())
    );
    assert_eq!(
        options.get_config_value(&ClientConfigKey::Http2Only),
        Some("false".to_string())
    );
    assert_eq!(
        options.get_config_value(&ClientConfigKey::AllowHttp),
        Some("false".to_string())
    );
    assert_eq!(
        options.get_config_value(&ClientConfigKey::AllowInvalidCertificates),
        Some("false".to_string())
    );
    assert_eq!(
        options.get_config_value(&ClientConfigKey::Http2KeepAliveWhileIdle),
        Some("false".to_string())
    );
    for key in [
        ClientConfigKey::DefaultContentType,
        ClientConfigKey::Http2KeepAliveInterval,
        ClientConfigKey::Http2KeepAliveTimeout,
        ClientConfigKey::Http2MaxFrameSize,
        ClientConfigKey::PoolIdleTimeout,
        ClientConfigKey::PoolMaxIdlePerHost,
        ClientConfigKey::ProxyUrl,
        ClientConfigKey::ProxyCaCertificate,
        ClientConfigKey::ProxyExcludes,
        ClientConfigKey::UserAgent,
    ] {
        assert_eq!(options.get_config_value(&key), None);
    }
}

#[test]
fn http_version_flags_are_mutually_exclusive() {
    let options = ClientOptions::new().with_http2_only().with_http1_only();
    assert_eq!(
        options.get_config_value(&ClientConfigKey::Http1Only),
        Some("true".to_string())
    );
    assert_eq!(
        options.get_config_value(&ClientConfigKey::Http2Only),
        Some("false".to_string())
    );

    let options = ClientOptions::new().with_http1_only().with_http2_only();
    assert_eq!(
        options.get_config_value(&ClientConfigKey::Http1Only),
        Some("false".to_string())
    );
    assert_eq!(
        options.get_config_value(&ClientConfigKey::Http2Only),
        Some("true".to_string())
    );

    let options = ClientOptions::new().with_http2_only().with_allow_http2();
    assert_eq!(
        options.get_config_value(&ClientConfigKey::Http1Only),
        Some("false".to_string())
    );
    assert_eq!(
        options.get_config_value(&ClientConfigKey::Http2Only),
        Some("false".to_string())
    );
}

#[test]
fn invalid_user_agent_is_not_reported() {
    let options =
        ClientOptions::new().with_config(ClientConfigKey::UserAgent, "bad\u{7}agent".to_string());
    assert_eq!(options.get_config_value(&ClientConfigKey::UserAgent), None);
}
