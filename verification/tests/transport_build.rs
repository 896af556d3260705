//! Materializing clients from configuration.

use cloud_client::duration::Duration;
use cloud_client::error::ClientError;
use cloud_client::keys::ClientConfigKey;
use cloud_client::options::ClientOptions;

// a real (publicly trusted) root certificate, as the trust store
// validates the DER bytes when the client is built
const REAL_CERT_PEM: &str = "-----BEGIN CERTIFICATE-----\n\
MIIEYzCCA0ugAwIBAgIBATANBgkqhkiG9w0BAQsFADCB0jELMAkGA1UEBhMCVFIx\n\
GDAWBgNVBAcTD0dlYnplIC0gS29jYWVsaTFCMEAGA1UEChM5VHVya2l5ZSBCaWxp\n\
bXNlbCB2ZSBUZWtub2xvamlrIEFyYXN0aXJtYSBLdXJ1bXUgLSBUVUJJVEFLMS0w\n\
KwYDVQQLEyRLYW11IFNlcnRpZmlrYXN5b24gTWVya2V6aSAtIEthbXUgU00xNjA0\n\
BgNVBAMTLVRVQklUQUsgS2FtdSBTTSBTU0wgS29rIFNlcnRpZmlrYXNpIC0gU3Vy\n\
dW0gMTAeFw0xMzExMjUwODI1NTVaFw00MzEwMjUwODI1NTVaMIHSMQswCQYDVQQG\n\
EwJUUjEYMBYGA1UEBxMPR2ViemUgLSBLb2NhZWxpMUIwQAYDVQQKEzlUdXJraXll\n\
IEJpbGltc2VsIHZlIFRla25vbG9qaWsgQXJhc3Rpcm1hIEt1cnVtdSAtIFRVQklU\n\
QUsxLTArBgNVBAsTJEthbXUgU2VydGlmaWthc3lvbiBNZXJrZXppIC0gS2FtdSBT\n\
TTE2MDQGA1UEAxMtVFVCSVRBSyBLYW11IFNNIFNTTCBLb2sgU2VydGlmaWthc2kg\n\
LSBTdXJ1bSAxMIIBIjANBgkqhkiG9w0BAQEFAAOCAQ8AMIIBCgKCAQEAr3UwM6q7\n\
a9OZLBI3hNmNe5eA027n/5tQlT6QlVZC1xl8JoSNkvoBHToP4mQ4t4y86Ij5iySr\n\
LqP1N+RAjhgleYN1Hzv/bKjFxlb4tO2KRKOrbEz8HdDc72i9z+SqzvBV96I01INr\n\
N3wcwv61A+xXzry0tcXtAA9TNypN9E8Mg/uGz8v+jE69h/mniyFXnHrfA2eJLJ2X\n\
YacQuFWQfw4tJzh03+f92k4S400VIgLI4OD8D62K18lUUMw7D8oWgITQUVbDjlZ/\n\
iSIzL+aFCr2lqBs23tPcLG07xxO9WSMs5uWk99gL7eqQQESolbuT1dCANLZGeA4f\n\
AJNG4e7p+exPFwIDAQABo0IwQDAdBgNVHQ4EFgQUZT/HiobGPN08VFw1+DrtUgxH\n\
V8gwDgYDVR0PAQH/BAQDAgEGMA8GA1UdEwEB/wQFMAMBAf8wDQYJKoZIhvcNAQEL\n\
BQADggEBACo/4fEyjq7hmFxLXs9rHmoJ0iKpEsdeV31zVmSAhHqT5Am5EM2fKifh\n\
AHe+SMg1qIGf5LgsyX8OsNJLN13qudULXjS99HMpw+0mFZx+CFOKWI3QSyjfwbPf\n\
IPP54+M638yclNhOT8NrF7f3cuitZjO1JVOr4PhMqZ398g26rrnZqsZr+ZO7rqu4\n\
lzwDGrpDxpa5RXI4s6ehlj2Re37AIVNMh+3yC1SVUZPVIqUNivGTDj5UDrDYyU7c\n\
8jEyVupk+eq1nRZmQnLzf9OxMUP8pI4X8W0jq5Rm+K37DwhuJi1/FwcJsoz7UMCf\n\
lo3Ptv0AnVoUmr8CRPXBwp8iXqIPoeM=\n\
-----END CERTIFICATE-----\n";

#[test]
fn default_options_build_a_client() {
    assert!(ClientOptions::new().client().is_ok());
}

#[test]
fn metadata_client_builds_from_defaults() {
    assert!(ClientOptions::new().metadata_client().is_ok());
}

#[test]
fn plan_resolves_deferred_values() {
    let options = ClientOptions::new()
        .with_config(ClientConfigKey::Timeout, "95 seconds".to_string())
        .with_config(ClientConfigKey::PoolMaxIdlePerHost, "94".to_string())
        .with_config(ClientConfigKey::Http2MaxFrameSize, "1337".to_string())
        .with_config(ClientConfigKey::AllowHttp, "true".to_string());
    let plan = options.plan().unwrap();
    assert_eq!(plan.timeout, Some(Duration::from_secs(95)));
    assert_eq!(plan.pool_max_idle_per_host, Some(94));
    assert_eq!(plan.http2_max_frame_size, Some(1337));
    assert!(plan.allow_http);
    assert_eq!(plan.user_agent, "cloud_client/0.1.0");
}

#[test]
fn metadata_overrides_leave_other_fields_unchanged() {
    // the same derivation the metadata client applies, observed on the plan
    let base = ClientOptions::new()
        .with_allow_http(false)
        .with_connect_timeout(Duration::from_secs(9))
        .with_timeout(Duration::from_secs(42));
    let derived = base
        .duplicate()
        .with_allow_http(true)
        .with_connect_timeout(Duration::from_secs(1));
    let plan = derived.plan().unwrap();
    assert!(plan.allow_http);
    assert_eq!(plan.connect_timeout, Some(Duration::from_secs(1)));
    // every other field keeps the base configuration
    assert_eq!(plan.timeout, Some(Duration::from_secs(42)));
    // and the base value itself is untouched
    let base_plan = base.plan().unwrap();
    assert!(!base_plan.allow_http);
    assert_eq!(base_plan.connect_timeout, Some(Duration::from_secs(9)));
}

#[test]
fn malformed_deferred_timeout_fails_at_build_time() {
    let options = ClientOptions::new().with_config(ClientConfigKey::Timeout, "xyz".to_string());
    // setting never validates; the error only appears on materialization
    assert_eq!(
        options.get_config_value(&ClientConfigKey::Timeout),
        Some("xyz".to_string())
    );
    match options.client().unwrap_err() {
        ClientError::InvalidConfigValue { key, raw, target } => {
            assert_eq!(key, "timeout");
            assert_eq!(raw, "xyz");
            assert_eq!(target, "duration");
        }
        other => panic!("expected an invalid-config error, got {other:?}"),
    }
}

#[test]
fn malformed_proxy_url_is_a_generic_error() {
    let options = ClientOptions::new().with_proxy_url("::not a proxy url::".to_string());
    let err = options.client().unwrap_err();
    assert!(matches!(err, ClientError::Generic { .. }));
}

#[test]
fn proxy_with_ca_and_excludes_builds() {
    let options = ClientOptions::new()
        .with_proxy_url("http://localhost:3128".to_string())
        .with_proxy_ca_certificate(REAL_CERT_PEM.to_string())
        .with_proxy_excludes("localhost, 192.168.1.0/24".to_string());
    assert!(options.client().is_ok());
}

#[test]
fn corrupted_proxy_ca_fails() {
    let options = ClientOptions::new()
        .with_proxy_url("http://localhost:3128".to_string())
        .with_proxy_ca_certificate("-----BEGIN CERTIFICATE-----\n\
aGVsbG8g!29ybGQ=\n\
-----END CERTIFICATE-----\n".to_string());
    let err = options.client().unwrap_err();
    assert!(matches!(err, ClientError::Generic { .. }));
}

#[test]
fn invalid_user_agent_fails_with_its_key() {
    let options =
        ClientOptions::new().with_config(ClientConfigKey::UserAgent, "bad\u{7}agent".to_string());
    match options.client().unwrap_err() {
        ClientError::InvalidConfigValue { key, .. } => assert_eq!(key, "user_agent"),
        other => panic!("expected an invalid-config error, got {other:?}"),
    }
}

#[test]
fn default_headers_are_validated() {
    let good = ClientOptions::new()
        .with_default_headers(vec![("x-custom".to_string(), "one".to_string())]);
    assert!(good.client().is_ok());

    let bad = ClientOptions::new()
        .with_default_headers(vec![("Bad Name".to_string(), "one".to_string())]);
    match bad.client().unwrap_err() {
        ClientError::Generic { message } => assert_eq!(message, "invalid default header"),
        other => panic!("expected a generic error, got {other:?}"),
    }
}

#[test]
fn invalid_keep_alive_bool_fails_on_metadata_client_too() {
    let options = ClientOptions::new()
        .with_config(ClientConfigKey::Http2KeepAliveWhileIdle, "92 seconds".to_string());
    match options.metadata_client().unwrap_err() {
        ClientError::InvalidConfigValue { key, raw, target } => {
            assert_eq!(key, "http2_keep_alive_while_idle");
            assert_eq!(raw, "92 seconds");
            assert_eq!(target, "boolean");
        }
        other => panic!("expected an invalid-config error, got {other:?}"),
    }
}

#[test]
fn root_certificates_are_carried_into_the_plan() {
    let cert = cloud_client::certificate::Certificate::from_pem(REAL_CERT_PEM.as_bytes()).unwrap();
    let options = ClientOptions::new().with_root_certificate(cert.duplicate());
    let plan = options.plan().unwrap();
    assert_eq!(plan.root_certificates.len(), 1);
    assert_eq!(plan.root_certificates[0].der_bytes(), cert.der_bytes());
}

#[test]
fn content_type_for_suffix_replaces_earlier_mapping() {
    let options = ClientOptions::new()
        .with_content_type_for_suffix("json".to_string(), "application/json".to_string())
        .with_content_type_for_suffix("txt".to_string(), "text/plain".to_string())
        .with_content_type_for_suffix("json".to_string(), "application/json5".to_string());
    let map = &options.content_type_map;
    assert_eq!(map.len(), 2);
    assert_eq!(map[0], ("txt".to_string(), "text/plain".to_string()));
    assert_eq!(
        map[1],
        ("json".to_string(), "application/json5".to_string())
    );
}

#[test]
fn reported_timeout_reconstructs_equivalent_value() {
    let base = ClientOptions::new().with_timeout(Duration::from_secs(90));
    let reported = base.get_config_value(&ClientConfigKey::Timeout).unwrap();
    assert_eq!(reported, "90s");
    let rebuilt = ClientOptions::new().with_config(ClientConfigKey::Timeout, reported);
    assert_eq!(rebuilt.plan().unwrap().timeout, Some(Duration::from_secs(90)));
}

#[test]
fn default_header_count_is_bounded() {
    // the most the transport accepts still builds
    let mut most: Vec<(String, String)> = Vec::new();
    for i in 0..6553 {
        most.push((format!("h{i}"), "v".to_string()));
    }
    assert!(ClientOptions::new().with_default_headers(most).client().is_ok());

    // one more is rejected before any header map is touched
    let mut too_many: Vec<(String, String)> = Vec::new();
    for i in 0..6554 {
        too_many.push((format!("h{i}"), "v".to_string()));
    }
    match ClientOptions::new()
        .with_default_headers(too_many)
        .client()
        .unwrap_err()
    {
        ClientError::Generic { message } => assert_eq!(message, "too many default headers"),
        other => panic!("expected a generic error, got {other:?}"),
    }
}
