//! Certificate loading from PEM and DER material. The positive cases
//! use real, publicly known CA certificates, since construction
//! validates the DER encoding; the framing-only inputs are negative
//! cases.

use cloud_client::certificate::Certificate;
use cloud_client::error::ClientError;

// a real root certificate and a real intermediate issued under it
const ROOT_CERT_PEM: &str = "-----BEGIN CERTIFICATE-----\n\
MIIEYzCCA0ugAwIBAgIBATANBgkqhkiG9w0BAQsFADCB0jELMAkGA1UEBhMCVFIx\n\
GDAWBgNVBAcTD0dlYnplIC0gS29jYWVsaTFCMEAGA1UEChM5VHVya2l5ZSBCaWxp\n\
bXNlbCB2ZSBUZWtub2xvamlrIEFyYXN0aXJtYSBLdXJ1bXUgLSBUVUJJVEFLMS0w\n\
KwYDVQQLEyRLYW11IFNlcnRpZmlrYXN5b24gTWVya2V6aSAtIEthbXUgU00xNjA0\n\
BgNVBAMTLVRVQklUQUsgS2FtdSBTTSBTU0wgS29rIFNlcnRpZmlrYXNpIC0gU3Vy\n\
dW0gMTAeFw0xMzExMjUwODI1NTVaFw00MzEwMjUwODI1NTVaMIHSMQswCQYDVQQG\n\
EwJUUjEYMBYGA1UEBxMPR2ViemUgLSBLb2NhZWxpMUIwQAYDVQQKEzlUdXJraXll\n\
IEJpbGltc2VsIHZlIFRla25vbG9qaWsgQXJhc3Rpcm1hIEt1cnVtdSAtIFRVQklU\n\
QUsxLTArBgNVBAsTJEthbXUgU2VydGlmaWthc3lvbiBNZXJrZXppIC0gS2FtdSBT\n\
TTE2MDQGA1UEAxMtVFVCSVRBSyBLYW11IFNNIFNTTCBLb2sgU2VydGlmaWthc2kg\n\
LSBTdXJ1bSAxMIIBIjANBgkqhkiG9w0BAQEFAAOCAQ8AMIIBCgKCAQEAr3UwM6q7\n\
a9OZLBI3hNmNe5eA027n/5tQlT6QlVZC1xl8JoSNkvoBHToP4mQ4t4y86Ij5iySr\n\
LqP1N+RAjhgleYN1Hzv/bKjFxlb4tO2KRKOrbEz8HdDc72i9z+SqzvBV96I01INr\n\
N3wcwv61A+xXzry0tcXtAA9TNypN9E8Mg/uGz8v+jE69h/mniyFXnHrfA2eJLJ2X\n\
YacQuFWQfw4tJzh03+f92k4S400VIgLI4OD8D62K18lUUMw7D8oWgITQUVbDjlZ/\n\
iSIzL+aFCr2lqBs23tPcLG07xxO9WSMs5uWk99gL7eqQQESolbuT1dCANLZGeA4f\n\
AJNG4e7p+exPFwIDAQABo0IwQDAdBgNVHQ4EFgQUZT/HiobGPN08VFw1+DrtUgxH\n\
V8gwDgYDVR0PAQH/BAQDAgEGMA8GA1UdEwEB/wQFMAMBAf8wDQYJKoZIhvcNAQEL\n\
BQADggEBACo/4fEyjq7hmFxLXs9rHmoJ0iKpEsdeV31zVmSAhHqT5Am5EM2fKifh\n\
AHe+SMg1qIGf5LgsyX8OsNJLN13qudULXjS99HMpw+0mFZx+CFOKWI3QSyjfwbPf\n\
IPP54+M638yclNhOT8NrF7f3cuitZjO1JVOr4PhMqZ398g26rrnZqsZr+ZO7rqu4\n\
lzwDGrpDxpa5RXI4s6ehlj2Re37AIVNMh+3yC1SVUZPVIqUNivGTDj5UDrDYyU7c\n\
8jEyVupk+eq1nRZmQnLzf9OxMUP8pI4X8W0jq5Rm+K37DwhuJi1/FwcJsoz7UMCf\n\
lo3Ptv0AnVoUmr8CRPXBwp8iXqIPoeM=\n\
-----END CERTIFICATE-----\n";

const INTERMEDIATE_CERT_PEM: &str = "-----BEGIN CERTIFICATE-----\n\
MIIGcjCCBVqgAwIBAgIBKTANBgkqhkiG9w0BAQsFADCB0jELMAkGA1UEBhMCVFIx\n\
GDAWBgNVBAcTD0dlYnplIC0gS29jYWVsaTFCMEAGA1UEChM5VHVya2l5ZSBCaWxp\n\
bXNlbCB2ZSBUZWtub2xvamlrIEFyYXN0aXJtYSBLdXJ1bXUgLSBUVUJJVEFLMS0w\n\
KwYDVQQLEyRLYW11IFNlcnRpZmlrYXN5b24gTWVya2V6aSAtIEthbXUgU00xNjA0\n\
BgNVBAMTLVRVQklUQUsgS2FtdSBTTSBTU0wgS29rIFNlcnRpZmlrYXNpIC0gU3Vy\n\
dW0gMTAeFw0xNTA1MTQxMzMyMjdaFw0yNTA1MTExMzMyMjdaMIHfMQswCQYDVQQG\n\
EwJUUjEYMBYGA1UEBwwPR2ViemUgLSBLb2NhZWxpMUIwQAYDVQQKDDlUdXJraXll\n\
IEJpbGltc2VsIHZlIFRla25vbG9qaWsgQXJhc3Rpcm1hIEt1cnVtdSAtIFRVQklU\n\
QUsxLTArBgNVBAsMJEthbXUgU2VydGlmaWthc3lvbiBNZXJrZXppIC0gS2FtdSBT\n\
TTFDMEEGA1UEAww6VFVCSVRBSyBLYW11IFNNIFNTTCBTZXJ0aWZpa2EgSGl6bWV0\n\
IFNhZ2xheWljaXNpIC0gU3VydW0gMTCCASIwDQYJKoZIhvcNAQEBBQADggEPADCC\n\
AQoCggEBAL2/oOCsOs5RrqU5xA8qZuHMy2hujUGeLeY4qcoICE+KuS5bLvexKrmt\n\
kZS/wCrWxqOeOriNlC1F7lia4yHMJp39vG8v6zgaixeyyCxeiIt3AFHziOx7xfOI\n\
qLS5Ygbm+FyEwSXOLA+wjg7FHoJ50INzm/Y+IeN96jYBA//1H9b76KFIsGtWn1Cp\n\
MzglSPqKusmoir4l3NzQEDYf68xmFzB/VDbYPd90j6bzx5T/8Y9RR0CW/m7e6DCf\n\
MtBCjCQkum6E9ReSfgGizcDzSGbQQFxVBBYXi/hgBsP6RySuZNB9Pgru6hSxskBp\n\
MPoppgeVBBb/+EdSDTbRqth5fVsElEMCAwEAAaOCAkIwggI+MB8GA1UdIwQYMBaA\n\
FGU/x4qGxjzdPFRcNfg67VIMR1fIMB0GA1UdDgQWBBT2NTUXri77t333dheKZWTr\n\
Z3pAqzAOBgNVHQ8BAf8EBAMCAQYwggEbBgNVHSAEggESMIIBDjCCAQoGBFUdIAAw\n\
ggEAMCsGCCsGAQUFBwIBFh9odHRwOi8vZGVwby5rYW11c20uZ292LnRyL2lsa2Uv\n\
MIHQBggrBgEFBQcCAjCBwx6BwABCAHUAIABzAGUAcgB0AGkAZgBpAGsAYQAgAGkA\n\
bABlACAAaQBsAGcAaQBsAGkAIABTAGUAcgB0AGkAZgBpAGsAYQAgAEkAbABrAGUA\n\
bABlAHIAaQBuAGkAIABvAGsAdQBtAGEAawAgAGkA5wBpAG4AIABiAGUAbABpAHIA\n\
dABpAGwAZQBuACAAdwBlAGIAIABzAGkAdABlAHMAaQBuAGkAIAB6AGkAeQBhAHIA\n\
ZQB0ACAAZQBkAGkAbgBpAHoALjASBgNVHRMBAf8ECDAGAQH/AgEAMD8GA1UdHwQ4\n\
MDYwNKAyoDCGLmh0dHA6Ly9kZXBvLmthbXVzbS5nb3YudHIvc3NsL1NTTEtPS1NJ\n\
TC5TMS5jcmwweAYIKwYBBQUHAQEEbDBqMDkGCCsGAQUFBzAChi1odHRwOi8vZGVw\n\
by5rYW11c20uZ292LnRyL3NzbC9TU0xLT0tTTS5TMS5jZXIwLQYIKwYBBQUHMAGG\n\
IWh0dHA6Ly9vY3Nwc3Nsa29rczEua2FtdXNtLmdvdi50cjANBgkqhkiG9w0BAQsF\n\
AAOCAQEArDB3/x+K/9STX/RcVKRPO5mv03Uli+7tiZk51ipo5ItpPpSUbjHrXy4E\n\
wtc0Rra/zFFHH7AEFxAUU3SL1M3sZcmTMSvSfVhbNW6kZUE1VRY0ZhnBZe0pY1eA\n\
OXxj03FTqEGrushFywTqgrFZdLuQ/4SfY8/8afyI5StH6nAOiMgyDNppl93XIS0U\n\
6zz1iCOwb6ToBYTAIK+BFP04PMA2wqc7ulgQH0uu8pPPzkdRostMaxwtSreedA+c\n\
CGExK5OyA/BX0VtjlEUxJcmmoY3fXO6z1q0/G2PWtvlsBZB1kQkWpUgaTcoiWUO/\n\
8qMZRgLmY+jlCktjqp7mkrwusrzEHg==\n\
-----END CERTIFICATE-----\n";

// well-formed PEM framing whose payload is not a certificate
const FAKE_PAYLOAD_PEM: &str = "-----BEGIN CERTIFICATE-----\n\
aGVsbG8gd29ybGQ=\n\
-----END CERTIFICATE-----\n";

#[test]
fn bundle_yields_one_value_per_section_in_order() {
    let bundle = format!("{ROOT_CERT_PEM}{INTERMEDIATE_CERT_PEM}");
    let certs = Certificate::from_pem_bundle(bundle.as_bytes()).unwrap();
    assert_eq!(certs.len(), 2);
    // the DER payloads come back in file order
    assert_eq!(certs[0].der_bytes().len(), 1127);
    assert_eq!(certs[1].der_bytes().len(), 1654);
}

#[test]
fn empty_bundle_is_valid_and_empty() {
    let certs = Certificate::from_pem_bundle(b"no certificates here").unwrap();
    assert_eq!(certs.len(), 0);
}

#[test]
fn corrupted_bundle_fails() {
    // the payload is not valid base64
    let corrupted = "-----BEGIN CERTIFICATE-----\n\
aGVsbG8g!29ybGQ=\n\
-----END CERTIFICATE-----\n";
    let err = Certificate::from_pem_bundle(corrupted.as_bytes()).unwrap_err();
    assert!(matches!(err, ClientError::Generic { .. }));
}

#[test]
fn non_certificate_payload_fails() {
    // the framing parses, but the bytes are no DER certificate
    assert!(Certificate::from_pem(FAKE_PAYLOAD_PEM.as_bytes()).is_err());
    assert!(Certificate::from_pem_bundle(FAKE_PAYLOAD_PEM.as_bytes()).is_err());
    let mixed = format!("{ROOT_CERT_PEM}{FAKE_PAYLOAD_PEM}");
    assert!(Certificate::from_pem_bundle(mixed.as_bytes()).is_err());
}

#[test]
fn single_pem_requires_exactly_one_section() {
    let cert = Certificate::from_pem(ROOT_CERT_PEM.as_bytes()).unwrap();
    assert_eq!(cert.der_bytes().len(), 1127);

    let bundle = format!("{ROOT_CERT_PEM}{INTERMEDIATE_CERT_PEM}");
    assert!(Certificate::from_pem(bundle.as_bytes()).is_err());
    assert!(Certificate::from_pem(b"nothing").is_err());
}

#[test]
fn der_constructor_validates_the_bytes() {
    // a real certificate round-trips through its DER bytes
    let cert = Certificate::from_pem(ROOT_CERT_PEM.as_bytes()).unwrap();
    let again = Certificate::from_der(cert.der_bytes()).unwrap();
    assert_eq!(again.der_bytes(), cert.der_bytes());

    // bytes that are no certificate are rejected
    assert!(Certificate::from_der(&[]).is_err());
    assert!(Certificate::from_der(&[48, 1, 2, 3]).is_err());
    assert!(Certificate::from_der(b"hello world").is_err());
}
