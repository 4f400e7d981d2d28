use attestation_auth_server::ca::{ManualCA, SampleCA, CA};
use attestation_auth_server::Error;

fn issuing_ca_pems() -> (String, String) {
    let mut params = rcgen::CertificateParams::new(Vec::new());
    params.is_ca = rcgen::IsCa::Ca(rcgen::BasicConstraints::Unconstrained);
    params
        .distinguished_name
        .push(rcgen::DnType::CommonName, "Issuing CA");
    let ca = rcgen::Certificate::from_params(params).expect("CA generates");
    let cert_pem = ca.serialize_pem().expect("CA serializes");
    let key_pem = ca.serialize_private_key_pem();
    (key_pem, cert_pem)
}

/// A CSR that asks for its own common name. Key usages cannot even be
/// asked for in a request here; the policy decides them regardless.
fn greedy_csr() -> String {
    let mut params = rcgen::CertificateParams::new(vec!["workload.example".to_string()]);
    params
        .distinguished_name
        .push(rcgen::DnType::CommonName, "Greedy Workload");
    let cert = rcgen::Certificate::from_params(params).expect("workload cert generates");
    cert.serialize_request_pem().expect("CSR serializes")
}

fn parse_cert(pem: &str) -> x509_parser::pem::Pem {
    let (_, parsed) =
        x509_parser::pem::parse_x509_pem(pem.as_bytes()).expect("issued PEM parses");
    parsed
}

#[test]
fn sample_ca_signs_a_wellformed_request() {
    let ca = CA::Sample(SampleCA {});
    let pem = ca.issue_cert(&greedy_csr()).expect("sample CA signs");
    // The result is a certificate, not the request handed back.
    let parsed = parse_cert(&pem);
    let cert = parsed.parse_x509().expect("issued certificate parses");
    let cn = cert
        .subject()
        .iter_common_name()
        .next()
        .expect("a common name is present")
        .as_str()
        .expect("common name is text");
    // The sample authority honours the request verbatim.
    assert_eq!(cn, "Greedy Workload");
}

#[test]
fn sample_ca_refuses_garbage() {
    let ca = CA::Sample(SampleCA {});
    assert!(matches!(
        ca.issue_cert("garbage"),
        Err(Error::IssuanceFailed(_))
    ));
}

#[test]
fn manual_ca_refuses_bad_key_material() {
    assert!(matches!(
        ManualCA::new("not a key".to_string(), "not a cert".to_string()),
        Err(Error::IssuanceFailed(_))
    ));
}

#[test]
fn manual_ca_enforces_its_policy_over_the_request() {
    let (key_pem, cert_pem) = issuing_ca_pems();
    let manual = ManualCA::new(key_pem, cert_pem).expect("manual CA builds");
    let ca = CA::Manual(manual);

    let issued = ca.issue_cert(&greedy_csr()).expect("manual CA signs");
    let parsed = parse_cert(&issued);
    let cert = parsed.parse_x509().expect("issued certificate parses");

    // Key usages are the policy's, not the request's.
    let key_usage = cert
        .key_usage()
        .expect("key usage extension parses")
        .expect("key usage extension present");
    assert!(key_usage.value.key_cert_sign());
    assert!(key_usage.value.digital_signature());
    assert!(key_usage.value.key_encipherment());
    assert!(!key_usage.value.data_encipherment());

    // Extended key usage is client authentication alone, though the
    // request asked for server authentication.
    let eku = cert
        .extended_key_usage()
        .expect("extended key usage parses")
        .expect("extended key usage present");
    assert!(eku.value.client_auth);
    assert!(!eku.value.server_auth);
    assert!(!eku.value.any);

    // The common name is the policy's, not the request's.
    let cn = cert
        .subject()
        .iter_common_name()
        .next()
        .expect("a common name is present")
        .as_str()
        .expect("common name is text");
    assert_eq!(cn, "NiuBi Certificate");
}
