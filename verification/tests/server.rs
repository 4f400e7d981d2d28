use attestation_auth_server::attestation::coco_restful::{Client, Data};
use attestation_auth_server::attestation::AttestationService;
use attestation_auth_server::builder::ServerBuilder;
use attestation_auth_server::ca::{SampleCA, CA};
use attestation_auth_server::server::{AccessControl, Server};
use attestation_auth_server::session::{Attestation, Request, Tee};
use attestation_auth_server::Error;

fn sample_server() -> Server {
    ServerBuilder::new()
        .with_ca(CA::Sample(SampleCA {}))
        .with_attestation_service(AttestationService::CoCoRestful(Client::new(
            "http://127.0.0.1:8080".to_string(),
        )))
        .with_attestation_timeout(600)
        .build()
        .expect("a fully configured builder builds")
}

fn auth_request(id_json: &str) -> Request {
    Request {
        version: "0.1.0".to_string(),
        tee: Tee::Sample,
        extra_params: id_json.to_string(),
    }
}

fn attestation_for(id: &str, csr: &str) -> Attestation {
    Attestation {
        csr: csr.to_string(),
        tee_evidence: "evidence".to_string(),
        id: id.to_string(),
    }
}

fn valid_csr() -> String {
    let params = rcgen::CertificateParams::new(vec!["workload.example".to_string()]);
    let cert = rcgen::Certificate::from_params(params).expect("certificate generates");
    cert.serialize_request_pem().expect("request serializes")
}

#[test]
fn builder_defaults_and_overrides() {
    let builder = ServerBuilder::default();
    assert_eq!(builder.attestation_timeout, 600);
    assert!(builder.ca.is_none());
    assert!(builder.attestation_service.is_none());

    let server = sample_server();
    assert_eq!(server.attestation_timeout, 600);
    assert!(server.registered_identities.is_empty());
}

#[test]
fn request_for_unknown_identity_fails() {
    let mut server = sample_server();
    let r = server.request(auth_request("{\"id\": \"nobody\"}"), 1_000);
    assert!(matches!(r, Err(Error::UnknownIdentity)));
}

#[test]
fn attestation_for_unknown_identity_fails() {
    let mut server = sample_server();
    let att = attestation_for("nobody", "not a csr");
    assert!(matches!(
        server.attestation_prepare(&att, 1_000),
        Err(Error::UnknownIdentity)
    ));
    assert!(matches!(
        server.attestation_finalize(&att, 1_000, true),
        Err(Error::UnknownIdentity)
    ));
}

#[test]
fn request_without_id_is_malformed() {
    let mut server = sample_server();
    server
        .register_user("id-1", vec!["default".to_string()], vec![])
        .expect("first registration succeeds");
    for bad in ["{}", "not json at all", "{\"id\": 5}", "[\"id\"]"] {
        let r = server.request(auth_request(bad), 1_000);
        assert!(matches!(r, Err(Error::MalformedRequest)));
    }
}

#[test]
fn second_registration_is_refused_and_metadata_kept() {
    let mut server = sample_server();
    server
        .register_user("id-1", vec!["default".to_string()], vec!["repo/kind/tag".to_string()])
        .expect("first registration succeeds");
    assert!(server.contains("id-1"));
    assert!(!server.contains("id-2"));

    let again = server.register_user("id-1", vec![], vec!["other/kind/tag".to_string()]);
    assert!(matches!(again, Err(Error::AlreadyRegistered)));

    // The stored metadata is still that of the first call.
    assert!(server.get_resource("repo/kind/tag", "id-1").is_ok());
    assert!(matches!(
        server.get_resource("other/kind/tag", "id-1"),
        Err(Error::NotAuthorized)
    ));
}

#[test]
fn resource_access_is_per_identity() {
    let mut server = sample_server();
    server
        .register_user("alice", vec![], vec!["shared/data/v1".to_string()])
        .expect("registration succeeds");
    server
        .register_user("bob", vec![], vec![])
        .expect("registration succeeds");

    let granted = server.get_resource("shared/data/v1", "alice");
    assert_eq!(granted.expect("alice may read"), Vec::<u8>::new());

    // The resource exists and is granted to alice, but not to bob.
    assert!(matches!(
        server.get_resource("shared/data/v1", "bob"),
        Err(Error::NotAuthorized)
    ));
    assert!(matches!(
        server.get_resource("shared/data/v1", "carol"),
        Err(Error::UnknownIdentity)
    ));
}

#[test]
fn expired_session_refuses_attestation() {
    let mut server = sample_server();
    server
        .register_user("id-1", vec!["default".to_string()], vec![])
        .expect("registration succeeds");
    let challenge = server
        .request(auth_request("{\"id\": \"id-1\"}"), 1_000)
        .expect("request succeeds");
    assert_eq!(challenge.nonce.len(), 44);

    let att = attestation_for("id-1", &valid_csr());
    // At the exact expiry instant the challenge still stands.
    assert!(server.attestation_prepare(&att, 1_600).is_ok());
    // One second past it, the session is expired.
    assert!(matches!(
        server.attestation_prepare(&att, 1_601),
        Err(Error::SessionExpired)
    ));
    assert!(matches!(
        server.attestation_finalize(&att, 1_601, true),
        Err(Error::SessionExpired)
    ));
}

#[test]
fn attestation_without_challenge_is_invalid_state() {
    let mut server = sample_server();
    server
        .register_user("id-1", vec!["default".to_string()], vec![])
        .expect("registration succeeds");
    let att = attestation_for("id-1", &valid_csr());
    assert!(matches!(
        server.attestation_prepare(&att, 1_000),
        Err(Error::InvalidState)
    ));
    assert!(matches!(
        server.attestation_finalize(&att, 1_000, true),
        Err(Error::InvalidState)
    ));
}

#[test]
fn rejected_evidence_fails_attestation() {
    let mut server = sample_server();
    server
        .register_user("id-1", vec!["default".to_string()], vec![])
        .expect("registration succeeds");
    server
        .request(auth_request("{\"id\": \"id-1\"}"), 1_000)
        .expect("request succeeds");
    let att = attestation_for("id-1", &valid_csr());
    assert!(matches!(
        server.attestation_finalize(&att, 1_000, false),
        Err(Error::AttestationFailed(_))
    ));
    // The challenge is not consumed by the failure.
    assert!(server.attestation_prepare(&att, 1_000).is_ok());
}

#[test]
fn unsignable_csr_fails_issuance() {
    let mut server = sample_server();
    server
        .register_user("id-1", vec!["default".to_string()], vec![])
        .expect("registration succeeds");
    server
        .request(auth_request("{\"id\": \"id-1\"}"), 1_000)
        .expect("request succeeds");
    let att = attestation_for("id-1", "not a certificate signing request");
    assert!(matches!(
        server.attestation_finalize(&att, 1_000, true),
        Err(Error::IssuanceFailed(_))
    ));
}

#[test]
fn verification_request_binds_the_challenge() {
    let mut server = sample_server();
    server
        .register_user(
            "id-1",
            vec!["default".to_string(), "strict".to_string()],
            vec![],
        )
        .expect("registration succeeds");
    let challenge = server
        .request(auth_request("{\"id\": \"id-1\"}"), 1_000)
        .expect("request succeeds");

    let att = attestation_for("id-1", &valid_csr());
    let query = server
        .attestation_prepare(&att, 1_000)
        .expect("prepare succeeds");
    assert_eq!(query.tee, "sample");
    assert_eq!(query.evidence, "evidence");
    assert_eq!(query.policy_ids, vec!["default".to_string(), "strict".to_string()]);
    assert_eq!(query.runtime_data_hash_algorithm.as_deref(), Some("sha384"));
    assert!(query.init_data.is_none());
    assert!(query.init_data_hash_algorithm.is_none());
    match query.runtime_data {
        Some(Data::Structured(rd)) => assert_eq!(rd.nonce, challenge.nonce),
        other => panic!("runtime data should carry the nonce, got {other:?}"),
    }
}

#[test]
fn end_to_end_attestation_issues_a_certificate() {
    let mut server = sample_server();
    server
        .register_user("id-1", vec!["default".to_string()], vec![])
        .expect("registration succeeds");
    let challenge = server
        .request(auth_request("{\"id\": \"id-1\"}"), 1_000)
        .expect("request succeeds");
    assert!(!challenge.nonce.is_empty());

    let att = attestation_for("id-1", &valid_csr());
    server
        .attestation_prepare(&att, 1_000)
        .expect("prepare succeeds");
    let response = server
        .attestation_finalize(&att, 1_000, true)
        .expect("finalize succeeds");
    assert!(!response.crt.is_empty());
    assert!(response.crt.contains("BEGIN CERTIFICATE"));

    // The challenge is consumed: a second attestation over it fails.
    assert!(matches!(
        server.attestation_prepare(&att, 1_000),
        Err(Error::InvalidState)
    ));
    assert!(matches!(
        server.attestation_finalize(&att, 1_000, true),
        Err(Error::InvalidState)
    ));

    // A fresh challenge can still be minted for the attested identity.
    let renewed = server
        .request(auth_request("{\"id\": \"id-1\"}"), 2_000)
        .expect("renewal succeeds");
    assert_ne!(renewed.nonce, challenge.nonce);
}
