use attestation_auth_server::attestation::coco_restful::to_tee_string;
use attestation_auth_server::session::{Challenge, Request, SessionStatus, Tee};
use attestation_auth_server::Error;

fn sample_request(extra_params: &str) -> Request {
    Request {
        version: "0.1.0".to_string(),
        tee: Tee::Sample,
        extra_params: extra_params.to_string(),
    }
}

fn unregistered(id: &str) -> SessionStatus {
    SessionStatus::UnRegistered { id: id.to_string() }
}

#[test]
fn auth_mints_fixed_length_nonce() {
    let mut session = unregistered("id-1");
    let challenge: Challenge = session.auth(sample_request("{}"), 600, 1_000);
    assert_eq!(challenge.nonce.len(), 44);
    assert_eq!(challenge.extra_params, "");
    let nonce = session.nonce().expect("authed session must hold a nonce");
    assert_eq!(nonce, challenge.nonce);
}

#[test]
fn independent_nonces_differ() {
    let mut first = unregistered("id-1");
    let mut second = unregistered("id-2");
    let c1 = first.auth(sample_request("{}"), 600, 1_000);
    let c2 = second.auth(sample_request("{}"), 600, 1_000);
    assert_ne!(c1.nonce, c2.nonce);
    let c3 = first.auth(sample_request("{}"), 600, 1_000);
    assert_ne!(c1.nonce, c3.nonce);
}

#[test]
fn nonce_and_tee_are_defined_only_when_authed() {
    let session = unregistered("id-1");
    assert!(matches!(session.nonce(), Err(Error::InvalidState)));
    assert!(matches!(session.tee(), Err(Error::InvalidState)));

    let attested = SessionStatus::Attested { id: "id-1".to_string() };
    assert!(matches!(attested.nonce(), Err(Error::InvalidState)));
    assert!(matches!(attested.tee(), Err(Error::InvalidState)));

    let mut authed = unregistered("id-1");
    authed.auth(sample_request("{}"), 600, 1_000);
    assert!(authed.nonce().is_ok());
    assert!(matches!(authed.tee(), Ok(Tee::Sample)));
}

#[test]
fn expiry_follows_the_clock() {
    let mut session = unregistered("id-1");
    session.auth(sample_request("{}"), 600, 1_000);
    assert!(!session.is_expired(1_000));
    assert!(!session.is_expired(1_600));
    assert!(session.is_expired(1_601));
}

#[test]
fn unregistered_and_attested_never_expire() {
    let session = unregistered("id-1");
    assert!(!session.is_expired(i64::MAX));
    let attested = SessionStatus::Attested { id: "id-1".to_string() };
    assert!(!attested.is_expired(i64::MAX));
}

#[test]
fn expiry_saturates_at_the_end_of_time() {
    let mut session = unregistered("id-1");
    session.auth(sample_request("{}"), i64::MAX, 1_000);
    assert!(!session.is_expired(i64::MAX));
}

#[test]
fn attest_moves_only_authed_sessions() {
    let mut session = unregistered("id-1");
    assert!(matches!(session.attest(), Err(Error::InvalidTransition)));

    session.auth(sample_request("{}"), 600, 1_000);
    assert!(matches!(session.attest(), Ok(true)));
    assert!(matches!(session, SessionStatus::Attested { .. }));

    assert!(matches!(session.attest(), Ok(false)));
    assert!(matches!(session, SessionStatus::Attested { .. }));
}

#[test]
fn tee_wire_names_are_exact() {
    let expected = [
        (Tee::AzSnpVtpm, "azsnpvtpm"),
        (Tee::AzTdxVtpm, "aztdxvtpm"),
        (Tee::Cca, "cca"),
        (Tee::Csv, "csv"),
        (Tee::Sample, "sample"),
        (Tee::Sev, "sev"),
        (Tee::Sgx, "sgx"),
        (Tee::Snp, "snp"),
        (Tee::Tdx, "tdx"),
    ];
    for (tee, name) in expected {
        assert_eq!(to_tee_string(tee), name);
    }
}

#[test]
fn reauthentication_replaces_the_challenge() {
    let mut session = unregistered("id-1");
    let c1 = session.auth(sample_request("{}"), 600, 1_000);
    session.attest().expect("authed session can attest");
    let c2 = session.auth(sample_request("{}"), 600, 2_000);
    assert_ne!(c1.nonce, c2.nonce);
    assert!(!session.is_expired(2_000));
    assert!(session.is_expired(2_601));
}
