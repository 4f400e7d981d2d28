//! Certificate authorities. The sample authority self-signs a request
//! verbatim for testing; the manual authority signs with its own key
//! material and enforces a fixed certificate policy, replacing whatever
//! key usages and common name the request asked for.

use vstd::prelude::*;

use crate::Error;

verus! {

/// rcgen's certificate, held opaquely as the manual authority's signing
/// identity.
#[verifier::external_type_specification]
#[verifier::external_body]
pub struct ExCertificate(rcgen::Certificate);

/// Key usages the certificate policy can grant.
#[derive(Clone, Copy, Debug, PartialEq, Eq, Structural)]
pub enum KeyUsage {
    CertSign,
    DigitalSignature,
    KeyEncipherment,
}

/// Extended key usages the certificate policy can grant.
#[derive(Clone, Copy, Debug, PartialEq, Eq, Structural)]
pub enum ExtendedKeyUsage {
    ClientAuth,
}

/// The certificate fields a policy-enforcing authority writes into every
/// certificate it signs, in place of whatever the request asked for.
pub struct CertificatePolicy {
    pub key_usages: Vec<KeyUsage>,
    pub extended_key_usages: Vec<ExtendedKeyUsage>,
    pub common_name: String,
}

/// The fixed policy of the manual authority: certificate signing, digital
/// signature and key encipherment, client authentication, and its own
/// common name.
pub fn manual_policy() -> (r: CertificatePolicy)
    ensures
        r.key_usages@ == seq![
            KeyUsage::CertSign,
            KeyUsage::DigitalSignature,
            KeyUsage::KeyEncipherment,
        ],
        r.extended_key_usages@ == seq![ExtendedKeyUsage::ClientAuth],
        r.common_name@ == "NiuBi Certificate"@,
{
    let mut key_usages: Vec<KeyUsage> = Vec::new();
    key_usages.push(KeyUsage::CertSign);
    key_usages.push(KeyUsage::DigitalSignature);
    key_usages.push(KeyUsage::KeyEncipherment);
    let mut extended_key_usages: Vec<ExtendedKeyUsage> = Vec::new();
    extended_key_usages.push(ExtendedKeyUsage::ClientAuth);
    proof {
        assert(key_usages@ =~= seq![
            KeyUsage::CertSign,
            KeyUsage::DigitalSignature,
            KeyUsage::KeyEncipherment,
        ]);
        assert(extended_key_usages@ =~= seq![ExtendedKeyUsage::ClientAuth]);
    }
    CertificatePolicy {
        key_usages,
        extended_key_usages,
        common_name: "NiuBi Certificate".to_owned(),
    }
}

/// Relies on rcgen's `CertificateSigningRequest::from_pem`,
/// `Certificate::from_params` and `Certificate::serialize_pem`: the request
/// is signed with its own parameters and key, exactly as it was asked, and
/// a successful serialization is a non-empty PEM text.
#[verifier::external_body]
fn sample_sign_csr(csr: &str) -> (r: Result<String, String>)
    ensures
        r matches Ok(pem) ==> pem@.len() > 0,
{
    let req = rcgen::CertificateSigningRequest::from_pem(csr).map_err(|e| e.to_string())?;
    let cert = rcgen::Certificate::from_params(req.params).map_err(|e| e.to_string())?;
    cert.serialize_pem().map_err(|e| e.to_string())
}

/// Relies on rcgen's `KeyPair::from_pem`, `CertificateParams::from_ca_cert_pem`
/// and `Certificate::from_params` to rebuild the issuing certificate from its
/// PEM key material.
#[verifier::external_body]
fn ca_from_pem(private_key: &str, public_key_cert: &str) -> Result<rcgen::Certificate, String> {
    let key_pair = rcgen::KeyPair::from_pem(private_key).map_err(|e| e.to_string())?;
    let params = rcgen::CertificateParams::from_ca_cert_pem(public_key_cert, key_pair)
        .map_err(|e| e.to_string())?;
    rcgen::Certificate::from_params(params).map_err(|e| e.to_string())
}

/// Relies on rcgen's `CertificateSigningRequest::from_pem` and
/// `serialize_pem_with_signer`: the request is signed by `ca` after its key
/// usages, extended key usages and common name are replaced, in order, by
/// those of `policy`; nothing else of the request is changed, and a
/// successful signing is a non-empty PEM text.
#[verifier::external_body]
fn sign_csr_with_policy(ca: &rcgen::Certificate, csr: &str, policy: &CertificatePolicy) -> (r:
    Result<String, String>)
    ensures
        r matches Ok(pem) ==> pem@.len() > 0,
{
    let mut req = rcgen::CertificateSigningRequest::from_pem(csr).map_err(|e| e.to_string())?;
    req.params.key_usages = policy.key_usages.iter().map(|k| match k {
        KeyUsage::CertSign => rcgen::KeyUsagePurpose::KeyCertSign,
        KeyUsage::DigitalSignature => rcgen::KeyUsagePurpose::DigitalSignature,
        KeyUsage::KeyEncipherment => rcgen::KeyUsagePurpose::KeyEncipherment,
    }).collect();
    req.params.extended_key_usages = policy.extended_key_usages.iter().map(|k| match k {
        ExtendedKeyUsage::ClientAuth => rcgen::ExtendedKeyUsagePurpose::ClientAuth,
    }).collect();
    req.params.distinguished_name.remove(rcgen::DnType::CommonName);
    req.params.distinguished_name.push(rcgen::DnType::CommonName, policy.common_name.clone());
    req.serialize_pem_with_signer(ca).map_err(|e| e.to_string())
}

/// A certificate authority: either the testing variant or the
/// policy-enforcing one.
pub enum CA {
    Sample(SampleCA),
    Manual(ManualCA),
}

impl CA {
    /// Sign `csr` into a certificate. Which requests the backing
    /// authority accepts is its own decision; a granted certificate is
    /// never empty, and a refusal carries the cause.
    pub fn issue_cert(&self, csr: &str) -> (r: Result<String, Error>)
        ensures
            r matches Ok(pem) ==> pem@.len() > 0,
            r matches Err(e) ==> e matches Error::IssuanceFailed(_),
    {
        match self {
            CA::Sample(inner) => inner.issue_cert(csr),
            CA::Manual(inner) => inner.issue_cert(csr),
        }
    }
}

/// The testing authority: it signs every well-formed request with the
/// request's own parameters.
#[derive(Debug)]
pub struct SampleCA {}

impl SampleCA {
    fn issue_cert(&self, csr: &str) -> (r: Result<String, Error>)
        ensures
            r matches Ok(pem) ==> pem@.len() > 0,
            r matches Err(e) ==> e matches Error::IssuanceFailed(_),
    {
        match sample_sign_csr(csr) {
            Ok(pem) => Ok(pem),
            Err(cause) => Err(Error::IssuanceFailed(cause)),
        }
    }
}

/// The production authority: it signs with configured key material and
/// enforces `manual_policy` on every certificate.
pub struct ManualCA {
    ca: rcgen::Certificate,
}

impl ManualCA {
    /// Build the authority from its PEM private key and certificate.
    pub fn new(private_key: String, public_key_cert: String) -> (r: Result<Self, Error>)
        ensures
            r matches Err(e) ==> e matches Error::IssuanceFailed(_),
    {
        match ca_from_pem(private_key.as_str(), public_key_cert.as_str()) {
            Ok(ca) => Ok(ManualCA { ca }),
            Err(cause) => Err(Error::IssuanceFailed(cause)),
        }
    }

    fn issue_cert(&self, csr: &str) -> (r: Result<String, Error>)
        ensures
            r matches Ok(pem) ==> pem@.len() > 0,
            r matches Err(e) ==> e matches Error::IssuanceFailed(_),
    {
        let policy = manual_policy();
        match sign_csr_with_policy(&self.ca, csr, &policy) {
            Ok(pem) => Ok(pem),
            Err(cause) => Err(Error::IssuanceFailed(cause)),
        }
    }
}

} // verus!
