//! The confidential-containers restful verifier backend: the address it
//! answers at, and the exact body of a verification request.

use vstd::prelude::*;

use crate::session::Tee;

verus! {

/// Handle on a restful verifier backend.
#[derive(Clone, Debug)]
pub struct Client {
    pub addr: String,
}

impl Client {
    /// A client for the backend answering at `addr`.
    pub fn new(addr: String) -> (r: Self)
        ensures
            r.addr@ == addr@,
    {
        Client { addr }
    }
}

/// Data carried beside the evidence: either raw text or a structured
/// runtime-data object.
#[derive(Clone, Debug)]
pub enum Data {
    Raw(String),
    Structured(RuntimeData),
}

/// The structured runtime data of a verification request: the nonce the
/// evidence must bind.
#[derive(Clone, Debug)]
pub struct RuntimeData {
    pub nonce: String,
}

/// Body of a verification request to the restful backend.
#[derive(Clone, Debug)]
pub struct AttestationRequest {
    pub tee: String,
    pub evidence: String,
    pub runtime_data: Option<Data>,
    pub init_data: Option<Data>,
    pub runtime_data_hash_algorithm: Option<String>,
    pub init_data_hash_algorithm: Option<String>,
    pub policy_ids: Vec<String>,
}

/// The wire name of each TEE kind.
pub open spec fn tee_string_of(tee: Tee) -> Seq<char> {
    match tee {
        Tee::AzSnpVtpm => "azsnpvtpm"@,
        Tee::AzTdxVtpm => "aztdxvtpm"@,
        Tee::Cca => "cca"@,
        Tee::Csv => "csv"@,
        Tee::Sample => "sample"@,
        Tee::Sev => "sev"@,
        Tee::Sgx => "sgx"@,
        Tee::Snp => "snp"@,
        Tee::Tdx => "tdx"@,
    }
}

/// The wire name of a TEE kind, as the restful backend expects it.
pub fn to_tee_string(tee: Tee) -> (r: String)
    ensures
        r@ == tee_string_of(tee),
{
    match tee {
        Tee::AzSnpVtpm => "azsnpvtpm".to_owned(),
        Tee::AzTdxVtpm => "aztdxvtpm".to_owned(),
        Tee::Cca => "cca".to_owned(),
        Tee::Csv => "csv".to_owned(),
        Tee::Sample => "sample".to_owned(),
        Tee::Sev => "sev".to_owned(),
        Tee::Sgx => "sgx".to_owned(),
        Tee::Snp => "snp".to_owned(),
        Tee::Tdx => "tdx".to_owned(),
    }
}

impl AttestationRequest {
    /// The verification request for `evidence` from a `tee`, binding
    /// `nonce` as structured runtime data hashed with sha384, against
    /// `policy_ids`.
    pub fn new(tee: Tee, evidence: String, nonce: String, policy_ids: Vec<String>) -> (r: Self)
        ensures
            r.tee@ == tee_string_of(tee),
            r.evidence@ == evidence@,
            r.runtime_data matches Some(d) && d matches Data::Structured(rd) && rd.nonce@
                == nonce@,
            r.init_data is None,
            r.runtime_data_hash_algorithm matches Some(a) && a@ == "sha384"@,
            r.init_data_hash_algorithm is None,
            r.policy_ids.deep_view() == policy_ids.deep_view(),
    {
        AttestationRequest {
            tee: to_tee_string(tee),
            evidence,
            runtime_data: Some(Data::Structured(RuntimeData { nonce })),
            init_data: None,
            runtime_data_hash_algorithm: Some("sha384".to_owned()),
            init_data_hash_algorithm: None,
            policy_ids,
        }
    }
}

} // verus!
