//! Configuration of the two collaborators, and the factory that builds
//! them from it. Loading configuration from disk is transport work; the
//! choice of backend made from it is decided here.

use vstd::prelude::*;

use crate::attestation::coco_restful::Client;
use crate::attestation::AttestationService;
use crate::ca::{ManualCA, SampleCA, CA};
use crate::Error;

verus! {

/// Which attestation verifier backend to use.
pub enum ASConfig {
    RestfulCoCo { addr: String },
}

impl ASConfig {
    /// The verifier backend this configuration names.
    pub fn into_service(self) -> (r: AttestationService)
        ensures
            self matches ASConfig::RestfulCoCo { addr } ==> (
            r matches AttestationService::CoCoRestful(c) && c.addr@ == addr@),
    {
        match self {
            ASConfig::RestfulCoCo { addr } => AttestationService::CoCoRestful(Client::new(addr)),
        }
    }
}

/// Which certificate authority to use: the testing one, or the
/// policy-enforcing one with its PEM key material.
pub enum CaConfig {
    Sample,
    Manual { private_key: String, public_key_cert: String },
}

impl CaConfig {
    /// The certificate authority this configuration names. Building the
    /// manual authority fails if its key material does not parse.
    pub fn into_ca(self) -> (r: Result<CA, Error>)
        ensures
            self is Sample ==> (r matches Ok(ca) && ca is Sample),
            self is Manual ==> (r matches Ok(ca) ==> ca is Manual),
            r matches Err(e) ==> e matches Error::IssuanceFailed(_),
    {
        match self {
            CaConfig::Sample => Ok(CA::Sample(SampleCA {  })),
            CaConfig::Manual { private_key, public_key_cert } => {
                match ManualCA::new(private_key, public_key_cert) {
                    Ok(manual) => Ok(CA::Manual(manual)),
                    Err(e) => Err(e),
                }
            },
        }
    }
}

} // verus!
