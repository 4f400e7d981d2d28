//! Step-by-step construction of a `Server`.

use vstd::prelude::*;

use crate::attestation::AttestationService;
use crate::ca::CA;
use crate::server::{EntryView, Server};
use crate::Error;

verus! {

/// Collects a server's collaborators before it is built: the certificate
/// authority, the attestation verifier backend, and the challenge
/// timeout in seconds (600 unless set).
pub struct ServerBuilder {
    pub ca: Option<CA>,
    pub attestation_service: Option<AttestationService>,
    pub attestation_timeout: i64,
}

impl Default for ServerBuilder {
    fn default() -> (r: Self)
        ensures
            r.ca is None,
            r.attestation_service is None,
            r.attestation_timeout == 600,
    {
        Self { ca: None, attestation_service: None, attestation_timeout: 600 }
    }
}

impl ServerBuilder {
    /// A builder with nothing configured yet.
    pub fn new() -> (r: Self)
        ensures
            r.ca is None,
            r.attestation_service is None,
            r.attestation_timeout == 600,
    {
        Self::default()
    }

    /// Set the certificate authority.
    pub fn with_ca(self, ca: CA) -> (r: Self)
        ensures
            r.ca == Some(ca),
            r.attestation_service == self.attestation_service,
            r.attestation_timeout == self.attestation_timeout,
    {
        Self {
            ca: Some(ca),
            attestation_service: self.attestation_service,
            attestation_timeout: self.attestation_timeout,
        }
    }

    /// Set the attestation verifier backend.
    pub fn with_attestation_service(self, attestation_service: AttestationService) -> (r: Self)
        ensures
            r.attestation_service == Some(attestation_service),
            r.ca == self.ca,
            r.attestation_timeout == self.attestation_timeout,
    {
        Self {
            ca: self.ca,
            attestation_service: Some(attestation_service),
            attestation_timeout: self.attestation_timeout,
        }
    }

    /// Set the challenge timeout, in seconds.
    pub fn with_attestation_timeout(self, timeout: i64) -> (r: Self)
        ensures
            r.attestation_timeout == timeout,
            r.ca == self.ca,
            r.attestation_service == self.attestation_service,
    {
        Self {
            ca: self.ca,
            attestation_service: self.attestation_service,
            attestation_timeout: timeout,
        }
    }

    /// Build the server: an empty, well-formed registry around the
    /// configured collaborators. Both collaborators must have been set.
    pub fn build(self) -> (r: Result<Server, Error>)
        requires
            self.ca is Some,
            self.attestation_service is Some,
        ensures
            r is Ok,
            r matches Ok(s) ==> {
                &&& self.ca matches Some(ca) && s.spec_ca() == ca
                &&& self.attestation_service matches Some(a) && s.spec_attestation_service() == a
                &&& s.spec_timeout() == self.attestation_timeout
                &&& s.wf()
                &&& s.identities() == Map::<Seq<char>, EntryView>::empty()
            },
    {
        match (self.ca, self.attestation_service) {
            (Some(ca), Some(attestation_service)) => {
                let server = Server {
                    ca,
                    registered_identities: Vec::new(),
                    attestation_service,
                    attestation_timeout: self.attestation_timeout,
                };
                Ok(server)
            },
            _ => Err(Error::InvalidState),
        }
    }
}

} // verus!
