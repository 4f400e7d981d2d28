//! Attestation verifier backends. The core builds the verification
//! request here; carrying it to the backend and reading the answer is
//! transport work that lives outside the verified library.

use vstd::prelude::*;

pub mod coco_restful;

verus! {

/// The configured attestation verifier backend.
#[derive(Debug)]
pub enum AttestationService {
    CoCoRestful(coco_restful::Client),
}

} // verus!
