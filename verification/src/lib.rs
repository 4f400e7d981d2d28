//! Attestation authentication server core.
//!
//! Grants short-lived identity certificates and resource access to
//! confidential-computing workloads after their hardware attestation
//! evidence has been checked. The heart of the library is the RCAR
//! (Request - Challenge - Attestation - Response) handshake: a per-identity
//! session state machine, the identity registry that backs it, and the
//! orchestration that composes them with an attestation verifier and a
//! certificate authority.

use vstd::prelude::*;

pub mod attestation;
pub mod builder;
pub mod ca;
pub mod configs;
pub mod server;
pub mod session;

verus! {

/// Typed outcomes of the core operations. All failures of the library
/// surface as one of these variants; the verified functions never panic.
#[derive(Debug)]
pub enum Error {
    /// The request body could not be read, or it lacks an `id` field.
    MalformedRequest,
    /// The named identity was never registered.
    UnknownIdentity,
    /// The identity was already registered; the stored metadata is kept.
    AlreadyRegistered,
    /// A nonce or TEE kind was asked of a session outside the
    /// `Authed` phase of the handshake.
    InvalidState,
    /// An illegal move of the session state machine was attempted.
    InvalidTransition,
    /// The challenge of the session has expired.
    SessionExpired,
    /// The attestation verifier rejected the evidence, or could not be
    /// reached; the cause is carried as text.
    AttestationFailed(String),
    /// The certificate authority refused to sign the request; the cause
    /// is carried as text.
    IssuanceFailed(String),
    /// The requester is not allowed to read the named resource.
    NotAuthorized,
}

} // verus!
