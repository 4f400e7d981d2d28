//! Finite state machine for the RCAR handshake, together with the wire
//! data types of the protocol and the nonce generator.

use vstd::prelude::*;

use crate::Error;
use rand::Rng;

verus! {

/// The kinds of Trusted Execution Environment a workload may attest from.
#[derive(Clone, Copy, Debug, PartialEq, Eq, Structural)]
pub enum Tee {
    AzSnpVtpm,
    AzTdxVtpm,
    Cca,
    Csv,
    Sample,
    Sev,
    Sgx,
    Snp,
    Tdx,
}

/// Body of an authentication request: the caller names its TEE kind and
/// carries a JSON text whose `id` field names the identity.
#[derive(Clone, Debug)]
pub struct Request {
    pub version: String,
    pub tee: Tee,
    pub extra_params: String,
}

/// A challenge minted for one handshake: the fresh nonce the evidence
/// must bind, and free-form parameters (always empty here).
#[derive(Clone, Debug)]
pub struct Challenge {
    pub nonce: String,
    pub extra_params: String,
}

/// Body of an attestation request: the certificate signing request, the
/// TEE evidence, and the identity the caller claims.
#[derive(Clone, Debug)]
pub struct Attestation {
    pub csr: String,
    pub tee_evidence: String,
    pub id: String,
}

/// The credential issued once an attestation succeeds.
#[derive(Clone, Debug)]
pub struct Response {
    pub crt: String,
}

/// Abstract value of a session: the same three phases, over sequences
/// and unbounded integers.
pub enum SessionView {
    UnRegistered { id: Seq<char> },
    Authed { tee: Tee, nonce: Seq<char>, id: Seq<char>, timeout: int },
    Attested { id: Seq<char> },
}

impl SessionView {
    /// The identity the session belongs to, in every phase.
    pub open spec fn sid(self) -> Seq<char> {
        match self {
            SessionView::UnRegistered { id } => id,
            SessionView::Authed { id, .. } => id,
            SessionView::Attested { id } => id,
        }
    }

    /// The nonce of the live challenge; meaningful only in `Authed`.
    pub open spec fn spec_nonce(self) -> Seq<char> {
        match self {
            SessionView::Authed { nonce, .. } => nonce,
            _ => Seq::<char>::empty(),
        }
    }

    /// The TEE kind of the live challenge; meaningful only in `Authed`.
    pub open spec fn spec_tee(self) -> Tee {
        match self {
            SessionView::Authed { tee, .. } => tee,
            _ => Tee::Sample,
        }
    }

    /// A session is expired exactly when it holds a live challenge whose
    /// expiry lies strictly before `now`. The other phases never expire.
    pub open spec fn spec_expired(self, now: int) -> bool {
        match self {
            SessionView::Authed { timeout, .. } => now > timeout,
            _ => false,
        }
    }
}

/// The instant `timeout` seconds past `now`, clamped to the range of
/// `i64` seconds.
pub open spec fn expiry_of(now: int, timeout: int) -> int {
    if now + timeout > i64::MAX {
        i64::MAX as int
    } else if now + timeout < i64::MIN {
        i64::MIN as int
    } else {
        now + timeout
    }
}

/// Finite state machine for one identity's RCAR handshake.
pub enum SessionStatus {
    UnRegistered { id: String },
    Authed { tee: Tee, nonce: String, id: String, timeout: i64 },
    Attested { id: String },
}

impl View for SessionStatus {
    type V = SessionView;

    open spec fn view(&self) -> SessionView {
        match self {
            SessionStatus::UnRegistered { id } => SessionView::UnRegistered { id: id@ },
            SessionStatus::Authed { tee, nonce, id, timeout } => SessionView::Authed {
                tee: *tee,
                nonce: nonce@,
                id: id@,
                timeout: *timeout as int,
            },
            SessionStatus::Attested { id } => SessionView::Attested { id: id@ },
        }
    }
}

/// What a base64 encoding of a byte string reads as. Relied on by
/// `base64_std_encode` below; never stated on concrete values here.
pub uninterp spec fn base64_of(bytes: Seq<u8>) -> Seq<char>;

/// Relies on rand's `thread_rng` and `Rng::fill` to fill a buffer of 32
/// bytes with cryptographically random content. Nothing can be promised
/// of the values, only of the length.
#[verifier::external_body]
fn random_nonce_bytes() -> (r: Vec<u8>)
    ensures
        r@.len() == 32,
{
    let mut bytes: Vec<u8> = vec![0; 32];
    rand::thread_rng().fill(&mut bytes[..]);
    bytes
}

/// Relies on base64's `STANDARD` engine: the padded encoding writes four
/// characters for every started group of three input bytes, and the same
/// bytes always encode to the same text.
#[verifier::external_body]
fn base64_std_encode(bytes: &Vec<u8>) -> (r: String)
    ensures
        r@ == base64_of(bytes@),
        r@.len() == 4 * ((bytes@.len() + 2) / 3),
{
    base64::Engine::encode(&base64::engine::general_purpose::STANDARD, bytes)
}

/// A fresh nonce: 32 random bytes, base64-encoded to 44 characters.
fn nonce() -> (r: String)
    ensures
        r@.len() == 44,
{
    let bytes = random_nonce_bytes();
    base64_std_encode(&bytes)
}

/// `timeout` seconds past `now`, saturating at the ends of `i64`.
fn compute_expiry(now: i64, timeout: i64) -> (r: i64)
    ensures
        r as int == expiry_of(now as int, timeout as int),
{
    if timeout >= 0 {
        if now > i64::MAX - timeout {
            i64::MAX
        } else {
            now + timeout
        }
    } else {
        if now < i64::MIN - timeout {
            i64::MIN
        } else {
            now + timeout
        }
    }
}

impl SessionStatus {
    /// The identity this session belongs to.
    fn id(&self) -> (r: &str)
        ensures
            r@ == self@.sid(),
    {
        match self {
            SessionStatus::UnRegistered { id } => id.as_str(),
            SessionStatus::Authed { id, .. } => id.as_str(),
            SessionStatus::Attested { id } => id.as_str(),
        }
    }

    /// Mint a fresh challenge: a new random nonce and an expiry
    /// `timeout` seconds past `now`, whatever the prior phase was.
    pub fn auth(&mut self, request: Request, timeout: i64, now: i64) -> (c: Challenge)
        ensures
            final(self)@ == (SessionView::Authed {
                tee: request.tee,
                nonce: c.nonce@,
                id: old(self)@.sid(),
                timeout: expiry_of(now as int, timeout as int),
            }),
            c.nonce@.len() == 44,
            c.extra_params@ == Seq::<char>::empty(),
    {
        let expiry = compute_expiry(now, timeout);
        let n = nonce();
        let id: String = self.id().to_owned();
        *self = SessionStatus::Authed { tee: request.tee, nonce: n.clone(), id, timeout: expiry };
        Challenge { nonce: n, extra_params: String::new() }
    }

    /// The nonce of the live challenge; defined only in `Authed`.
    pub fn nonce(&self) -> (r: Result<String, Error>)
        ensures
            r is Ok <==> self@ is Authed,
            r matches Ok(n) ==> n@ == self@.spec_nonce(),
            r matches Err(e) ==> e matches Error::InvalidState,
    {
        match self {
            SessionStatus::Authed { nonce, .. } => Ok(nonce.clone()),
            _ => Err(Error::InvalidState),
        }
    }

    /// The TEE kind of the live challenge; defined only in `Authed`.
    pub fn tee(&self) -> (r: Result<Tee, Error>)
        ensures
            r is Ok <==> self@ is Authed,
            r matches Ok(t) ==> t == self@.spec_tee(),
            r matches Err(e) ==> e matches Error::InvalidState,
    {
        match self {
            SessionStatus::Authed { tee, .. } => Ok(*tee),
            _ => Err(Error::InvalidState),
        }
    }

    /// Whether the live challenge has expired by `now`. Sessions without
    /// a live challenge are never expired.
    pub fn is_expired(&self, now: i64) -> (r: bool)
        ensures
            r == self@.spec_expired(now as int),
    {
        match self {
            SessionStatus::Authed { timeout, .. } => *timeout < now,
            _ => false,
        }
    }

    /// Complete the handshake. From `Authed` the session moves to
    /// `Attested` and the result says so; on an already attested session
    /// nothing changes and the result signals it; completing a handshake
    /// that never began is an invalid transition.
    pub fn attest(&mut self) -> (r: Result<bool, Error>)
        ensures
            old(self)@ is Authed ==> (r matches Ok(b) && b && final(self)@ == (
            SessionView::Attested { id: old(self)@.sid() })),
            old(self)@ is Attested ==> (r matches Ok(b) && !b && final(self)@ == old(self)@),
            old(self)@ is UnRegistered ==> ((r matches Err(e) && e matches Error::InvalidTransition)
                && final(self)@ == old(self)@),
    {
        match self {
            SessionStatus::Authed { id, .. } => {
                let id2: String = id.clone();
                *self = SessionStatus::Attested { id: id2 };
                Ok(true)
            },
            SessionStatus::Attested { .. } => Ok(false),
            SessionStatus::UnRegistered { .. } => Err(Error::InvalidTransition),
        }
    }
}

/// A challenge minted at `now` with a non-negative timeout is not yet
/// expired at `now` itself, and is expired at every instant strictly
/// past its expiry.
pub proof fn lemma_fresh_challenge_expiry(
    tee: Tee,
    nonce: Seq<char>,
    id: Seq<char>,
    now: int,
    timeout: int,
)
    requires
        0 <= timeout,
        i64::MIN <= now <= i64::MAX,
    ensures
        !(SessionView::Authed {
            tee,
            nonce,
            id,
            timeout: expiry_of(now, timeout),
        }).spec_expired(now),
        forall|later: int|
            later > expiry_of(now, timeout) ==> (SessionView::Authed {
                tee,
                nonce,
                id,
                timeout: expiry_of(now, timeout),
            }).spec_expired(later),
{
}

} // verus!
