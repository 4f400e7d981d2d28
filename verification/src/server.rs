//! The server: the identity registry, the two RCAR operations, and
//! resource access control.
//!
//! The registry maps each identity to its metadata and session, modelled
//! as a `Map` from identity to entry view. Registration seeds an entry,
//! `request` mints a challenge for it, and the attestation sequence —
//! prepare, verify at the backend, finalize — consumes the challenge.
//! The whole sequence for one identity must run under that identity's
//! exclusive access (here: the exclusive borrow of the server a caller
//! holds across it); the contracts below then rule out two sequences
//! both succeeding over one challenge.

use vstd::prelude::*;

use crate::attestation::coco_restful::{tee_string_of, AttestationRequest, Data};
use crate::attestation::AttestationService;
use crate::ca::CA;
use crate::session::{
    expiry_of, Attestation, Challenge, Request, Response, SessionStatus, SessionView,
};
use crate::Error;

verus! {

/// Attributes attached to an identity at registration: the attestation
/// policies its evidence must satisfy, and the resources it may read.
/// Immutable after registration.
#[derive(Debug)]
pub struct Metadata {
    pub policy_ids: Vec<String>,
    pub allowed_resources: Vec<String>,
}

/// Abstract value of `Metadata`: the policies in order, the allowed
/// resources as a set.
pub struct MetadataView {
    pub policy_ids: Seq<Seq<char>>,
    pub allowed_resources: Set<Seq<char>>,
}

impl View for Metadata {
    type V = MetadataView;

    open spec fn view(&self) -> MetadataView {
        MetadataView {
            policy_ids: self.policy_ids.deep_view(),
            allowed_resources: self.allowed_resources.deep_view().to_set(),
        }
    }
}

/// One identity's registry entry: its name, its metadata, and its
/// session.
pub struct RegistryEntry {
    pub id: String,
    pub metadata: Metadata,
    pub status: SessionStatus,
}

/// Abstract value of a registry entry.
pub struct EntryView {
    pub metadata: MetadataView,
    pub status: SessionView,
}

impl View for RegistryEntry {
    type V = EntryView;

    open spec fn view(&self) -> EntryView {
        EntryView { metadata: self.metadata@, status: self.status@ }
    }
}

/// No two entries name the same identity.
pub open spec fn distinct_ids(entries: Seq<RegistryEntry>) -> bool {
    forall|i: int, j: int|
        0 <= i < j < entries.len() ==> entries[i].id@ != entries[j].id@
}

/// The registry read as a map from identity to entry.
pub open spec fn identities_of(entries: Seq<RegistryEntry>) -> Map<Seq<char>, EntryView>
    decreases entries.len(),
{
    if entries.len() == 0 {
        Map::empty()
    } else {
        identities_of(entries.drop_last()).insert(entries.last().id@, entries.last()@)
    }
}

/// An identity is in the map exactly when some entry names it.
proof fn lemma_identities_of_contains(entries: Seq<RegistryEntry>, key: Seq<char>)
    ensures
        identities_of(entries).contains_key(key) <==> (exists|i: int|
            0 <= i < entries.len() && entries[i].id@ == key),
    decreases entries.len(),
{
    if entries.len() == 0 {
    } else {
        let prefix = entries.drop_last();
        lemma_identities_of_contains(prefix, key);
        if entries.last().id@ == key {
            assert(entries[entries.len() - 1].id@ == key);
        } else {
            if identities_of(entries).contains_key(key) {
                let i = choose|i: int| 0 <= i < prefix.len() && prefix[i].id@ == key;
                assert(entries[i].id@ == key);
            }
            if exists|i: int| 0 <= i < entries.len() && entries[i].id@ == key {
                let i = choose|i: int| 0 <= i < entries.len() && entries[i].id@ == key;
                assert(i < entries.len() - 1);
                assert(prefix[i].id@ == key);
            }
        }
    }
}

/// With distinct identities, the entry at an index is the map's value
/// for its identity.
proof fn lemma_identities_of_index(entries: Seq<RegistryEntry>, i: int)
    requires
        distinct_ids(entries),
        0 <= i < entries.len(),
    ensures
        identities_of(entries).contains_key(entries[i].id@),
        identities_of(entries)[entries[i].id@] == entries[i]@,
    decreases entries.len(),
{
    let prefix = entries.drop_last();
    if i == entries.len() - 1 {
    } else {
        assert(distinct_ids(prefix)) by {
            assert(forall|m: int, n: int|
                0 <= m < n < prefix.len() ==> prefix[m].id@ != prefix[n].id@);
        }
        lemma_identities_of_index(prefix, i);
        assert(entries.last().id@ != entries[i].id@);
    }
}

/// Replacing the entry at an index with one for the same identity is an
/// insert on the map, and keeps the identities distinct.
proof fn lemma_identities_of_update(entries: Seq<RegistryEntry>, i: int, e: RegistryEntry)
    requires
        distinct_ids(entries),
        0 <= i < entries.len(),
        e.id@ == entries[i].id@,
    ensures
        identities_of(entries.update(i, e)) == identities_of(entries).insert(e.id@, e@),
        distinct_ids(entries.update(i, e)),
    decreases entries.len(),
{
    let s2 = entries.update(i, e);
    assert(distinct_ids(s2)) by {
        assert(forall|m: int| 0 <= m < s2.len() ==> s2[m].id@ == entries[m].id@);
    }
    if i == entries.len() - 1 {
        assert(s2.drop_last() =~= entries.drop_last());
        assert(identities_of(s2) =~= identities_of(entries).insert(e.id@, e@));
    } else {
        let prefix = entries.drop_last();
        assert(distinct_ids(prefix)) by {
            assert(forall|m: int, n: int|
                0 <= m < n < prefix.len() ==> prefix[m].id@ != prefix[n].id@);
        }
        assert(s2.drop_last() =~= prefix.update(i, e));
        lemma_identities_of_update(prefix, i, e);
        lemma_identities_of_index(entries, i);
        assert(entries.last().id@ != e.id@);
        assert(identities_of(s2) =~= identities_of(entries).insert(e.id@, e@));
    }
}

/// What a string field of a JSON object text reads as. Relied on by
/// `extract_field` below; never stated on concrete values here.
pub uninterp spec fn json_str_field_of(text: Seq<char>, key: Seq<char>) -> Option<Seq<char>>;

/// Relies on serde_json's `from_str`, `Value::get` and `Value::as_str`:
/// the string field named `key` of the JSON object in `text`, if `text`
/// parses as an object holding one; the result depends on the two texts
/// alone.
#[verifier::external_body]
fn extract_field(text: &str, key: &str) -> (r: Option<String>)
    ensures
        r is Some <==> json_str_field_of(text@, key@) is Some,
        r matches Some(v) ==> json_str_field_of(text@, key@) == Some(v@),
{
    let value: serde_json::Value = serde_json::from_str(text).ok()?;
    let field = value.get(key)?.as_str()?;
    Some(field.to_string())
}

/// The identity named by a request's extra parameters, if any.
pub open spec fn request_id(request: Request) -> Option<Seq<char>> {
    json_str_field_of(request.extra_params@, "id"@)
}

/// The index of the entry naming `id`, if one does.
fn find_index(entries: &Vec<RegistryEntry>, id: &String) -> (r: Option<usize>)
    ensures
        r matches Some(i) ==> i < entries@.len() && entries@[i as int].id@ == id@,
        r is None ==> forall|j: int| 0 <= j < entries@.len() ==> entries@[j].id@ != id@,
{
    let mut i: usize = 0;
    while i < entries.len()
        invariant
            i <= entries@.len(),
            forall|j: int| 0 <= j < i ==> entries@[j].id@ != id@,
        decreases entries@.len() - i,
    {
        if entries[i].id == *id {
            return Some(i);
        }
        i += 1;
    }
    None
}

/// A copy of a vector of strings, reading as the same sequence.
fn clone_string_vec(v: &Vec<String>) -> (r: Vec<String>)
    ensures
        r.deep_view() == v.deep_view(),
{
    let mut r: Vec<String> = Vec::new();
    let mut i: usize = 0;
    while i < v.len()
        invariant
            i <= v@.len(),
            r@.len() == i,
            forall|j: int| 0 <= j < i ==> r@[j]@ == v@[j]@,
        decreases v@.len() - i,
    {
        r.push(v[i].clone());
        i += 1;
    }
    proof {
        assert(r.deep_view() =~= v.deep_view());
    }
    r
}

/// Whether some element of `v` reads as `s`.
fn contains_string(v: &Vec<String>, s: &String) -> (r: bool)
    ensures
        r == v.deep_view().to_set().contains(s@),
{
    let mut j: usize = 0;
    while j < v.len()
        invariant
            j <= v@.len(),
            forall|k: int| 0 <= k < j ==> v@[k]@ != s@,
        decreases v@.len() - j,
    {
        if v[j] == *s {
            proof {
                assert(v.deep_view()[j as int] == s@);
            }
            return true;
        }
        j += 1;
    }
    proof {
        assert(forall|k: int| 0 <= k < v.deep_view().len() ==> v.deep_view()[k] != s@);
    }
    false
}

/// An entry is ready for the attestation sequence when it holds a live,
/// unexpired challenge.
pub open spec fn attestation_ready(e: EntryView, now: int) -> bool {
    e.status is Authed && !e.status.spec_expired(now)
}

/// Registration of identities with resource policies, and authorization
/// of resource reads. The requester identity is supplied by the
/// transport layer, which alone validates how it was authenticated.
pub trait AccessControl {
    /// Well-formedness the operations preserve.
    spec fn ac_wf(&self) -> bool;

    /// Register `id` with its policies and allowed resources; an
    /// identity registers at most once.
    fn register_user(&mut self, id: &str, policy_ids: Vec<String>, allowed_resources: Vec<
        String,
    >) -> (r: Result<(), Error>)
        requires
            old(self).ac_wf(),
        ensures
            final(self).ac_wf(),
    ;

    /// Hand out the resource `rid` to `id`, if `id` is registered and
    /// allowed to read it.
    fn get_resource(&self, rid: &str, id: &str) -> (r: Result<Vec<u8>, Error>)
        requires
            self.ac_wf(),
    ;
}

/// Body of a registration call: the identity and its metadata.
#[derive(Debug)]
pub struct Register {
    pub id: String,
    pub policy_ids: Vec<String>,
    pub allowed_resources: Vec<String>,
}

/// The attestation authentication server: the identity registry, the
/// configured certificate authority and verifier backend, and the
/// challenge timeout in seconds.
pub struct Server {
    pub ca: CA,
    pub registered_identities: Vec<RegistryEntry>,
    pub attestation_service: AttestationService,
    pub attestation_timeout: i64,
}

impl Server {
    /// The registry read as a map from identity to entry.
    pub open spec fn identities(self) -> Map<Seq<char>, EntryView> {
        identities_of(self.registered_identities@)
    }

    /// Well-formedness: no identity has two entries.
    pub open spec fn wf(self) -> bool {
        distinct_ids(self.registered_identities@)
    }

    /// The configured certificate authority.
    pub open spec fn spec_ca(self) -> CA {
        self.ca
    }

    /// The configured attestation verifier backend.
    pub open spec fn spec_attestation_service(self) -> AttestationService {
        self.attestation_service
    }

    /// The configured challenge timeout, in seconds.
    pub open spec fn spec_timeout(self) -> i64 {
        self.attestation_timeout
    }

    /// Whether `id` is registered.
    pub fn contains(&self, id: &str) -> (r: bool)
        ensures
            r == self.identities().contains_key(id@),
    {
        let key: String = id.to_owned();
        let idx = find_index(&self.registered_identities, &key);
        proof {
            lemma_identities_of_contains(self.registered_identities@, key@);
        }
        idx.is_some()
    }

    /// First step of the RCAR handshake. The extra parameters must name
    /// a registered identity; that identity's session then holds a
    /// fresh challenge expiring `attestation_timeout` seconds past
    /// `now`, whatever phase it was in, and the challenge is returned.
    pub fn request(&mut self, request: Request, now: i64) -> (r: Result<Challenge, Error>)
        requires
            old(self).wf(),
        ensures
            final(self).wf(),
            final(self).spec_timeout() == old(self).spec_timeout(),
            final(self).spec_ca() == old(self).spec_ca(),
            final(self).spec_attestation_service() == old(self).spec_attestation_service(),
            request_id(request) is None ==> ((r matches Err(e) && e matches Error::MalformedRequest)
                && final(self).identities() == old(self).identities()),
            request_id(request) matches Some(id) ==> {
                &&& !old(self).identities().contains_key(id) ==> ((r matches Err(e)
                    && e matches Error::UnknownIdentity) && final(self).identities() == old(self).identities())
                &&& old(self).identities().contains_key(id) ==> (r matches Ok(c) && c.nonce@.len()
                    == 44 && c.extra_params@ == Seq::<char>::empty() && final(self).identities()
                    == old(self).identities().insert(id, EntryView {
                    metadata: old(self).identities()[id].metadata,
                    status: SessionView::Authed {
                        tee: request.tee,
                        nonce: c.nonce@,
                        id: old(self).identities()[id].status.sid(),
                        timeout: expiry_of(now as int, old(self).spec_timeout() as int),
                    },
                }))
            },
    {
        let id = match extract_field(request.extra_params.as_str(), "id") {
            Some(id) => id,
            None => {
                return Err(Error::MalformedRequest);
            },
        };
        let idx = find_index(&self.registered_identities, &id);
        proof {
            lemma_identities_of_contains(self.registered_identities@, id@);
        }
        let i = match idx {
            Some(i) => i,
            None => {
                return Err(Error::UnknownIdentity);
            },
        };
        proof {
            lemma_identities_of_index(self.registered_identities@, i as int);
        }
        let ghost old_entries = self.registered_identities@;
        let timeout = self.attestation_timeout;
        let challenge = self.registered_identities[i].status.auth(request, timeout, now);
        proof {
            let e2 = self.registered_identities@[i as int];
            assert(self.registered_identities@ == old_entries.update(i as int, e2));
            lemma_identities_of_update(old_entries, i as int, e2);
        }
        Ok(challenge)
    }

    /// Second step of the RCAR handshake, begun: resolve the identity,
    /// refuse an expired or missing challenge, and build the
    /// verification request that binds the challenge's nonce. The
    /// session is not changed.
    pub fn attestation_prepare(&self, attestation: &Attestation, now: i64) -> (r: Result<
        AttestationRequest,
        Error,
    >)
        requires
            self.wf(),
        ensures
            r is Ok <==> (self.identities().contains_key(attestation.id@) && attestation_ready(
                self.identities()[attestation.id@],
                now as int,
            )),
            !self.identities().contains_key(attestation.id@) ==> (r matches Err(e)
                && e matches Error::UnknownIdentity),
            self.identities().contains_key(attestation.id@) ==> {
                let entry = self.identities()[attestation.id@];
                &&& entry.status.spec_expired(now as int) ==> (r matches Err(e)
                    && e matches Error::SessionExpired)
                &&& (!entry.status.spec_expired(now as int) && !(entry.status is Authed)) ==> (
                r matches Err(e) && e matches Error::InvalidState)
                &&& attestation_ready(entry, now as int) ==> (r matches Ok(q) && q.tee@
                    == tee_string_of(entry.status.spec_tee()) && q.evidence@
                    == attestation.tee_evidence@ && (q.runtime_data matches Some(d)
                    && d matches Data::Structured(rd) && rd.nonce@ == entry.status.spec_nonce())
                    && q.init_data is None && (q.runtime_data_hash_algorithm matches Some(a) && a@
                    == "sha384"@) && q.init_data_hash_algorithm is None && q.policy_ids.deep_view()
                    == entry.metadata.policy_ids)
            },
    {
        let idx = find_index(&self.registered_identities, &attestation.id);
        proof {
            lemma_identities_of_contains(self.registered_identities@, attestation.id@);
        }
        let i = match idx {
            Some(i) => i,
            None => {
                return Err(Error::UnknownIdentity);
            },
        };
        proof {
            lemma_identities_of_index(self.registered_identities@, i as int);
        }
        let entry = &self.registered_identities[i];
        if entry.status.is_expired(now) {
            return Err(Error::SessionExpired);
        }
        let nonce = match entry.status.nonce() {
            Ok(n) => n,
            Err(_) => {
                return Err(Error::InvalidState);
            },
        };
        let tee = match entry.status.tee() {
            Ok(t) => t,
            Err(_) => {
                return Err(Error::InvalidState);
            },
        };
        let policy_ids = clone_string_vec(&entry.metadata.policy_ids);
        let evidence = attestation.tee_evidence.clone();
        Ok(AttestationRequest::new(tee, evidence, nonce, policy_ids))
    }

    /// Second step of the RCAR handshake, completed, with `verified`
    /// saying whether the attestation verifier accepted the evidence
    /// bound to the outstanding challenge. On acceptance the
    /// certificate authority signs the request's CSR and the session
    /// moves to `Attested`, consuming the challenge; every refusal
    /// leaves the registry unchanged. The caller must keep its
    /// exclusive access to the server from `attestation_prepare`
    /// through this call, so that no second sequence can interleave.
    pub fn attestation_finalize(
        &mut self,
        attestation: &Attestation,
        now: i64,
        verified: bool,
    ) -> (r: Result<Response, Error>)
        requires
            old(self).wf(),
        ensures
            final(self).wf(),
            final(self).spec_timeout() == old(self).spec_timeout(),
            final(self).spec_ca() == old(self).spec_ca(),
            final(self).spec_attestation_service() == old(self).spec_attestation_service(),
            !old(self).identities().contains_key(attestation.id@) ==> ((r matches Err(e)
                && e matches Error::UnknownIdentity) && final(self).identities() == old(self).identities()),
            old(self).identities().contains_key(attestation.id@) ==> {
                let entry = old(self).identities()[attestation.id@];
                &&& entry.status.spec_expired(now as int) ==> ((r matches Err(e)
                    && e matches Error::SessionExpired) && final(self).identities() == old(self).identities())
                &&& (!entry.status.spec_expired(now as int) && !(entry.status is Authed)) ==> ((
                r matches Err(e) && e matches Error::InvalidState) && final(self).identities()
                    == old(self).identities())
                &&& (attestation_ready(entry, now as int) && !verified) ==> ((r matches Err(e)
                    && e matches Error::AttestationFailed(_)) && final(self).identities() == old(self).identities())
                &&& (attestation_ready(entry, now as int) && verified) ==> {
                    &&& r matches Ok(resp) ==> (resp.crt@.len() > 0 && final(self).identities()
                        == old(self).identities().insert(attestation.id@, EntryView {
                        metadata: entry.metadata,
                        status: SessionView::Attested { id: entry.status.sid() },
                    }))
                    &&& r matches Err(e) ==> (e matches Error::IssuanceFailed(_) && final(self).identities() == old(self).identities())
                }
            },
    {
        let idx = find_index(&self.registered_identities, &attestation.id);
        proof {
            lemma_identities_of_contains(self.registered_identities@, attestation.id@);
        }
        let i = match idx {
            Some(i) => i,
            None => {
                return Err(Error::UnknownIdentity);
            },
        };
        proof {
            lemma_identities_of_index(self.registered_identities@, i as int);
        }
        if self.registered_identities[i].status.is_expired(now) {
            return Err(Error::SessionExpired);
        }
        let live = match &self.registered_identities[i].status {
            SessionStatus::Authed { .. } => true,
            _ => false,
        };
        if !live {
            return Err(Error::InvalidState);
        }
        if !verified {
            return Err(
                Error::AttestationFailed(
                    "evidence rejected by the attestation service".to_owned(),
                ),
            );
        }
        let crt = match self.ca.issue_cert(attestation.csr.as_str()) {
            Ok(c) => c,
            Err(e) => {
                return Err(e);
            },
        };
        let ghost old_entries = self.registered_identities@;
        let attested = self.registered_identities[i].status.attest();
        proof {
            let e2 = self.registered_identities@[i as int];
            assert(self.registered_identities@ == old_entries.update(i as int, e2));
            lemma_identities_of_update(old_entries, i as int, e2);
        }
        match attested {
            Ok(_) => Ok(Response { crt }),
            Err(e) => Err(e),
        }
    }
}

impl AccessControl for Server {
    open spec fn ac_wf(&self) -> bool {
        self.wf()
    }

    /// Register `id`. A second registration of the same identity fails
    /// and leaves the stored metadata untouched; a first registration
    /// seeds an unregistered session holding the given metadata.
    fn register_user(&mut self, id: &str, policy_ids: Vec<String>, allowed_resources: Vec<
        String,
    >) -> (r: Result<(), Error>)
        ensures
            final(self).spec_timeout() == old(self).spec_timeout(),
            final(self).spec_ca() == old(self).spec_ca(),
            final(self).spec_attestation_service() == old(self).spec_attestation_service(),
            old(self).identities().contains_key(id@) ==> ((r matches Err(e)
                && e matches Error::AlreadyRegistered) && final(self).identities() == old(self).identities()),
            !old(self).identities().contains_key(id@) ==> (r is Ok && final(self).identities()
                == old(self).identities().insert(id@, EntryView {
                metadata: MetadataView {
                    policy_ids: policy_ids.deep_view(),
                    allowed_resources: allowed_resources.deep_view().to_set(),
                },
                status: SessionView::UnRegistered { id: id@ },
            })),
    {
        let key: String = id.to_owned();
        let idx = find_index(&self.registered_identities, &key);
        proof {
            lemma_identities_of_contains(self.registered_identities@, key@);
        }
        if idx.is_some() {
            return Err(Error::AlreadyRegistered);
        }
        let ghost old_entries = self.registered_identities@;
        let status = SessionStatus::UnRegistered { id: key.clone() };
        let entry = RegistryEntry {
            id: key,
            metadata: Metadata { policy_ids, allowed_resources },
            status,
        };
        self.registered_identities.push(entry);
        proof {
            assert(self.registered_identities@.drop_last() =~= old_entries);
            assert(distinct_ids(self.registered_identities@)) by {
                assert(forall|m: int|
                    0 <= m < old_entries.len() ==> self.registered_identities@[m].id@
                        == old_entries[m].id@);
            }
        }
        Ok(())
    }

    /// Hand out `rid` to `id`: only a registered identity may ask, and
    /// only for a resource in its own allowed set. Retrieval itself is
    /// the resource store's affair; this stub store is empty.
    fn get_resource(&self, rid: &str, id: &str) -> (r: Result<Vec<u8>, Error>)
        ensures
            r is Ok <==> (self.identities().contains_key(id@)
                && self.identities()[id@].metadata.allowed_resources.contains(rid@)),
            !self.identities().contains_key(id@) ==> (r matches Err(e)
                && e matches Error::UnknownIdentity),
            (self.identities().contains_key(id@)
                && !self.identities()[id@].metadata.allowed_resources.contains(rid@)) ==> (
            r matches Err(e) && e matches Error::NotAuthorized),
            r matches Ok(b) ==> b@ == Seq::<u8>::empty(),
    {
        let key: String = id.to_owned();
        let idx = find_index(&self.registered_identities, &key);
        proof {
            lemma_identities_of_contains(self.registered_identities@, key@);
        }
        let i = match idx {
            Some(i) => i,
            None => {
                return Err(Error::UnknownIdentity);
            },
        };
        proof {
            lemma_identities_of_index(self.registered_identities@, i as int);
        }
        let rid_key: String = rid.to_owned();
        if !contains_string(&self.registered_identities[i].metadata.allowed_resources, &rid_key) {
            return Err(Error::NotAuthorized);
        }
        let bytes: Vec<u8> = Vec::new();
        Ok(bytes)
    }
}

/// Once a session stands `Attested`, its challenge is consumed: the
/// attestation sequence is not ready for that identity at any instant.
/// So of two attestation sequences serialized over one outstanding
/// challenge, at most the first succeeds — the second finds the session
/// `Attested` and fails — until a new challenge is minted.
pub proof fn lemma_attested_session_single_use(e: EntryView, now: int)
    ensures
        e.status is Attested ==> !attestation_ready(e, now),
{
}

} // verus!
