//! Oracle events: what is announced, what is attested, and the record the oracle keeps
//! of each event; the announcing and attesting of one record.
use vstd::prelude::*;

use dlc_messages::oracle_msgs as wire;
use lightning::util::ser::Writeable;
use secp256k1_zkp::schnorr::Signature;
use secp256k1_zkp::{KeyPair, Message, SecretKey, XOnlyPublicKey};
use vstd::utf8::encode_utf8;

use crate::crypto::{
    generate_secret_key, keypair_public_key, keypair_public_key_of, nonce_signature_of,
    schnorr_verifies, secret_public_key, secret_public_key_of, sha256_message, sha256_message_of,
    sign_schnorr, sign_with_nonce, verify_schnorr,
};

verus! {

/// What can go wrong in the oracle's operations.
#[derive(Clone, Copy, Debug, PartialEq, Eq, Structural)]
pub enum OracleError {
    /// No event or request is held under the id.
    NotFound,
    /// The event is announced but has no attestation yet.
    NotYetAttested,
    /// Something is already held under the id.
    AlreadyExists,
    /// The request or the outcomes do not fit the state the id is in.
    InvalidState,
    /// The persisted data carry another schema version.
    SchemaVersionMismatch,
    /// The persistence engine failed.
    StorageUnavailable,
}

pub struct EnumEventDescriptor {
    /// The possible outcomes of the event.
    pub outcomes: Vec<String>,
}

pub struct DigitDecompositionEventDescriptor {
    /// The base in which the outcome is written.
    pub base: u16,
    /// Whether the outcome value is signed.
    pub is_signed: bool,
    /// The unit of the outcome.
    pub unit: String,
    /// The precision of the outcome.
    pub precision: i32,
    /// The number of digits of the outcome, each attested with a nonce of its own.
    pub nb_digits: u16,
}

/// The outcome space of an event.
pub enum EventDescriptor {
    EnumEvent(EnumEventDescriptor),
    DigitDecompositionEvent(DigitDecompositionEventDescriptor),
}

/// How many nonces an event with this descriptor commits to.
pub open spec fn nonce_count(d: EventDescriptor) -> nat {
    match d {
        EventDescriptor::EnumEvent(_) => 1,
        EventDescriptor::DigitDecompositionEvent(dd) => dd.nb_digits as nat,
    }
}

/// The part of an announcement that the oracle signs.
pub struct OracleEvent {
    /// The nonce points the outcome signatures will be made with, in order.
    pub oracle_nonces: Vec<XOnlyPublicKey>,
    /// When the outcome is expected, in seconds since the Unix epoch.
    pub event_maturity_epoch: u32,
    pub event_descriptor: EventDescriptor,
    pub event_id: String,
}

pub struct OracleAnnouncement {
    /// The oracle's signature over the encoded event.
    pub announcement_signature: Signature,
    pub oracle_public_key: XOnlyPublicKey,
    pub oracle_event: OracleEvent,
}

pub struct OracleAttestation {
    pub oracle_public_key: XOnlyPublicKey,
    /// One signature per outcome, each made with the announced nonce of the same position.
    pub signatures: Vec<Signature>,
    pub outcomes: Vec<String>,
}

/// The record the oracle keeps of one event. The nonce secrets never leave it but
/// to be persisted.
pub struct OracleRecord {
    announcement: OracleAnnouncement,
    nonces: Vec<SecretKey>,
    attestation: Option<OracleAttestation>,
}

/// `points` are the public points of `secrets`, position by position.
pub open spec fn nonces_committed(secrets: Seq<SecretKey>, points: Seq<XOnlyPublicKey>) -> bool {
    &&& points.len() == secrets.len()
    &&& forall|i: int| 0 <= i < secrets.len() ==> points[i] == secret_public_key_of(#[trigger] secrets[i])
}

/// The signature of `outcome` made by `kp` with nonce secret `nonce`.
pub open spec fn outcome_signature(outcome: Seq<char>, kp: KeyPair, nonce: SecretKey) -> Signature {
    nonce_signature_of(outcome_message(outcome), kp, nonce)
}

/// The strings of `v`, as character sequences.
pub open spec fn strings_view(v: Seq<String>) -> Seq<Seq<char>> {
    v.map_values(|s: String| s@)
}

/// `a` attests `outcomes`, each signed by `kp` with the nonce secret of the same position.
pub open spec fn attests(a: OracleAttestation, outcomes: Seq<Seq<char>>, nonces: Seq<SecretKey>, kp: KeyPair) -> bool {
    &&& a.oracle_public_key == keypair_public_key_of(kp)
    &&& strings_view(a.outcomes@) == outcomes
    &&& a.signatures@.len() == outcomes.len()
    &&& forall|i: int| 0 <= i < outcomes.len() ==> #[trigger] a.signatures@[i] == outcome_signature(outcomes[i], kp, nonces[i])
    &&& forall|i: int| 0 <= i < outcomes.len() ==> schnorr_verifies(
        #[trigger] a.signatures@[i],
        outcome_message(outcomes[i]),
        keypair_public_key_of(kp),
    )
}

/// The message an outcome signature signs: the SHA-256 digest of the outcome's UTF-8 bytes.
pub open spec fn outcome_message(outcome: Seq<char>) -> Message {
    sha256_message_of(encode_utf8(outcome))
}

/// The wire encoding of an oracle event, which its announcement signature covers.
pub uninterp spec fn oracle_event_encoding_of(event: OracleEvent) -> Seq<u8>;

/// The message an announcement signature signs: the SHA-256 digest of the encoded event.
pub open spec fn event_message(event: OracleEvent) -> Message {
    sha256_message_of(oracle_event_encoding_of(event))
}

/// The announcement is signed, over its encoded event, by its own public key.
pub open spec fn announcement_verifies(a: OracleAnnouncement) -> bool {
    schnorr_verifies(a.announcement_signature, event_message(a.oracle_event), a.oracle_public_key)
}

/// What attesting `outcomes` does to record `old`, giving `new` and result `r`: outcomes
/// that do not match the committed nonces one for one are refused; a record that is attested
/// already stays as it is; otherwise the attestation is set and the rest stays.
pub open spec fn attest_outcome(
    old: OracleRecord,
    outcomes: Seq<Seq<char>>,
    kp: KeyPair,
    new: OracleRecord,
    r: Result<(), OracleError>,
) -> bool {
    if outcomes.len() != old.secret_nonces().len() {
        r == Err::<(), OracleError>(OracleError::InvalidState) && new == old
    } else if old.spec_attestation() is Some {
        r == Ok::<(), OracleError>(()) && new == old
    } else {
        &&& r == Ok::<(), OracleError>(())
        &&& new.spec_announcement() == old.spec_announcement()
        &&& new.secret_nonces() == old.secret_nonces()
        &&& new.spec_attestation() matches Some(a) && attests(a, outcomes, old.secret_nonces(), kp)
    }
}

impl OracleRecord {
    /// The nonce secrets committed in the announcement.
    pub closed spec fn secret_nonces(&self) -> Seq<SecretKey> {
        self.nonces@
    }

    pub closed spec fn spec_announcement(&self) -> OracleAnnouncement {
        self.announcement
    }

    pub closed spec fn spec_attestation(&self) -> Option<OracleAttestation> {
        self.attestation
    }

    /// The record as announced by the oracle with key pair `kp`: one nonce per the
    /// descriptor, committed in the announcement, and an attestation only as `attest` makes it.
    pub open spec fn well_formed(&self, kp: KeyPair) -> bool {
        &&& self.spec_announcement().oracle_public_key == keypair_public_key_of(kp)
        &&& announcement_verifies(self.spec_announcement())
        &&& self.secret_nonces().len() == nonce_count(
            self.spec_announcement().oracle_event.event_descriptor,
        )
        &&& nonces_committed(self.secret_nonces(), self.spec_announcement().oracle_event.oracle_nonces@)
        &&& self.spec_attestation() matches Some(a) ==> {
            &&& a.outcomes@.len() == self.secret_nonces().len()
            &&& attests(a, strings_view(a.outcomes@), self.secret_nonces(), kp)
        }
    }

    /// Puts a record back together from its persisted parts.
    pub fn from_parts(
        announcement: OracleAnnouncement,
        nonces: Vec<SecretKey>,
        attestation: Option<OracleAttestation>,
    ) -> (r: Self)
        ensures
            r.spec_announcement() == announcement,
            r.secret_nonces() == nonces@,
            r.spec_attestation() == attestation,
    {
        OracleRecord { announcement, nonces, attestation }
    }

    pub fn announcement(&self) -> (r: &OracleAnnouncement)
        ensures
            *r == self.spec_announcement(),
    {
        &self.announcement
    }

    pub fn attestation(&self) -> (r: &Option<OracleAttestation>)
        ensures
            *r == self.spec_attestation(),
    {
        &self.attestation
    }

    /// The nonce secrets, for persisting the record.
    pub fn nonces(&self) -> (r: &Vec<SecretKey>)
        ensures
            r@ == self.secret_nonces(),
    {
        &self.nonces
    }
}

/// In a record announced by the oracle with key pair `kp`, the announcement signature verifies
/// against the oracle's public key over the encoded event, and each attestation signature
/// verifies against that key over its outcome, made with the secret of the nonce point
/// announced at the same position.
pub proof fn lemma_signatures_verify(rec: OracleRecord, kp: KeyPair)
    requires
        rec.well_formed(kp),
    ensures
        announcement_verifies(rec.spec_announcement()),
        rec.spec_announcement().oracle_public_key == keypair_public_key_of(kp),
        rec.spec_attestation() matches Some(a) ==> {
            &&& a.oracle_public_key == keypair_public_key_of(kp)
            &&& a.signatures@.len() == a.outcomes@.len()
            &&& a.outcomes@.len() == rec.spec_announcement().oracle_event.oracle_nonces@.len()
            &&& forall|i: int| 0 <= i < a.outcomes@.len() ==> {
                &&& schnorr_verifies(
                    #[trigger] a.signatures@[i],
                    outcome_message(a.outcomes@[i]@),
                    keypair_public_key_of(kp),
                )
                &&& a.signatures@[i] == outcome_signature(a.outcomes@[i]@, kp, rec.secret_nonces()[i])
                &&& secret_public_key_of(rec.secret_nonces()[i])
                    == rec.spec_announcement().oracle_event.oracle_nonces@[i]
            }
        },
{
    if rec.spec_attestation() is Some {
        let a = rec.spec_attestation()->Some_0;
        assert forall|i: int| 0 <= i < a.outcomes@.len() implies {
            &&& schnorr_verifies(
                #[trigger] a.signatures@[i],
                outcome_message(a.outcomes@[i]@),
                keypair_public_key_of(kp),
            )
            &&& a.signatures@[i] == outcome_signature(a.outcomes@[i]@, kp, rec.secret_nonces()[i])
            &&& secret_public_key_of(rec.secret_nonces()[i])
                == rec.spec_announcement().oracle_event.oracle_nonces@[i]
        } by {
            assert(strings_view(a.outcomes@)[i] == a.outcomes@[i]@);
            assert(secret_public_key_of(rec.secret_nonces()[i])
                == rec.spec_announcement().oracle_event.oracle_nonces@[i]);
        }
    }
}

/// Relies on `Writeable::write` of `dlc_messages::oracle_msgs::OracleEvent`: the event's
/// wire encoding, which the announcement signature covers.
#[verifier::external_body]
fn oracle_event_bytes(event: &OracleEvent) -> (r: Vec<u8>)
    ensures
        r@ == oracle_event_encoding_of(*event),
{
    let event_descriptor = match &event.event_descriptor {
        EventDescriptor::EnumEvent(e) => wire::EventDescriptor::EnumEvent(
            wire::EnumEventDescriptor { outcomes: e.outcomes.clone() },
        ),
        EventDescriptor::DigitDecompositionEvent(d) => wire::EventDescriptor::DigitDecompositionEvent(
            wire::DigitDecompositionEventDescriptor { base: d.base, is_signed: d.is_signed, unit: d.unit.clone(), precision: d.precision, nb_digits: d.nb_digits },
        ),
    };
    let wire_event = wire::OracleEvent { oracle_nonces: event.oracle_nonces.clone(), event_maturity_epoch: event.event_maturity_epoch, event_descriptor, event_id: event.event_id.clone() };
    let mut bytes = Vec::new();
    wire_event.write(&mut bytes).expect("writing to a Vec does not fail");
    bytes
}

/// Whether the announcement's signature verifies, over its encoded event, against the public
/// key it names.
pub fn verify_announcement(announcement: &OracleAnnouncement) -> (r: bool)
    ensures
        r == announcement_verifies(*announcement),
{
    let bytes = oracle_event_bytes(&announcement.oracle_event);
    let msg = sha256_message(bytes.as_slice());
    verify_schnorr(&announcement.announcement_signature, &msg, &announcement.oracle_public_key)
}

/// How many nonces an event with `descriptor` commits to.
pub fn nb_nonces(descriptor: &EventDescriptor) -> (r: usize)
    ensures
        r == nonce_count(*descriptor),
{
    match descriptor {
        EventDescriptor::EnumEvent(_) => 1,
        EventDescriptor::DigitDecompositionEvent(d) => d.nb_digits as usize,
    }
}

/// Draws fresh nonce secrets, as many as the descriptor asks for, with their public points.
pub fn generate_nonces_for_event(descriptor: &EventDescriptor) -> (r: (
    Vec<SecretKey>,
    Vec<XOnlyPublicKey>,
))
    ensures
        r.0@.len() == nonce_count(*descriptor),
        nonces_committed(r.0@, r.1@),
{
    let n = nb_nonces(descriptor);
    let mut secrets: Vec<SecretKey> = Vec::new();
    let mut points: Vec<XOnlyPublicKey> = Vec::new();
    let mut i: usize = 0;
    while i < n
        invariant
            i <= n,
            secrets@.len() == i,
            nonces_committed(secrets@, points@),
        decreases n - i,
    {
        let sk = generate_secret_key();
        let point = secret_public_key(&sk);
        secrets.push(sk);
        points.push(point);
        proof {
            assert(secrets@[i as int] == sk);
        }
        i = i + 1;
    }
    (secrets, points)
}

/// Announces an event: commits fresh nonces, signs the encoded event with `kp`, and
/// returns the record with no attestation.
pub fn announce(
    kp: &KeyPair,
    event_id: String,
    event_descriptor: EventDescriptor,
    event_maturity_epoch: u32,
) -> (r: OracleRecord)
    ensures
        r.well_formed(*kp),
        r.spec_attestation() is None,
        r.spec_announcement().oracle_event.event_id == event_id,
        r.spec_announcement().oracle_event.event_descriptor == event_descriptor,
        r.spec_announcement().oracle_event.event_maturity_epoch == event_maturity_epoch,
{
    let (nonces, oracle_nonces) = generate_nonces_for_event(&event_descriptor);
    let oracle_event = OracleEvent { oracle_nonces, event_maturity_epoch, event_descriptor, event_id };
    let event_bytes = oracle_event_bytes(&oracle_event);
    let msg = sha256_message(event_bytes.as_slice());
    let announcement_signature = sign_schnorr(&msg, kp);
    let announcement = OracleAnnouncement {
        announcement_signature,
        oracle_public_key: keypair_public_key(kp),
        oracle_event,
    };
    OracleRecord { announcement, nonces, attestation: None }
}

/// Copies a list of strings.
fn copy_strings(v: &Vec<String>) -> (r: Vec<String>)
    ensures
        r@ == v@,
{
    let mut r: Vec<String> = Vec::new();
    let mut i: usize = 0;
    while i < v.len()
        invariant
            i <= v@.len(),
            r@ == v@.subrange(0, i as int),
        decreases v@.len() - i,
    {
        r.push(v[i].clone());
        proof {
            assert(v@.subrange(0, i + 1) =~= v@.subrange(0, i as int).push(v@[i as int]));
        }
        i = i + 1;
    }
    proof {
        assert(v@.subrange(0, v@.len() as int) =~= v@);
    }
    r
}

/// Signs each outcome with `kp` and the nonce secret of the same position.
fn sign_outcomes(kp: &KeyPair, outcomes: &Vec<String>, nonces: &Vec<SecretKey>) -> (r: Vec<Signature>)
    requires
        outcomes@.len() == nonces@.len(),
    ensures
        r@.len() == outcomes@.len(),
        forall|i: int| 0 <= i < outcomes@.len() ==> #[trigger] r@[i] == outcome_signature(outcomes@[i]@, *kp, nonces@[i]),
        forall|i: int| 0 <= i < outcomes@.len() ==> schnorr_verifies(
            #[trigger] r@[i],
            outcome_message(outcomes@[i]@),
            keypair_public_key_of(*kp),
        ),
{
    let mut r: Vec<Signature> = Vec::new();
    let mut i: usize = 0;
    while i < outcomes.len()
        invariant
            i <= outcomes@.len(),
            outcomes@.len() == nonces@.len(),
            r@.len() == i,
            forall|j: int| 0 <= j < i ==> #[trigger] r@[j] == outcome_signature(outcomes@[j]@, *kp, nonces@[j]),
            forall|j: int| 0 <= j < i ==> schnorr_verifies(
                #[trigger] r@[j],
                outcome_message(outcomes@[j]@),
                keypair_public_key_of(*kp),
            ),
        decreases outcomes@.len() - i,
    {
        let msg = sha256_message(outcomes[i].as_str().as_bytes());
        let sig = sign_with_nonce(&msg, kp, &nonces[i]);
        r.push(sig);
        assert(r@[i as int] == sig);
        i = i + 1;
    }
    r
}

impl OracleRecord {
    /// Attests `outcomes`, one per committed nonce. The first attestation stays: on a record
    /// that is attested already nothing is signed and nothing changes.
    pub fn attest(&mut self, kp: &KeyPair, outcomes: &Vec<String>) -> (r: Result<(), OracleError>)
        ensures
            attest_outcome(*old(self), strings_view(outcomes@), *kp, *final(self), r),
            old(self).well_formed(*kp) ==> final(self).well_formed(*kp),
    {
        if outcomes.len() != self.nonces.len() {
            return Err(OracleError::InvalidState);
        }
        if self.attestation.is_none() {
            let signatures = sign_outcomes(kp, outcomes, &self.nonces);
            let copied = copy_strings(outcomes);
            let attestation = OracleAttestation {
                oracle_public_key: keypair_public_key(kp),
                signatures,
                outcomes: copied,
            };
            self.attestation = Some(attestation);
        }
        Ok(())
    }
}

} // verus!
