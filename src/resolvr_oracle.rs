//! An oracle that keeps its events in memory: it announces events, attests each one at
//! most once, and serves both back by event id.
use vstd::prelude::*;

use secp256k1_zkp::{KeyPair, XOnlyPublicKey};

use crate::bounty::BountyOutcome;
use crate::crypto::{hex_encode, hex_of, keypair_public_key, keypair_public_key_of, random_bytes};
use crate::event::announcement_verifies;
use crate::event::{
    announce, attest_outcome, nonce_count, strings_view, EventDescriptor, OracleAnnouncement,
    OracleAttestation, OracleError, OracleRecord,
};
use crate::keys::KeyStore;
use crate::store::{lemma_update_value, KeyedStore};

verus! {

/// The events of an oracle whose key pair is `kp` are as it announced them, each under its
/// own id.
pub open spec fn events_wf(events: Map<Seq<char>, OracleRecord>, kp: KeyPair) -> bool {
    forall|k: Seq<char>| #[trigger] events.contains_key(k) ==> {
        &&& events[k].well_formed(kp)
        &&& events[k].spec_announcement().oracle_event.event_id@ == k
    }
}

/// What looking up the announcement of `id` in `events` gives.
pub open spec fn announcement_lookup(events: Map<Seq<char>, OracleRecord>, id: Seq<char>) -> Result<
    OracleAnnouncement,
    OracleError,
> {
    if events.contains_key(id) {
        Ok(events[id].spec_announcement())
    } else {
        Err(OracleError::NotFound)
    }
}

/// What looking up the attestation of `id` in `events` gives: unknown ids and events not
/// attested yet are told apart.
pub open spec fn attestation_lookup(events: Map<Seq<char>, OracleRecord>, id: Seq<char>) -> Result<
    OracleAttestation,
    OracleError,
> {
    if !events.contains_key(id) {
        Err(OracleError::NotFound)
    } else {
        match events[id].spec_attestation() {
            Some(a) => Ok(a),
            None => Err(OracleError::NotYetAttested),
        }
    }
}

/// `new` is `old` after attesting `outcomes` for `id` with key pair `kp`, with result `r`.
pub open spec fn attest_effect(
    old: Map<Seq<char>, OracleRecord>,
    id: Seq<char>,
    outcomes: Seq<Seq<char>>,
    kp: KeyPair,
    new: Map<Seq<char>, OracleRecord>,
    r: Result<(), OracleError>,
) -> bool {
    if old.contains_key(id) {
        &&& new.contains_key(id)
        &&& attest_outcome(old[id], outcomes, kp, new[id], r)
        &&& new == old.insert(id, new[id])
    } else {
        r == Err::<(), OracleError>(OracleError::NotFound) && new == old
    }
}

/// `new` is `old` after an oracle with key pair `kp` announced an event under `id` with the
/// given descriptor and maturity, with result `r`: an id that is taken already is refused.
pub open spec fn announce_effect(
    old: Map<Seq<char>, OracleRecord>,
    id: Seq<char>,
    descriptor: EventDescriptor,
    maturity: u32,
    kp: KeyPair,
    new: Map<Seq<char>, OracleRecord>,
    r: Result<(), OracleError>,
) -> bool {
    if old.contains_key(id) {
        r == Err::<(), OracleError>(OracleError::AlreadyExists) && new == old
    } else {
        &&& r is Ok
        &&& new.contains_key(id)
        &&& new == old.insert(id, new[id])
        &&& new[id].well_formed(kp)
        &&& new[id].spec_attestation() is None
        &&& new[id].spec_announcement().oracle_event.event_id@ == id
        &&& new[id].spec_announcement().oracle_event.event_descriptor == descriptor
        &&& new[id].spec_announcement().oracle_event.event_maturity_epoch == maturity
    }
}

/// The nonce count of the event under `id` in well-formed `events`.
pub open spec fn event_nonce_count(events: Map<Seq<char>, OracleRecord>, id: Seq<char>) -> nat {
    nonce_count(events[id].spec_announcement().oracle_event.event_descriptor)
}

/// An event attested with `first` keeps that attestation: attesting it again, with any
/// outcomes, changes no event, and the attestation served is still the one of `first`.
pub proof fn lemma_exactly_once_attestation(
    e0: Map<Seq<char>, OracleRecord>,
    e1: Map<Seq<char>, OracleRecord>,
    e2: Map<Seq<char>, OracleRecord>,
    id: Seq<char>,
    first: Seq<Seq<char>>,
    second: Seq<Seq<char>>,
    kp: KeyPair,
    r1: Result<(), OracleError>,
    r2: Result<(), OracleError>,
)
    requires
        events_wf(e0, kp),
        e0.contains_key(id),
        e0[id].spec_attestation() is None,
        first.len() == event_nonce_count(e0, id),
        attest_effect(e0, id, first, kp, e1, r1),
        attest_effect(e1, id, second, kp, e2, r2),
    ensures
        r1 is Ok,
        e2 == e1,
        attestation_lookup(e2, id) matches Ok(a) && strings_view(a.outcomes@) == first,
{
    assert(e1[id].secret_nonces() == e0[id].secret_nonces());
    if second.len() != e1[id].secret_nonces().len() {
        assert(e2 == e1.insert(id, e1[id]));
    }
    assert(e2 =~= e1);
}

/// Attesting the same outcomes twice succeeds both times and leaves the stored attestation,
/// signatures included, as the first call left it.
pub proof fn lemma_idempotent_retry(
    e0: Map<Seq<char>, OracleRecord>,
    e1: Map<Seq<char>, OracleRecord>,
    e2: Map<Seq<char>, OracleRecord>,
    id: Seq<char>,
    outcomes: Seq<Seq<char>>,
    kp: KeyPair,
    r1: Result<(), OracleError>,
    r2: Result<(), OracleError>,
)
    requires
        events_wf(e0, kp),
        e0.contains_key(id),
        outcomes.len() == event_nonce_count(e0, id),
        attest_effect(e0, id, outcomes, kp, e1, r1),
        attest_effect(e1, id, outcomes, kp, e2, r2),
    ensures
        r1 is Ok,
        r2 is Ok,
        e2 == e1,
        attestation_lookup(e2, id) == attestation_lookup(e1, id),
{
    assert(e1[id].secret_nonces() == e0[id].secret_nonces());
    assert(e2 =~= e1);
}

/// A newly announced event has no attestation: asking for it gives `NotYetAttested`.
pub proof fn lemma_no_premature_attestation(
    e0: Map<Seq<char>, OracleRecord>,
    e1: Map<Seq<char>, OracleRecord>,
    id: Seq<char>,
    descriptor: EventDescriptor,
    maturity: u32,
    kp: KeyPair,
    r: Result<(), OracleError>,
)
    requires
        announce_effect(e0, id, descriptor, maturity, kp, e1, r),
        r is Ok,
    ensures
        attestation_lookup(e1, id) == Err::<OracleAttestation, OracleError>(OracleError::NotYetAttested),
{
}

/// Attesting refuses, with `InvalidState` and no change, any number of outcomes other than
/// the event's nonce count: one for an enumerated event, one per digit for a digit
/// decomposition event.
pub proof fn lemma_nonce_count_matches_descriptor(
    e0: Map<Seq<char>, OracleRecord>,
    e1: Map<Seq<char>, OracleRecord>,
    id: Seq<char>,
    outcomes: Seq<Seq<char>>,
    kp: KeyPair,
    r: Result<(), OracleError>,
)
    requires
        events_wf(e0, kp),
        e0.contains_key(id),
        attest_effect(e0, id, outcomes, kp, e1, r),
    ensures
        outcomes.len() != event_nonce_count(e0, id) ==> r == Err::<(), OracleError>(
            OracleError::InvalidState,
        ) && e1 == e0,
        outcomes.len() == event_nonce_count(e0, id) ==> r is Ok,
        e0[id].spec_announcement().oracle_event.event_descriptor is EnumEvent && outcomes.len() != 1
            ==> r == Err::<(), OracleError>(OracleError::InvalidState),
{
    if outcomes.len() != event_nonce_count(e0, id) {
        assert(e1 =~= e0);
    }
}

pub struct ResolvrOracle {
    keys: KeyStore,
    events: KeyedStore<OracleRecord>,
}

impl ResolvrOracle {
    /// The oracle's key pair.
    pub closed spec fn keypair(&self) -> KeyPair {
        self.keys.spec_keypair().unwrap()
    }

    /// The oracle's events, by id.
    pub closed spec fn events(&self) -> Map<Seq<char>, OracleRecord> {
        self.events@
    }

    /// A held key pair, distinct keys in the store, and every event as `events_wf` says.
    pub closed spec fn wf(&self) -> bool {
        &&& self.keys.spec_keypair() is Some
        &&& self.events.wf()
        &&& events_wf(self.events@, self.keypair())
    }

    /// The events of a well-formed oracle are as it announced them.
    pub proof fn lemma_events_wf(&self)
        requires
            self.wf(),
        ensures
            events_wf(self.events(), self.keypair()),
    {
    }

    /// An oracle with a fresh key pair and no events.
    pub fn new_from_generated_keypair() -> (r: Self)
        ensures
            r.wf(),
            r.events() == Map::<Seq<char>, OracleRecord>::empty(),
    {
        let mut keys = KeyStore::new();
        keys.ensure_keypair();
        ResolvrOracle { keys, events: KeyedStore::new() }
    }

    pub fn get_public_key(&self) -> (r: XOnlyPublicKey)
        requires
            self.wf(),
        ensures
            r == keypair_public_key_of(self.keypair()),
    {
        let kp = self.keys.keypair().unwrap();
        keypair_public_key(&kp)
    }

    /// Announces an event under `event_id`; an id that is taken already is refused.
    pub fn add_event(
        &mut self,
        event_id: &str,
        event_descriptor: EventDescriptor,
        event_maturity_epoch: u32,
    ) -> (r: Result<(), OracleError>)
        requires
            old(self).wf(),
        ensures
            final(self).wf(),
            final(self).keypair() == old(self).keypair(),
            announce_effect(
                old(self).events(),
                event_id@,
                event_descriptor,
                event_maturity_epoch,
                old(self).keypair(),
                final(self).events(),
                r,
            ),
    {
        if self.events.index_of(event_id).is_some() {
            return Err(OracleError::AlreadyExists);
        }
        let kp = self.keys.keypair().unwrap();
        let id = String::from_str(event_id);
        let record = announce(&kp, id, event_descriptor, event_maturity_epoch);
        let ghost rec = record;
        let inserted = self.events.insert_if_absent(String::from_str(event_id), record);
        proof {
            assert(inserted);
            assert(self.events@ == old(self).events@.insert(event_id@, rec));
            assert(self.events@[event_id@] == rec);
        }
        Ok(())
    }

    /// Announces an event under a fresh random id, 32 bytes in hex, and returns the id.
    /// Should the id be taken already, which only a broken random generator would bring about,
    /// the announcement is refused.
    pub fn create_announcement(
        &mut self,
        event_descriptor: EventDescriptor,
        event_maturity_epoch: u32,
    ) -> (r: Result<String, OracleError>)
        requires
            old(self).wf(),
        ensures
            final(self).wf(),
            final(self).keypair() == old(self).keypair(),
            (forall|k: Seq<char>| #[trigger] old(self).events().contains_key(k) ==> k.len() != 64)
                ==> r is Ok,
            r matches Ok(id) ==> {
                &&& id@.len() == 64
                &&& exists|b: Seq<u8>| b.len() == 32 && id@ == hex_of(b)
                &&& !old(self).events().contains_key(id@)
                &&& announce_effect(
                    old(self).events(),
                    id@,
                    event_descriptor,
                    event_maturity_epoch,
                    old(self).keypair(),
                    final(self).events(),
                    Ok(()),
                )
                &&& announcement_verifies(final(self).events()[id@].spec_announcement())
            },
            r matches Err(e) ==> {
                &&& e == OracleError::AlreadyExists
                &&& final(self).events() == old(self).events()
                &&& exists|k: Seq<char>| #[trigger] old(self).events().contains_key(k) && k.len() == 64
            },
    {
        let id = Self::generate_new_event_id();
        let r = self.add_event(id.as_str(), event_descriptor, event_maturity_epoch);
        proof {
            if r is Ok {
                assert(events_wf(self.events@, self.keypair()));
                assert(self.events@.contains_key(id@));
            } else {
                assert(old(self).events().contains_key(id@));
            }
        }
        match r {
            Ok(()) => Ok(id),
            Err(e) => Err(e),
        }
    }

    /// A fresh event id: 32 random bytes in lower-case hex.
    fn generate_new_event_id() -> (r: String)
        ensures
            r@.len() == 64,
            exists|b: Seq<u8>| b.len() == 32 && r@ == hex_of(b),
    {
        let bytes = random_bytes();
        let r = hex_encode(&bytes);
        assert(hex_of(bytes@).len() == 64);
        r
    }

    /// Attests `outcomes` for `event_id`, one per committed nonce. An event that is attested
    /// already keeps its attestation, and the call still succeeds.
    pub fn add_attestation(&mut self, event_id: &str, outcomes: &Vec<String>) -> (r: Result<
        (),
        OracleError,
    >)
        requires
            old(self).wf(),
        ensures
            final(self).wf(),
            final(self).keypair() == old(self).keypair(),
            attest_effect(
                old(self).events(),
                event_id@,
                strings_view(outcomes@),
                old(self).keypair(),
                final(self).events(),
                r,
            ),
    {
        let kp = self.keys.keypair().unwrap();
        let i = match self.events.index_of(event_id) {
            Some(i) => i,
            None => {
                return Err(OracleError::NotFound);
            },
        };
        let ghost entries = self.events.spec_entries();
        let record = self.events.value_mut_at(i);
        let r = record.attest(&kp, outcomes);
        proof {
            lemma_update_value(entries, i as int, self.events.spec_entries()[i as int].1);
        }
        r
    }

    /// Attests the outcome of a bounty event.
    pub fn create_attestation(&mut self, event_id: &str, outcome: BountyOutcome) -> (r: Result<
        (),
        OracleError,
    >)
        requires
            old(self).wf(),
        ensures
            final(self).wf(),
            final(self).keypair() == old(self).keypair(),
            attest_effect(
                old(self).events(),
                event_id@,
                seq![crate::bounty::outcome_message(outcome)],
                old(self).keypair(),
                final(self).events(),
                r,
            ),
    {
        let mut outcomes: Vec<String> = Vec::new();
        outcomes.push(outcome.to_string());
        assert(strings_view(outcomes@) =~= seq![crate::bounty::outcome_message(outcome)]);
        self.add_attestation(event_id, &outcomes)
    }

    pub fn get_announcement(&self, event_id: &str) -> (r: Result<&OracleAnnouncement, OracleError>)
        requires
            self.wf(),
        ensures
            announcement_lookup(self.events(), event_id@) == match r {
                Ok(a) => Ok(*a),
                Err(e) => Err::<OracleAnnouncement, OracleError>(e),
            },
    {
        match self.events.get(event_id) {
            Some(record) => Ok(record.announcement()),
            None => Err(OracleError::NotFound),
        }
    }

    pub fn get_attestation(&self, event_id: &str) -> (r: Result<&OracleAttestation, OracleError>)
        requires
            self.wf(),
        ensures
            attestation_lookup(self.events(), event_id@) == match r {
                Ok(a) => Ok(*a),
                Err(e) => Err::<OracleAttestation, OracleError>(e),
            },
    {
        match self.events.get(event_id) {
            Some(record) => match record.attestation() {
                Some(a) => Ok(a),
                None => Err(OracleError::NotYetAttested),
            },
            None => Err(OracleError::NotFound),
        }
    }
}

} // verus!
