//! An escrow agent's oracle: bounty events are announced only once an adjudicator approves the
//! adjudication request filed for them, and are then attested like any oracle event.
use vstd::prelude::*;

use secp256k1_zkp::{KeyPair, XOnlyPublicKey};

use crate::bounty::{bounty_event_descriptor, is_bounty_descriptor};
use crate::crypto::{keypair_public_key, keypair_public_key_of};
use crate::event::{
    announce, attest_outcome, strings_view, OracleAnnouncement, OracleAttestation, OracleError,
    OracleRecord,
};
use crate::keys::KeyStore;
use crate::messages::{
    AdjudicationRequest, AdjudicationRequestState, AdjudicationRequestStatus, BountyTemplate,
    EscrowAgent,
};
use crate::store::{lemma_update_value, KeyedStore};

verus! {

/// Where a request stands; an approved one holds the oracle event announced for it.
pub enum AdjudicationItemState {
    Approved(OracleRecord),
    Denied,
    InReview,
}

/// A filed adjudication request with its review state.
pub struct AdjudicationItem {
    pub bounty_template: BountyTemplate,
    pub adjudication_state: AdjudicationItemState,
}

pub open spec fn item_state(item: AdjudicationItem) -> AdjudicationRequestState {
    match item.adjudication_state {
        AdjudicationItemState::Approved(_) => AdjudicationRequestState::Approved,
        AdjudicationItemState::Denied => AdjudicationRequestState::Denied,
        AdjudicationItemState::InReview => AdjudicationRequestState::InReview,
    }
}

impl AdjudicationItem {
    /// The request's status: its event id and its state.
    pub fn status(&self) -> (r: AdjudicationRequestStatus)
        ensures
            r.oracle_event_id@ == self.bounty_template.oracle_event_id@,
            r.adjudication_state == item_state(*self),
    {
        AdjudicationRequestStatus {
            oracle_event_id: self.bounty_template.oracle_event_id.clone(),
            adjudication_state: match &self.adjudication_state {
                AdjudicationItemState::Approved(_) => AdjudicationRequestState::Approved,
                AdjudicationItemState::Denied => AdjudicationRequestState::Denied,
                AdjudicationItemState::InReview => AdjudicationRequestState::InReview,
            },
        }
    }
}

/// The items of an agent whose key pair is `kp`: each under the event id of its template,
/// and each approved one with its event announced under that id.
pub open spec fn items_wf(items: Map<Seq<char>, AdjudicationItem>, kp: KeyPair) -> bool {
    forall|k: Seq<char>| #[trigger] items.contains_key(k) ==> {
        &&& items[k].bounty_template.oracle_event_id@ == k
        &&& items[k].adjudication_state matches AdjudicationItemState::Approved(rec) ==> {
            &&& rec.well_formed(kp)
            &&& rec.spec_announcement().oracle_event.event_id@ == k
        }
    }
}

/// The state of each item.
pub open spec fn states_of(items: Map<Seq<char>, AdjudicationItem>) -> Map<
    Seq<char>,
    AdjudicationRequestState,
> {
    items.map_values(|item: AdjudicationItem| item_state(item))
}

/// Whether a request in state `s` is listed under filter `state_or`.
pub open spec fn listed_under(state_or: Option<AdjudicationRequestState>, s: AdjudicationRequestState) -> bool {
    match state_or {
        Some(f) => s == f,
        None => true,
    }
}

/// Whether a request in state `s` is listed under filter `state_or`.
pub fn is_listed(state_or: Option<AdjudicationRequestState>, s: AdjudicationRequestState) -> (r: bool)
    ensures
        r == listed_under(state_or, s),
{
    match state_or {
        Some(f) => s == f,
        None => true,
    }
}

/// The id and state of each entry that the filter lists, in the order of the entries.
pub open spec fn listing(
    entries: Seq<(Seq<char>, AdjudicationItem)>,
    state_or: Option<AdjudicationRequestState>,
) -> Seq<(Seq<char>, AdjudicationRequestState)>
    decreases entries.len(),
{
    if entries.len() == 0 {
        Seq::empty()
    } else {
        let rest = listing(entries.drop_last(), state_or);
        let last = entries.last();
        if listed_under(state_or, item_state(last.1)) {
            rest.push((last.0, item_state(last.1)))
        } else {
            rest
        }
    }
}

/// The id and state of each status.
pub open spec fn statuses_view(v: Seq<AdjudicationRequestStatus>) -> Seq<(Seq<char>, AdjudicationRequestState)> {
    v.map_values(|s: AdjudicationRequestStatus| (s.oracle_event_id@, s.adjudication_state))
}

/// The announcement of a request: only an approved one has one.
pub open spec fn item_announcement(item: AdjudicationItem) -> Result<OracleAnnouncement, OracleError> {
    match item.adjudication_state {
        AdjudicationItemState::Approved(rec) => Ok(rec.spec_announcement()),
        _ => Err(OracleError::NotFound),
    }
}

/// The attestation of a request: `NotFound` unless it is approved, `NotYetAttested` until its
/// event is attested.
pub open spec fn item_attestation(item: AdjudicationItem) -> Result<OracleAttestation, OracleError> {
    match item.adjudication_state {
        AdjudicationItemState::Approved(rec) => match rec.spec_attestation() {
            Some(a) => Ok(a),
            None => Err(OracleError::NotYetAttested),
        },
        _ => Err(OracleError::NotFound),
    }
}

/// What looking up the announcement of `id` gives.
pub open spec fn escrow_announcement_lookup(items: Map<Seq<char>, AdjudicationItem>, id: Seq<char>) -> Result<
    OracleAnnouncement,
    OracleError,
> {
    if items.contains_key(id) {
        item_announcement(items[id])
    } else {
        Err(OracleError::NotFound)
    }
}

/// What looking up the attestation of `id` gives.
pub open spec fn escrow_attestation_lookup(items: Map<Seq<char>, AdjudicationItem>, id: Seq<char>) -> Result<
    OracleAttestation,
    OracleError,
> {
    if items.contains_key(id) {
        item_attestation(items[id])
    } else {
        Err(OracleError::NotFound)
    }
}

/// `new` is request `old` after a review decision that approves (`approve`) or denies it,
/// with result `r`: only a request in review can be decided. An approval announces the
/// request's event, not attested yet.
pub open spec fn item_decision(
    old: AdjudicationItem,
    approve: bool,
    new: AdjudicationItem,
    r: Result<(), OracleError>,
) -> bool {
    if item_state(old) != AdjudicationRequestState::InReview {
        r == Err::<(), OracleError>(OracleError::InvalidState) && new == old
    } else {
        &&& r is Ok
        &&& new.bounty_template == old.bounty_template
        &&& item_state(new) == if approve {
            AdjudicationRequestState::Approved
        } else {
            AdjudicationRequestState::Denied
        }
        &&& approve ==> new.adjudication_state->Approved_0.spec_attestation() is None
    }
}

/// `new` is the store `old` after a review decision on `id`, with result `r`: an unknown id
/// is `NotFound`, and deciding changes that request alone.
pub open spec fn decide_effect(
    old: Map<Seq<char>, AdjudicationItem>,
    id: Seq<char>,
    approve: bool,
    new: Map<Seq<char>, AdjudicationItem>,
    r: Result<(), OracleError>,
) -> bool {
    if !old.contains_key(id) {
        r == Err::<(), OracleError>(OracleError::NotFound) && new == old
    } else {
        &&& new.contains_key(id)
        &&& new == old.insert(id, new[id])
        &&& item_decision(old[id], approve, new[id], r)
    }
}

/// `new` is request `old` after attesting `outcomes` for its event with key pair `kp`, with
/// result `r`: only an approved request has an event to attest.
pub open spec fn item_attest(
    old: AdjudicationItem,
    outcomes: Seq<Seq<char>>,
    kp: KeyPair,
    new: AdjudicationItem,
    r: Result<(), OracleError>,
) -> bool {
    match old.adjudication_state {
        AdjudicationItemState::Approved(rec) => {
            &&& new.bounty_template == old.bounty_template
            &&& new.adjudication_state is Approved
            &&& attest_outcome(rec, outcomes, kp, new.adjudication_state->Approved_0, r)
        },
        _ => r == Err::<(), OracleError>(OracleError::NotFound) && new == old,
    }
}

/// `new` is the store `old` after attesting `outcomes` for the event of request `id`, with
/// result `r`.
pub open spec fn escrow_attest_effect(
    old: Map<Seq<char>, AdjudicationItem>,
    id: Seq<char>,
    outcomes: Seq<Seq<char>>,
    kp: KeyPair,
    new: Map<Seq<char>, AdjudicationItem>,
    r: Result<(), OracleError>,
) -> bool {
    if old.contains_key(id) {
        &&& new.contains_key(id)
        &&& new == old.insert(id, new[id])
        &&& item_attest(old[id], outcomes, kp, new[id], r)
    } else {
        r == Err::<(), OracleError>(OracleError::NotFound) && new == old
    }
}

impl AdjudicationItem {
    /// Approves the request and announces its bounty event under the request's event id,
    /// maturing at `event_maturity_epoch`. Only a request in review can be approved.
    pub fn approve(&mut self, kp: &KeyPair, event_maturity_epoch: u32) -> (r: Result<(), OracleError>)
        ensures
            item_decision(*old(self), true, *final(self), r),
            r is Ok ==> {
                let rec = final(self).adjudication_state->Approved_0;
                &&& rec.well_formed(*kp)
                &&& rec.spec_announcement().oracle_event.event_id@ == old(self).bounty_template.oracle_event_id@
                &&& is_bounty_descriptor(rec.spec_announcement().oracle_event.event_descriptor)
                &&& rec.spec_announcement().oracle_event.event_maturity_epoch == event_maturity_epoch
            },
    {
        if !matches!(self.adjudication_state, AdjudicationItemState::InReview) {
            return Err(OracleError::InvalidState);
        }
        let record = announce(
            kp,
            self.bounty_template.oracle_event_id.clone(),
            bounty_event_descriptor(),
            event_maturity_epoch,
        );
        self.adjudication_state = AdjudicationItemState::Approved(record);
        Ok(())
    }

    /// Denies the request; no event is ever announced for it. Only a request in review can
    /// be denied.
    pub fn deny(&mut self) -> (r: Result<(), OracleError>)
        ensures
            item_decision(*old(self), false, *final(self), r),
    {
        if !matches!(self.adjudication_state, AdjudicationItemState::InReview) {
            return Err(OracleError::InvalidState);
        }
        self.adjudication_state = AdjudicationItemState::Denied;
        Ok(())
    }

    /// Attests `outcomes` for the event of an approved request.
    pub fn attest(&mut self, kp: &KeyPair, outcomes: &Vec<String>) -> (r: Result<(), OracleError>)
        ensures
            item_attest(*old(self), strings_view(outcomes@), *kp, *final(self), r),
            old(self).adjudication_state matches AdjudicationItemState::Approved(rec) && rec.well_formed(*kp)
                ==> final(self).adjudication_state->Approved_0.well_formed(*kp),
    {
        match &mut self.adjudication_state {
            AdjudicationItemState::Approved(record) => record.attest(kp, outcomes),
            _ => Err(OracleError::NotFound),
        }
    }

    pub fn announcement(&self) -> (r: Result<&OracleAnnouncement, OracleError>)
        ensures
            item_announcement(*self) == match r {
                Ok(a) => Ok(*a),
                Err(e) => Err::<OracleAnnouncement, OracleError>(e),
            },
    {
        match &self.adjudication_state {
            AdjudicationItemState::Approved(record) => Ok(record.announcement()),
            _ => Err(OracleError::NotFound),
        }
    }

    pub fn attestation(&self) -> (r: Result<&OracleAttestation, OracleError>)
        ensures
            item_attestation(*self) == match r {
                Ok(a) => Ok(*a),
                Err(e) => Err::<OracleAttestation, OracleError>(e),
            },
    {
        match &self.adjudication_state {
            AdjudicationItemState::Approved(record) => match record.attestation() {
                Some(a) => Ok(a),
                None => Err(OracleError::NotYetAttested),
            },
            _ => Err(OracleError::NotFound),
        }
    }
}

/// Review decisions are single-shot: once a request is approved, a denial and a second
/// approval both fail with `InvalidState` and change nothing, so it stays approved.
pub proof fn lemma_adjudication_terminality(
    i0: Map<Seq<char>, AdjudicationItem>,
    i1: Map<Seq<char>, AdjudicationItem>,
    i2: Map<Seq<char>, AdjudicationItem>,
    i3: Map<Seq<char>, AdjudicationItem>,
    id: Seq<char>,
    r1: Result<(), OracleError>,
    r2: Result<(), OracleError>,
    r3: Result<(), OracleError>,
)
    requires
        decide_effect(i0, id, true, i1, r1),
        r1 is Ok,
        decide_effect(i1, id, false, i2, r2),
        decide_effect(i2, id, true, i3, r3),
    ensures
        r2 == Err::<(), OracleError>(OracleError::InvalidState),
        r3 == Err::<(), OracleError>(OracleError::InvalidState),
        i3 == i1,
        states_of(i3)[id] == AdjudicationRequestState::Approved,
{
}

/// An approved request stays approved through any decision on any request and any
/// attestation.
pub proof fn lemma_approved_stays_approved(
    i0: Map<Seq<char>, AdjudicationItem>,
    i1: Map<Seq<char>, AdjudicationItem>,
    id: Seq<char>,
    other: Seq<char>,
    approve: bool,
    outcomes: Seq<Seq<char>>,
    kp: KeyPair,
    r: Result<(), OracleError>,
)
    requires
        i0.contains_key(id),
        states_of(i0)[id] == AdjudicationRequestState::Approved,
        decide_effect(i0, other, approve, i1, r) || escrow_attest_effect(i0, other, outcomes, kp, i1, r),
    ensures
        i1.contains_key(id),
        states_of(i1)[id] == AdjudicationRequestState::Approved,
{
}

/// One step on the store of requests: an attestation (`attest`) or a review decision
/// (`approve` or deny) on request `id`, with result `r`.
pub open spec fn escrow_step(
    old: Map<Seq<char>, AdjudicationItem>,
    new: Map<Seq<char>, AdjudicationItem>,
    id: Seq<char>,
    attest: bool,
    approve: bool,
    outcomes: Seq<Seq<char>>,
    kp: KeyPair,
    r: Result<(), OracleError>,
) -> bool {
    if attest {
        escrow_attest_effect(old, id, outcomes, kp, new, r)
    } else {
        decide_effect(old, id, approve, new, r)
    }
}

proof fn lemma_approved_at(
    stores: Seq<Map<Seq<char>, AdjudicationItem>>,
    ids: Seq<Seq<char>>,
    attests: Seq<bool>,
    approves: Seq<bool>,
    outcomes: Seq<Seq<Seq<char>>>,
    kp: KeyPair,
    rs: Seq<Result<(), OracleError>>,
    id: Seq<char>,
    i: int,
)
    requires
        stores.len() == ids.len() + 1,
        attests.len() == ids.len() && approves.len() == ids.len() && outcomes.len() == ids.len()
            && rs.len() == ids.len(),
        forall|j: int| 0 <= j < ids.len() ==> escrow_step(
            #[trigger] stores[j],
            stores[j + 1],
            ids[j],
            attests[j],
            approves[j],
            outcomes[j],
            kp,
            rs[j],
        ),
        stores[0].contains_key(id),
        states_of(stores[0])[id] == AdjudicationRequestState::Approved,
        0 <= i < stores.len(),
    ensures
        stores[i].contains_key(id),
        states_of(stores[i])[id] == AdjudicationRequestState::Approved,
    decreases i,
{
    if i > 0 {
        lemma_approved_at(stores, ids, attests, approves, outcomes, kp, rs, id, i - 1);
        assert(escrow_step(stores[i - 1], stores[i], ids[i - 1], attests[i - 1], approves[i - 1], outcomes[i - 1], kp, rs[i - 1]));
        lemma_approved_stays_approved(
            stores[i - 1],
            stores[i],
            id,
            ids[i - 1],
            approves[i - 1],
            outcomes[i - 1],
            kp,
            rs[i - 1],
        );
    }
}

/// Once a request is approved it stays approved, whatever decisions and attestations on
/// whatever requests follow, in any number.
pub proof fn lemma_approved_stays_approved_through(
    stores: Seq<Map<Seq<char>, AdjudicationItem>>,
    ids: Seq<Seq<char>>,
    attests: Seq<bool>,
    approves: Seq<bool>,
    outcomes: Seq<Seq<Seq<char>>>,
    kp: KeyPair,
    rs: Seq<Result<(), OracleError>>,
    id: Seq<char>,
)
    requires
        stores.len() == ids.len() + 1,
        attests.len() == ids.len() && approves.len() == ids.len() && outcomes.len() == ids.len()
            && rs.len() == ids.len(),
        forall|j: int| 0 <= j < ids.len() ==> escrow_step(
            #[trigger] stores[j],
            stores[j + 1],
            ids[j],
            attests[j],
            approves[j],
            outcomes[j],
            kp,
            rs[j],
        ),
        stores[0].contains_key(id),
        states_of(stores[0])[id] == AdjudicationRequestState::Approved,
    ensures
        forall|i: int| 0 <= i < stores.len() ==> (#[trigger] stores[i]).contains_key(id)
            && states_of(stores[i])[id] == AdjudicationRequestState::Approved,
{
    assert forall|i: int| 0 <= i < stores.len() implies (#[trigger] stores[i]).contains_key(id)
        && states_of(stores[i])[id] == AdjudicationRequestState::Approved by {
        lemma_approved_at(stores, ids, attests, approves, outcomes, kp, rs, id, i);
    }
}

pub struct EscrowOracle {
    keys: KeyStore,
    requests: KeyedStore<AdjudicationItem>,
}

impl EscrowOracle {
    pub closed spec fn keypair(&self) -> KeyPair {
        self.keys.spec_keypair().unwrap()
    }

    /// The filed requests, by event id.
    pub closed spec fn items(&self) -> Map<Seq<char>, AdjudicationItem> {
        self.requests@
    }

    /// The filed requests in the order they were filed.
    pub closed spec fn item_entries(&self) -> Seq<(Seq<char>, AdjudicationItem)> {
        self.requests.spec_entries()
    }

    /// A held key pair, distinct keys in the store, and every item as `items_wf` says.
    pub closed spec fn wf(&self) -> bool {
        &&& self.keys.spec_keypair() is Some
        &&& self.requests.wf()
        &&& items_wf(self.requests@, self.keypair())
    }

    /// The items of a well-formed agent are filed under their ids, with the events of the
    /// approved ones as announced.
    pub proof fn lemma_items_wf(&self)
        requires
            self.wf(),
        ensures
            items_wf(self.items(), self.keypair()),
            crate::store::keys_distinct(self.item_entries()),
            self.items() == crate::store::map_of(self.item_entries()),
    {
    }

    /// An agent with a fresh key pair and no requests.
    pub fn new() -> (r: Self)
        ensures
            r.wf(),
            r.items() == Map::<Seq<char>, AdjudicationItem>::empty(),
    {
        let mut keys = KeyStore::new();
        keys.ensure_keypair();
        EscrowOracle { keys, requests: KeyedStore::new() }
    }

    pub fn get_public_key(&self) -> (r: XOnlyPublicKey)
        requires
            self.wf(),
        ensures
            r == keypair_public_key_of(self.keypair()),
    {
        let kp = self.keys.keypair().unwrap();
        keypair_public_key(&kp)
    }

    /// The statuses of the requests in state `state_or`, or of all of them if it is `None`,
    /// in the order they were filed.
    pub fn list_adjudication_requests(&self, state_or: Option<AdjudicationRequestState>) -> (r: Vec<
        AdjudicationRequestStatus,
    >)
        requires
            self.wf(),
        ensures
            statuses_view(r@) == listing(self.item_entries(), state_or),
    {
        let mut result: Vec<AdjudicationRequestStatus> = Vec::new();
        let mut i: usize = 0;
        let n = self.requests.len();
        while i < n
            invariant
                self.wf(),
                n == self.item_entries().len(),
                i <= n,
                statuses_view(result@) == listing(self.item_entries().subrange(0, i as int), state_or),
            decreases n - i,
        {
            let (_, item) = self.requests.entry_at(i);
            let status = item.status();
            proof {
                crate::store::lemma_map_of_index(self.requests.spec_entries(), i as int);
                let prefix = self.item_entries().subrange(0, i + 1);
                assert(prefix.drop_last() =~= self.item_entries().subrange(0, i as int));
            }
            if is_listed(state_or, status.adjudication_state) {
                result.push(status);
                assert(statuses_view(result@) =~= listing(
                    self.item_entries().subrange(0, i + 1),
                    state_or,
                ));
            }
            i = i + 1;
        }
        assert(self.item_entries().subrange(0, n as int) =~= self.item_entries());
        result
    }

    /// Approves the request for `event_id` and announces its bounty event under that id,
    /// maturing at `event_maturity_epoch`. Only a request in review can be approved.
    pub fn approve_adjudication_request(&mut self, event_id: &str, event_maturity_epoch: u32) -> (r:
        Result<(), OracleError>)
        requires
            old(self).wf(),
        ensures
            final(self).wf(),
            final(self).keypair() == old(self).keypair(),
            decide_effect(old(self).items(), event_id@, true, final(self).items(), r),
            r is Ok ==> {
                let rec = final(self).items()[event_id@].adjudication_state->Approved_0;
                &&& rec.well_formed(final(self).keypair())
                &&& rec.spec_announcement().oracle_event.event_id@ == event_id@
                &&& is_bounty_descriptor(rec.spec_announcement().oracle_event.event_descriptor)
                &&& rec.spec_announcement().oracle_event.event_maturity_epoch == event_maturity_epoch
            },
    {
        let kp = self.keys.keypair().unwrap();
        let i = match self.requests.index_of(event_id) {
            Some(i) => i,
            None => {
                return Err(OracleError::NotFound);
            },
        };
        let ghost entries = self.requests.spec_entries();
        let item = self.requests.value_mut_at(i);
        let r = item.approve(&kp, event_maturity_epoch);
        proof {
            lemma_update_value(entries, i as int, self.requests.spec_entries()[i as int].1);
        }
        r
    }

    /// Denies the request for `event_id`; no event is ever announced for it. Only a request in
    /// review can be denied.
    pub fn deny_adjudication_request(&mut self, event_id: &str) -> (r: Result<(), OracleError>)
        requires
            old(self).wf(),
        ensures
            final(self).wf(),
            final(self).keypair() == old(self).keypair(),
            decide_effect(old(self).items(), event_id@, false, final(self).items(), r),
    {
        let i = match self.requests.index_of(event_id) {
            Some(i) => i,
            None => {
                return Err(OracleError::NotFound);
            },
        };
        let ghost entries = self.requests.spec_entries();
        let item = self.requests.value_mut_at(i);
        let r = item.deny();
        proof {
            lemma_update_value(entries, i as int, self.requests.spec_entries()[i as int].1);
        }
        r
    }

    /// Attests `outcomes` for the event of the approved request `event_id`, one per committed
    /// nonce. An event that is attested already keeps its attestation, and the call still
    /// succeeds.
    pub fn attest_adjudication(&mut self, event_id: &str, outcomes: &Vec<String>) -> (r: Result<
        (),
        OracleError,
    >)
        requires
            old(self).wf(),
        ensures
            final(self).wf(),
            final(self).keypair() == old(self).keypair(),
            escrow_attest_effect(
                old(self).items(),
                event_id@,
                strings_view(outcomes@),
                old(self).keypair(),
                final(self).items(),
                r,
            ),
    {
        let kp = self.keys.keypair().unwrap();
        let i = match self.requests.index_of(event_id) {
            Some(i) => i,
            None => {
                return Err(OracleError::NotFound);
            },
        };
        let ghost entries = self.requests.spec_entries();
        let item = self.requests.value_mut_at(i);
        let r = item.attest(&kp, outcomes);
        proof {
            lemma_update_value(entries, i as int, self.requests.spec_entries()[i as int].1);
        }
        r
    }

    pub fn get_announcement(&self, event_id: &str) -> (r: Result<&OracleAnnouncement, OracleError>)
        requires
            self.wf(),
        ensures
            escrow_announcement_lookup(self.items(), event_id@) == match r {
                Ok(a) => Ok(*a),
                Err(e) => Err::<OracleAnnouncement, OracleError>(e),
            },
    {
        match self.requests.get(event_id) {
            Some(item) => item.announcement(),
            None => Err(OracleError::NotFound),
        }
    }

    pub fn get_attestation(&self, event_id: &str) -> (r: Result<&OracleAttestation, OracleError>)
        requires
            self.wf(),
        ensures
            escrow_attestation_lookup(self.items(), event_id@) == match r {
                Ok(a) => Ok(*a),
                Err(e) => Err::<OracleAttestation, OracleError>(e),
            },
    {
        match self.requests.get(event_id) {
            Some(item) => item.attestation(),
            None => Err(OracleError::NotFound),
        }
    }
}

impl EscrowAgent for EscrowOracle {
    open spec fn adjudication_requests(&self) -> Map<
        Seq<char>,
        (BountyTemplate, AdjudicationRequestState),
    > {
        self.items().map_values(|item: AdjudicationItem| (item.bounty_template, item_state(item)))
    }

    open spec fn agent_wf(&self) -> bool {
        self.wf()
    }

    fn request_adjudication(&mut self, adjudication_request: AdjudicationRequest) -> (r: Result<
        AdjudicationRequestStatus,
        String,
    >) {
        let ghost id = adjudication_request.bounty_template.oracle_event_id@;
        let ghost template = adjudication_request.bounty_template;
        let key = adjudication_request.bounty_template.oracle_event_id.clone();
        let item = AdjudicationItem {
            bounty_template: adjudication_request.bounty_template,
            adjudication_state: AdjudicationItemState::InReview,
        };
        let status = item.status();
        if self.requests.insert_if_absent(key, item) {
            proof {
                assert(self.adjudication_requests() =~= old(self).adjudication_requests().insert(
                    id,
                    (template, AdjudicationRequestState::InReview),
                ));
            }
            Ok(status)
        } else {
            Err(String::from_str("Adjudication request/item already exists for this event id!"))
        }
    }

    fn get_adjudication_request_status(&self, event_id: &str) -> (r: Result<
        AdjudicationRequestStatus,
        String,
    >) {
        match self.requests.get(event_id) {
            Some(item) => Ok(item.status()),
            None => Err(String::from_str("Adjudication request/item not found!")),
        }
    }
}

} // verus!
