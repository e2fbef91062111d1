//! The outcomes of a bounty event.
use vstd::prelude::*;

use secp256k1_zkp::XOnlyPublicKey;

use crate::event::{strings_view, EnumEventDescriptor, EventDescriptor};

verus! {

pub const BOUNTY_COMPLETE_ORACLE_MESSAGE: &'static str = "BOUNTY_COMPLETE";

pub const BOUNTY_INSUFFICIENT_ORACLE_MESSAGE: &'static str = "BOUNTY_INSUFFICIENT";

/// How a bounty was judged.
#[derive(Clone, Copy, Debug, PartialEq, Eq, Structural)]
pub enum BountyOutcome {
    Complete,
    Insufficient,
}

/// The outcome string an attestation of `o` carries.
pub open spec fn outcome_message(o: BountyOutcome) -> Seq<char> {
    match o {
        BountyOutcome::Complete => BOUNTY_COMPLETE_ORACLE_MESSAGE@,
        BountyOutcome::Insufficient => BOUNTY_INSUFFICIENT_ORACLE_MESSAGE@,
    }
}

impl BountyOutcome {
    pub fn to_string(&self) -> (r: String)
        ensures
            r@ == outcome_message(*self),
    {
        match self {
            BountyOutcome::Complete => String::from_str(BOUNTY_COMPLETE_ORACLE_MESSAGE),
            BountyOutcome::Insufficient => String::from_str(BOUNTY_INSUFFICIENT_ORACLE_MESSAGE),
        }
    }
}

/// `d` is the outcome space of a bounty event: complete or insufficient, in that order.
pub open spec fn is_bounty_descriptor(d: EventDescriptor) -> bool {
    d matches EventDescriptor::EnumEvent(e) && strings_view(e.outcomes@) == seq![
        BOUNTY_COMPLETE_ORACLE_MESSAGE@,
        BOUNTY_INSUFFICIENT_ORACLE_MESSAGE@,
    ]
}

/// The outcome space of a bounty event: complete or insufficient.
pub fn bounty_event_descriptor() -> (r: EventDescriptor)
    ensures
        is_bounty_descriptor(r),
{
    let mut outcomes: Vec<String> = Vec::new();
    outcomes.push(BountyOutcome::Complete.to_string());
    outcomes.push(BountyOutcome::Insufficient.to_string());
    assert(strings_view(outcomes@) =~= seq![
        BOUNTY_COMPLETE_ORACLE_MESSAGE@,
        BOUNTY_INSUFFICIENT_ORACLE_MESSAGE@,
    ]);
    EventDescriptor::EnumEvent(EnumEventDescriptor { outcomes })
}

/// What each party gets, in sats, when the oracle attests `outcome`.
pub struct EnumerationPayout {
    pub outcome: String,
    pub offer: u64,
    pub accept: u64,
}

/// The terms of a bounty contract on one oracle event: the maker offers the bounty, the
/// taker puts up collateral, and the winner of the event's outcome takes both.
pub struct BountyContractInput {
    pub offer_collateral: u64,
    pub accept_collateral: u64,
    pub fee_rate: u64,
    pub outcome_payouts: Vec<EnumerationPayout>,
    pub oracle_public_keys: Vec<XOnlyPublicKey>,
    pub event_id: String,
    /// How many of the oracles must attest.
    pub threshold: u16,
}

/// The terms of a bounty of `bounty_amount_sats` against `taker_collateral_sats` of
/// collateral, settled by the one oracle `oracle_public_key` on event `oracle_event_id`. If the
/// bounty is completed the taker gets both amounts; otherwise the maker does.
pub fn create_bounty_contract(
    bounty_amount_sats: u64,
    taker_collateral_sats: u64,
    fee_rate_sats_per_vbyte: u64,
    oracle_public_key: XOnlyPublicKey,
    oracle_event_id: String,
) -> (r: BountyContractInput)
    requires
        bounty_amount_sats + taker_collateral_sats <= u64::MAX,
    ensures
        r.offer_collateral == bounty_amount_sats,
        r.accept_collateral == taker_collateral_sats,
        r.fee_rate == fee_rate_sats_per_vbyte,
        r.outcome_payouts@.len() == 2,
        r.outcome_payouts@[0].outcome@ == BOUNTY_COMPLETE_ORACLE_MESSAGE@,
        r.outcome_payouts@[0].offer == 0,
        r.outcome_payouts@[0].accept == bounty_amount_sats + taker_collateral_sats,
        r.outcome_payouts@[1].outcome@ == BOUNTY_INSUFFICIENT_ORACLE_MESSAGE@,
        r.outcome_payouts@[1].offer == bounty_amount_sats + taker_collateral_sats,
        r.outcome_payouts@[1].accept == 0,
        r.oracle_public_keys@ == seq![oracle_public_key],
        r.event_id == oracle_event_id,
        r.threshold == 1,
{
    let total = bounty_amount_sats + taker_collateral_sats;
    let mut outcome_payouts: Vec<EnumerationPayout> = Vec::new();
    outcome_payouts.push(
        EnumerationPayout { outcome: BountyOutcome::Complete.to_string(), offer: 0, accept: total },
    );
    outcome_payouts.push(
        EnumerationPayout { outcome: BountyOutcome::Insufficient.to_string(), offer: total, accept: 0 },
    );
    let mut oracle_public_keys: Vec<XOnlyPublicKey> = Vec::new();
    oracle_public_keys.push(oracle_public_key);
    assert(oracle_public_keys@ =~= seq![oracle_public_key]);
    BountyContractInput {
        offer_collateral: bounty_amount_sats,
        accept_collateral: taker_collateral_sats,
        fee_rate: fee_rate_sats_per_vbyte,
        outcome_payouts,
        oracle_public_keys,
        event_id: oracle_event_id,
        threshold: 1,
    }
}

} // verus!
