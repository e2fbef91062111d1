//! A summary of a DLC contract, for display.
use vstd::prelude::*;

use crate::crypto::{hex_encode, hex_of};

verus! {

/// The stage a contract is in.
#[derive(Clone, Copy, Debug, PartialEq, Eq, Structural)]
pub enum JsonContractStage {
    Offered,
    Accepted,
    Signed,
    Confirmed,
    PreClosed,
    Closed,
    Refunded,
    FailedAccept,
    FailedSign,
    Rejected,
}

pub struct JsonContract {
    /// The contract id in lower-case hex.
    pub id: String,
    pub counter_party_id: String,
    /// Whether the local party offered the contract; `None` only for closed contracts.
    pub is_offer_party: Option<bool>,
    pub stage: JsonContractStage,
}

impl JsonContract {
    /// The summary of a contract with id `contract_id`.
    pub fn from_parts(
        contract_id: &[u8; 32],
        counter_party_id: String,
        is_offer_party: Option<bool>,
        stage: JsonContractStage,
    ) -> (r: Self)
        ensures
            r.id@ == hex_of(contract_id@),
            r.counter_party_id == counter_party_id,
            r.is_offer_party == is_offer_party,
            r.stage == stage,
    {
        JsonContract { id: hex_encode(contract_id), counter_party_id, is_offer_party, stage }
    }
}

} // verus!
