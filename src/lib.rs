//! A DLC oracle: it announces events, attests each exactly once, and gates bounty
//! events behind an adjudication review.
use vstd::prelude::*;

pub mod bounty;
pub mod contract;
pub mod crypto;
pub mod escrow;
pub mod event;
pub mod keys;
pub mod messages;
pub mod nostr_oracle;
pub mod resolvr_oracle;
pub mod schema;
pub mod store;
pub mod wallet;

verus! {

} // verus!
