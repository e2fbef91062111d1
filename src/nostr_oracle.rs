//! A handle on a remote oracle that is reached over encrypted nostr direct messages.
use vstd::prelude::*;

verus! {

/// A remote oracle reached over nostr; the handle itself carries no state.
pub struct NostrNip4ResolvrOracle {}

impl NostrNip4ResolvrOracle {
    pub fn new_from_npub() -> (r: Self)
        ensures
            r == (NostrNip4ResolvrOracle {}),
    {
        NostrNip4ResolvrOracle {}
    }
}

} // verus!
