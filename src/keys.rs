//! The oracle's long-term key pair: made once, then kept.
use vstd::prelude::*;

use secp256k1_zkp::{KeyPair, XOnlyPublicKey};

use crate::crypto::{generate_keypair, keypair_public_key, keypair_public_key_of};

verus! {

/// Holds at most one key pair; once one is held it is never replaced.
pub struct KeyStore {
    keypair: Option<KeyPair>,
}

/// `new` is `old` after a caller offered key pair `offered`, and `r` is the key pair held
/// afterwards: the one held before if there was one, else the offered one.
pub open spec fn settles(old: KeyStore, offered: KeyPair, new: KeyStore, r: KeyPair) -> bool {
    match old.spec_keypair() {
        Some(k) => r == k && new == old,
        None => r == offered && new.spec_keypair() == Some(offered),
    }
}

/// `new` is `old` after a call of `ensure_keypair` that returned `r`.
pub open spec fn ensured(old: KeyStore, new: KeyStore, r: KeyPair) -> bool {
    match old.spec_keypair() {
        Some(k) => r == k && new == old,
        None => new.spec_keypair() == Some(r),
    }
}

impl KeyStore {
    pub closed spec fn spec_keypair(&self) -> Option<KeyPair> {
        self.keypair
    }

    pub fn new() -> (r: Self)
        ensures
            r.spec_keypair() is None,
    {
        KeyStore { keypair: None }
    }

    /// Keeps `offered` if no key pair is held yet; the one held afterwards is returned, so that
    /// a caller who lost the race reads the winner's key pair and drops its own.
    pub fn insert_if_absent(&mut self, offered: KeyPair) -> (r: KeyPair)
        ensures
            settles(*old(self), offered, *final(self), r),
    {
        match self.keypair {
            Some(k) => k,
            None => {
                self.keypair = Some(offered);
                offered
            },
        }
    }

    /// The key pair, made and kept on the first call.
    pub fn ensure_keypair(&mut self) -> (r: KeyPair)
        ensures
            ensured(*old(self), *final(self), r),
    {
        if self.keypair.is_some() {
            return self.keypair.unwrap();
        }
        let fresh = generate_keypair();
        self.insert_if_absent(fresh)
    }

    pub fn keypair(&self) -> (r: Option<KeyPair>)
        ensures
            r == self.spec_keypair(),
    {
        self.keypair
    }

    /// The public key of the held key pair, if any.
    pub fn get_public_key(&self) -> (r: Option<XOnlyPublicKey>)
        ensures
            r == match self.spec_keypair() {
                Some(k) => Some(keypair_public_key_of(k)),
                None => None::<XOnlyPublicKey>,
            },
    {
        match &self.keypair {
            Some(k) => Some(keypair_public_key(k)),
            None => None,
        }
    }
}

/// However many callers ensure the key pair one after another, every one of them gets the
/// same key pair, hence the same public key, and the store keeps the first caller's.
pub proof fn lemma_one_keypair(stores: Seq<KeyStore>, results: Seq<KeyPair>)
    requires
        stores.len() == results.len() + 1,
        forall|i: int| 0 <= i < results.len() ==> ensured(#[trigger] stores[i], stores[i + 1], results[i]),
    ensures
        forall|i: int, j: int|
            0 <= i < results.len() && 0 <= j < results.len() ==> #[trigger] results[i] == #[trigger] results[j]
                && keypair_public_key_of(results[i]) == keypair_public_key_of(results[j]),
        results.len() > 0 ==> forall|i: int| 1 <= i < stores.len() ==> (#[trigger] stores[i]).spec_keypair() == Some(results[0]),
    decreases results.len(),
{
    if results.len() > 0 {
        let n = results.len() - 1;
        lemma_one_keypair(stores.subrange(0, n + 1), results.subrange(0, n));
        assert(ensured(stores[n], stores[n + 1], results[n]));
        if n > 0 {
            assert(stores.subrange(0, n + 1)[n].spec_keypair() == Some(results[0]));
            assert(results.subrange(0, n)[0] == results[0]);
        }
        assert forall|i: int| 1 <= i < stores.len() implies (#[trigger] stores[i]).spec_keypair() == Some(results[0]) by {
            if i < n + 1 {
                assert(stores.subrange(0, n + 1)[i] == stores[i]);
            }
        }
        assert forall|i: int, j: int|
            0 <= i < results.len() && 0 <= j < results.len() implies #[trigger] results[i] == #[trigger] results[j] by {
            assert(ensured(stores[i], stores[i + 1], results[i]));
            assert(ensured(stores[j], stores[j + 1], results[j]));
            if i > 0 {
                assert(stores[i].spec_keypair() == Some(results[0]));
            }
            if j > 0 {
                assert(stores[j].spec_keypair() == Some(results[0]));
            }
        }
    }
}

proof fn lemma_first_offer_at(stores: Seq<KeyStore>, offers: Seq<KeyPair>, results: Seq<KeyPair>, i: int)
    requires
        stores.len() == offers.len() + 1,
        results.len() == offers.len(),
        offers.len() > 0,
        stores[0].spec_keypair() is None,
        forall|j: int| 0 <= j < offers.len() ==> settles(#[trigger] stores[j], offers[j], stores[j + 1], results[j]),
        1 <= i < stores.len(),
    ensures
        stores[i] == stores[1],
        stores[i].spec_keypair() == Some(offers[0]),
        results[i - 1] == offers[0],
    decreases i,
{
    assert(settles(stores[0], offers[0], stores[1], results[0]));
    if i > 1 {
        lemma_first_offer_at(stores, offers, results, i - 1);
        assert(settles(stores[i - 1], offers[i - 1], stores[i], results[i - 1]));
    }
}

/// When callers offer key pairs to an empty store one after another, the first offer is kept:
/// every caller gets it back, and after the first call the store never changes again.
pub proof fn lemma_first_offer_wins(stores: Seq<KeyStore>, offers: Seq<KeyPair>, results: Seq<KeyPair>)
    requires
        stores.len() == offers.len() + 1,
        results.len() == offers.len(),
        offers.len() > 0,
        stores[0].spec_keypair() is None,
        forall|j: int| 0 <= j < offers.len() ==> settles(#[trigger] stores[j], offers[j], stores[j + 1], results[j]),
    ensures
        forall|i: int| 0 <= i < results.len() ==> #[trigger] results[i] == offers[0],
        forall|i: int| 1 <= i < stores.len() ==> #[trigger] stores[i] == stores[1]
            && stores[i].spec_keypair() == Some(offers[0]),
{
    assert forall|i: int| 0 <= i < results.len() implies #[trigger] results[i] == offers[0] by {
        lemma_first_offer_at(stores, offers, results, i + 1);
    }
    assert forall|i: int| 1 <= i < stores.len() implies #[trigger] stores[i] == stores[1]
        && stores[i].spec_keypair() == Some(offers[0]) by {
        lemma_first_offer_at(stores, offers, results, i);
    }
}

} // verus!
