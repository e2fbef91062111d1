//! The wallet that funds and signs DLC transactions.
use vstd::prelude::*;

verus! {

/// A wallet handle; it carries no keys or coins of its own.
pub struct BdkDlcWallet {}

impl BdkDlcWallet {
    pub fn new() -> (r: Self)
        ensures
            r == (BdkDlcWallet {}),
    {
        BdkDlcWallet {}
    }
}

} // verus!
