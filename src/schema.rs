//! The schema version of the persisted store.
use vstd::prelude::*;

use crate::event::OracleError;

verus! {

/// The schema version this library reads and writes.
pub const DB_LATEST_VERSION: u8 = 1;

/// The bytes that record the current schema version.
pub fn db_version_bytes() -> (r: Vec<u8>)
    ensures
        r@ == seq![DB_LATEST_VERSION],
{
    let mut r: Vec<u8> = Vec::new();
    r.push(DB_LATEST_VERSION);
    assert(r@ =~= seq![DB_LATEST_VERSION]);
    r
}

/// Checks the schema version found in a store: anything but the current version is
/// refused, since no migration is known.
pub fn check_db_version(stored: &[u8]) -> (r: Result<(), OracleError>)
    ensures
        r is Ok <==> stored@ == seq![DB_LATEST_VERSION],
        r is Err ==> r == Err::<(), OracleError>(OracleError::SchemaVersionMismatch),
{
    if stored.len() == 1 && stored[0] == DB_LATEST_VERSION {
        assert(stored@ =~= seq![DB_LATEST_VERSION]);
        Ok(())
    } else {
        Err(OracleError::SchemaVersionMismatch)
    }
}

} // verus!
