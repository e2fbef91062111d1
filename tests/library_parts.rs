use resolvr::bounty::{create_bounty_contract, BountyOutcome};
use resolvr::contract::{JsonContract, JsonContractStage};
use resolvr::event::OracleError;
use resolvr::keys::KeyStore;
use resolvr::nostr_oracle::NostrNip4ResolvrOracle;
use resolvr::schema::{check_db_version, db_version_bytes, DB_LATEST_VERSION};
use resolvr::wallet::BdkDlcWallet;
use secp256k1_zkp::{KeyPair, Secp256k1};

#[test]
fn bounty_outcome_strings() {
    assert_eq!(BountyOutcome::Complete.to_string(), "BOUNTY_COMPLETE");
    assert_eq!(BountyOutcome::Insufficient.to_string(), "BOUNTY_INSUFFICIENT");
}

#[test]
fn schema_version_is_checked() {
    assert_eq!(DB_LATEST_VERSION, 1);
    assert_eq!(db_version_bytes(), vec![1u8]);
    assert_eq!(check_db_version(&[1]), Ok(()));
    assert_eq!(check_db_version(&[2]), Err(OracleError::SchemaVersionMismatch));
    assert_eq!(check_db_version(&[]), Err(OracleError::SchemaVersionMismatch));
    assert_eq!(check_db_version(&[1, 1]), Err(OracleError::SchemaVersionMismatch));
}

#[test]
fn keypair_is_made_once() {
    let mut keys = KeyStore::new();
    assert!(keys.keypair().is_none());
    assert!(keys.get_public_key().is_none());
    let first = keys.ensure_keypair();
    let again = keys.ensure_keypair();
    assert!(first == again);
    assert_eq!(keys.get_public_key(), Some(first.x_only_public_key().0));
}

#[test]
fn losing_keypair_is_dropped() {
    let secp = Secp256k1::new();
    let mut keys = KeyStore::new();
    let winner = KeyPair::new(&secp, &mut secp256k1_zkp::rand::thread_rng());
    let loser = KeyPair::new(&secp, &mut secp256k1_zkp::rand::thread_rng());
    assert!(keys.insert_if_absent(winner) == winner);
    assert!(keys.insert_if_absent(loser) == winner);
    assert!(keys.ensure_keypair() == winner);
    assert!(keys.keypair() == Some(winner));
}

#[test]
fn contract_summary_has_hex_id() {
    let mut id = [0u8; 32];
    id[0] = 0xab;
    id[31] = 0x0f;
    let c = JsonContract::from_parts(&id, "peer".to_string(), Some(true), JsonContractStage::Signed);
    assert_eq!(c.id.len(), 64);
    assert!(c.id.starts_with("ab00"));
    assert!(c.id.ends_with("000f"));
    assert_eq!(c.counter_party_id, "peer");
    assert_eq!(c.is_offer_party, Some(true));
    assert_eq!(c.stage, JsonContractStage::Signed);
}

#[test]
fn placeholder_handles_are_empty() {
    let _oracle = NostrNip4ResolvrOracle::new_from_npub();
    let _wallet = BdkDlcWallet::new();
}

#[test]
fn bounty_contract_pays_the_winner_both_amounts() {
    let secp = Secp256k1::new();
    let key = KeyPair::new(&secp, &mut secp256k1_zkp::rand::thread_rng()).x_only_public_key().0;
    let terms = create_bounty_contract(100_000, 20_000, 2, key, "e1".to_string());
    assert_eq!(terms.offer_collateral, 100_000);
    assert_eq!(terms.accept_collateral, 20_000);
    assert_eq!(terms.fee_rate, 2);
    assert_eq!(terms.outcome_payouts.len(), 2);
    assert_eq!(terms.outcome_payouts[0].outcome, "BOUNTY_COMPLETE");
    assert_eq!((terms.outcome_payouts[0].offer, terms.outcome_payouts[0].accept), (0, 120_000));
    assert_eq!(terms.outcome_payouts[1].outcome, "BOUNTY_INSUFFICIENT");
    assert_eq!((terms.outcome_payouts[1].offer, terms.outcome_payouts[1].accept), (120_000, 0));
    assert_eq!(terms.oracle_public_keys, vec![key]);
    assert_eq!(terms.event_id, "e1");
    assert_eq!(terms.threshold, 1);
}

#[test]
fn bounty_contract_at_the_largest_amounts() {
    let secp = Secp256k1::new();
    let key = KeyPair::new(&secp, &mut secp256k1_zkp::rand::thread_rng()).x_only_public_key().0;
    let terms = create_bounty_contract(u64::MAX - 5, 5, 1, key, "big".to_string());
    assert_eq!(terms.outcome_payouts[0].accept, u64::MAX);
    assert_eq!(terms.outcome_payouts[1].offer, u64::MAX);
}
