use dlc_messages::oracle_msgs as wire;
use lightning::util::ser::Writeable;
use resolvr::bounty::{bounty_event_descriptor, BountyOutcome};
use resolvr::event::{
    verify_announcement,
    DigitDecompositionEventDescriptor, EnumEventDescriptor, EventDescriptor, OracleEvent,
    OracleError,
};
use resolvr::resolvr_oracle::ResolvrOracle;
use secp256k1_zkp::hashes::sha256;
use secp256k1_zkp::{Message, Secp256k1};

fn enum_descriptor() -> EventDescriptor {
    EventDescriptor::EnumEvent(EnumEventDescriptor {
        outcomes: vec!["yes".to_string(), "no".to_string()],
    })
}

fn digit_descriptor(nb_digits: u16) -> EventDescriptor {
    EventDescriptor::DigitDecompositionEvent(DigitDecompositionEventDescriptor {
        base: 10,
        is_signed: false,
        unit: "sats".to_string(),
        precision: 0,
        nb_digits,
    })
}

fn strings(v: &[&str]) -> Vec<String> {
    v.iter().map(|s| s.to_string()).collect()
}

fn wire_bytes(event: &OracleEvent) -> Vec<u8> {
    let event_descriptor = match &event.event_descriptor {
        EventDescriptor::EnumEvent(e) => wire::EventDescriptor::EnumEvent(wire::EnumEventDescriptor {
            outcomes: e.outcomes.clone(),
        }),
        EventDescriptor::DigitDecompositionEvent(d) => {
            wire::EventDescriptor::DigitDecompositionEvent(wire::DigitDecompositionEventDescriptor {
                base: d.base,
                is_signed: d.is_signed,
                unit: d.unit.clone(),
                precision: d.precision,
                nb_digits: d.nb_digits,
            })
        }
    };
    let wire_event = wire::OracleEvent {
        oracle_nonces: event.oracle_nonces.clone(),
        event_maturity_epoch: event.event_maturity_epoch,
        event_descriptor,
        event_id: event.event_id.clone(),
    };
    let mut bytes = Vec::new();
    wire_event.write(&mut bytes).unwrap();
    bytes
}

#[test]
fn announced_event_is_not_yet_attested() {
    let mut oracle = ResolvrOracle::new_from_generated_keypair();
    oracle.add_event("ev", enum_descriptor(), 1_700_000_000).unwrap();
    assert!(matches!(oracle.get_attestation("ev"), Err(OracleError::NotYetAttested)));
    let ann = oracle.get_announcement("ev").unwrap();
    assert_eq!(ann.oracle_event.event_id, "ev");
    assert_eq!(ann.oracle_event.event_maturity_epoch, 1_700_000_000);
    assert_eq!(ann.oracle_event.oracle_nonces.len(), 1);
    assert_eq!(ann.oracle_public_key, oracle.get_public_key());
}

#[test]
fn unknown_event_is_not_found() {
    let mut oracle = ResolvrOracle::new_from_generated_keypair();
    assert!(matches!(oracle.get_announcement("nope"), Err(OracleError::NotFound)));
    assert!(matches!(oracle.get_attestation("nope"), Err(OracleError::NotFound)));
    assert_eq!(oracle.add_attestation("nope", &strings(&["yes"])), Err(OracleError::NotFound));
}

#[test]
fn duplicate_event_id_is_refused() {
    let mut oracle = ResolvrOracle::new_from_generated_keypair();
    oracle.add_event("ev", enum_descriptor(), 10).unwrap();
    let nonces_before = oracle.get_announcement("ev").unwrap().oracle_event.oracle_nonces.clone();
    assert_eq!(oracle.add_event("ev", digit_descriptor(4), 20), Err(OracleError::AlreadyExists));
    let ann = oracle.get_announcement("ev").unwrap();
    assert_eq!(ann.oracle_event.event_maturity_epoch, 10);
    assert_eq!(ann.oracle_event.oracle_nonces, nonces_before);
}

#[test]
fn second_attestation_changes_nothing() {
    let mut oracle = ResolvrOracle::new_from_generated_keypair();
    oracle.add_event("ev", enum_descriptor(), 10).unwrap();
    assert_eq!(oracle.add_attestation("ev", &strings(&["yes"])), Ok(()));
    let first = oracle.get_attestation("ev").unwrap();
    let (outcomes, signatures) = (first.outcomes.clone(), first.signatures.clone());
    assert_eq!(oracle.add_attestation("ev", &strings(&["no"])), Ok(()));
    let after = oracle.get_attestation("ev").unwrap();
    assert_eq!(after.outcomes, vec!["yes".to_string()]);
    assert_eq!(outcomes, after.outcomes);
    assert_eq!(signatures, after.signatures);
}

#[test]
fn retried_attestation_is_identical() {
    let mut oracle = ResolvrOracle::new_from_generated_keypair();
    oracle.add_event("ev", digit_descriptor(3), 10).unwrap();
    let outcomes = strings(&["1", "0", "7"]);
    assert_eq!(oracle.add_attestation("ev", &outcomes), Ok(()));
    let signatures = oracle.get_attestation("ev").unwrap().signatures.clone();
    assert_eq!(oracle.add_attestation("ev", &outcomes), Ok(()));
    let after = oracle.get_attestation("ev").unwrap();
    assert_eq!(after.signatures, signatures);
    assert_eq!(after.outcomes, outcomes);
}

#[test]
fn enum_event_takes_exactly_one_outcome() {
    let mut oracle = ResolvrOracle::new_from_generated_keypair();
    oracle.add_event("ev", enum_descriptor(), 10).unwrap();
    assert_eq!(oracle.add_attestation("ev", &Vec::new()), Err(OracleError::InvalidState));
    assert_eq!(oracle.add_attestation("ev", &strings(&["yes", "no"])), Err(OracleError::InvalidState));
    assert!(matches!(oracle.get_attestation("ev"), Err(OracleError::NotYetAttested)));
    assert_eq!(oracle.add_attestation("ev", &strings(&["no"])), Ok(()));
}

#[test]
fn digit_event_takes_one_outcome_per_digit() {
    let mut oracle = ResolvrOracle::new_from_generated_keypair();
    oracle.add_event("num", digit_descriptor(4), 10).unwrap();
    assert_eq!(oracle.get_announcement("num").unwrap().oracle_event.oracle_nonces.len(), 4);
    assert_eq!(oracle.add_attestation("num", &strings(&["1", "2", "3"])), Err(OracleError::InvalidState));
    assert_eq!(oracle.add_attestation("num", &strings(&["1", "2", "3", "4", "5"])), Err(OracleError::InvalidState));
    assert!(matches!(oracle.get_attestation("num"), Err(OracleError::NotYetAttested)));
    assert_eq!(oracle.add_attestation("num", &strings(&["1", "2", "3", "4"])), Ok(()));
    assert_eq!(oracle.get_attestation("num").unwrap().signatures.len(), 4);
}

#[test]
fn created_announcement_has_hex_id_and_bounty_outcomes() {
    let mut oracle = ResolvrOracle::new_from_generated_keypair();
    let id = oracle.create_announcement(bounty_event_descriptor(), 500).unwrap();
    assert_eq!(id.len(), 64);
    assert!(id.chars().all(|c| c.is_ascii_hexdigit() && !c.is_ascii_uppercase()));
    let ann = oracle.get_announcement(&id).unwrap();
    assert_eq!(ann.oracle_event.event_id, id);
    match &ann.oracle_event.event_descriptor {
        EventDescriptor::EnumEvent(e) => {
            assert_eq!(e.outcomes, vec!["BOUNTY_COMPLETE".to_string(), "BOUNTY_INSUFFICIENT".to_string()])
        }
        _ => panic!("a bounty event is an enumerated event"),
    }
    let other = oracle.create_announcement(bounty_event_descriptor(), 500).unwrap();
    assert_ne!(id, other);
}

#[test]
fn bounty_attestation_carries_outcome_string() {
    let mut oracle = ResolvrOracle::new_from_generated_keypair();
    let id = oracle.create_announcement(bounty_event_descriptor(), 500).unwrap();
    assert_eq!(oracle.create_attestation(&id, BountyOutcome::Insufficient), Ok(()));
    assert_eq!(oracle.create_attestation(&id, BountyOutcome::Complete), Ok(()));
    let att = oracle.get_attestation(&id).unwrap();
    assert_eq!(att.outcomes, vec!["BOUNTY_INSUFFICIENT".to_string()]);
    assert_eq!(att.oracle_public_key, oracle.get_public_key());
}

#[test]
fn signatures_verify_against_key_and_nonces() {
    let secp = Secp256k1::new();
    let mut oracle = ResolvrOracle::new_from_generated_keypair();
    oracle.add_event("num", digit_descriptor(2), 42).unwrap();
    let key = oracle.get_public_key();
    let ann = oracle.get_announcement("num").unwrap();
    let msg = Message::from_hashed_data::<sha256::Hash>(&wire_bytes(&ann.oracle_event));
    assert!(secp.verify_schnorr(&ann.announcement_signature, &msg, &key).is_ok());
    let nonces = ann.oracle_event.oracle_nonces.clone();
    let outcomes = strings(&["4", "2"]);
    oracle.add_attestation("num", &outcomes).unwrap();
    let att = oracle.get_attestation("num").unwrap();
    for i in 0..2 {
        let msg = Message::from_hashed_data::<sha256::Hash>(outcomes[i].as_bytes());
        assert!(secp.verify_schnorr(&att.signatures[i], &msg, &key).is_ok());
        assert_eq!(&att.signatures[i][..32], &nonces[i].serialize()[..]);
    }
    let wrong = Message::from_hashed_data::<sha256::Hash>("5".as_bytes());
    assert!(secp.verify_schnorr(&att.signatures[0], &wrong, &key).is_err());
}

#[test]
fn announcement_signature_is_checked_over_the_event() {
    let mut oracle = ResolvrOracle::new_from_generated_keypair();
    oracle.add_event("ev", enum_descriptor(), 77).unwrap();
    let ann = oracle.get_announcement("ev").unwrap();
    assert!(verify_announcement(ann));
    let tampered = resolvr::event::OracleAnnouncement {
        announcement_signature: ann.announcement_signature,
        oracle_public_key: ann.oracle_public_key,
        oracle_event: OracleEvent {
            oracle_nonces: ann.oracle_event.oracle_nonces.clone(),
            event_maturity_epoch: 78,
            event_descriptor: enum_descriptor(),
            event_id: "ev".to_string(),
        },
    };
    assert!(!verify_announcement(&tampered));
}
