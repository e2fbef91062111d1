use resolvr::bounty::{BountyOutcome, BOUNTY_COMPLETE_ORACLE_MESSAGE};
use resolvr::escrow::EscrowOracle;
use resolvr::event::OracleError;
use resolvr::messages::{
    AdjudicationRequest, AdjudicationRequestState, BountyTemplate, EscrowAgent,
};
use secp256k1_zkp::hashes::sha256;
use secp256k1_zkp::{Message, Secp256k1};

fn request(id: &str) -> AdjudicationRequest {
    AdjudicationRequest {
        bounty_template: BountyTemplate {
            oracle_event_id: id.to_string(),
            title: "bounty".to_string(),
            description: "...".to_string(),
        },
    }
}

#[test]
fn end_to_end_bounty_adjudication() {
    let secp = Secp256k1::new();
    let mut agent = EscrowOracle::new();
    let status = agent.request_adjudication(request("e1")).unwrap();
    assert_eq!(status.oracle_event_id, "e1");
    assert_eq!(status.adjudication_state, AdjudicationRequestState::InReview);
    assert_eq!(
        agent.get_adjudication_request_status("e1").unwrap().adjudication_state,
        AdjudicationRequestState::InReview
    );
    assert!(matches!(agent.get_announcement("e1"), Err(OracleError::NotFound)));
    assert_eq!(agent.approve_adjudication_request("e1", 1_700_000_000), Ok(()));
    assert_eq!(
        agent.get_adjudication_request_status("e1").unwrap().adjudication_state,
        AdjudicationRequestState::Approved
    );
    let nonce = agent.get_announcement("e1").unwrap().oracle_event.oracle_nonces[0];
    assert!(matches!(agent.get_attestation("e1"), Err(OracleError::NotYetAttested)));
    let outcomes = vec![BountyOutcome::Complete.to_string()];
    assert_eq!(agent.attest_adjudication("e1", &outcomes), Ok(()));
    let att = agent.get_attestation("e1").unwrap();
    assert_eq!(att.outcomes, vec![BOUNTY_COMPLETE_ORACLE_MESSAGE.to_string()]);
    let msg = Message::from_hashed_data::<sha256::Hash>("BOUNTY_COMPLETE".as_bytes());
    assert!(secp.verify_schnorr(&att.signatures[0], &msg, &agent.get_public_key()).is_ok());
    assert_eq!(&att.signatures[0][..32], &nonce.serialize()[..]);
}

#[test]
fn approval_is_terminal() {
    let mut agent = EscrowOracle::new();
    agent.request_adjudication(request("e1")).unwrap();
    assert_eq!(agent.approve_adjudication_request("e1", 5), Ok(()));
    assert_eq!(agent.deny_adjudication_request("e1"), Err(OracleError::InvalidState));
    assert_eq!(agent.approve_adjudication_request("e1", 6), Err(OracleError::InvalidState));
    assert_eq!(
        agent.get_adjudication_request_status("e1").unwrap().adjudication_state,
        AdjudicationRequestState::Approved
    );
    assert_eq!(agent.get_announcement("e1").unwrap().oracle_event.event_maturity_epoch, 5);
}

#[test]
fn denial_is_terminal_and_announces_nothing() {
    let mut agent = EscrowOracle::new();
    agent.request_adjudication(request("e2")).unwrap();
    assert_eq!(agent.deny_adjudication_request("e2"), Ok(()));
    assert_eq!(agent.approve_adjudication_request("e2", 5), Err(OracleError::InvalidState));
    assert_eq!(agent.deny_adjudication_request("e2"), Err(OracleError::InvalidState));
    assert!(matches!(agent.get_announcement("e2"), Err(OracleError::NotFound)));
    assert_eq!(
        agent.attest_adjudication("e2", &vec!["BOUNTY_COMPLETE".to_string()]),
        Err(OracleError::NotFound)
    );
    assert_eq!(
        agent.get_adjudication_request_status("e2").unwrap().adjudication_state,
        AdjudicationRequestState::Denied
    );
}

#[test]
fn unknown_request_is_an_error() {
    let mut agent = EscrowOracle::new();
    assert!(agent.get_adjudication_request_status("x").is_err());
    assert_eq!(agent.approve_adjudication_request("x", 1), Err(OracleError::NotFound));
    assert_eq!(agent.deny_adjudication_request("x"), Err(OracleError::NotFound));
    assert_eq!(agent.attest_adjudication("x", &vec!["a".to_string()]), Err(OracleError::NotFound));
    assert!(matches!(agent.get_attestation("x"), Err(OracleError::NotFound)));
}

#[test]
fn attesting_request_in_review_is_refused() {
    let mut agent = EscrowOracle::new();
    agent.request_adjudication(request("e3")).unwrap();
    assert_eq!(
        agent.attest_adjudication("e3", &vec!["BOUNTY_COMPLETE".to_string()]),
        Err(OracleError::NotFound)
    );
    assert!(matches!(agent.get_attestation("e3"), Err(OracleError::NotFound)));
}

#[test]
fn duplicate_request_is_refused() {
    let mut agent = EscrowOracle::new();
    agent.request_adjudication(request("e1")).unwrap();
    agent.approve_adjudication_request("e1", 5).unwrap();
    assert!(agent.request_adjudication(request("e1")).is_err());
    assert_eq!(
        agent.get_adjudication_request_status("e1").unwrap().adjudication_state,
        AdjudicationRequestState::Approved
    );
}

#[test]
fn adjudication_attestation_is_exactly_once() {
    let mut agent = EscrowOracle::new();
    agent.request_adjudication(request("e1")).unwrap();
    agent.approve_adjudication_request("e1", 5).unwrap();
    assert_eq!(
        agent.attest_adjudication("e1", &vec!["A".to_string(), "B".to_string()]),
        Err(OracleError::InvalidState)
    );
    assert_eq!(agent.attest_adjudication("e1", &vec!["BOUNTY_INSUFFICIENT".to_string()]), Ok(()));
    let sig = agent.get_attestation("e1").unwrap().signatures.clone();
    assert_eq!(agent.attest_adjudication("e1", &vec!["BOUNTY_COMPLETE".to_string()]), Ok(()));
    let att = agent.get_attestation("e1").unwrap();
    assert_eq!(att.outcomes, vec!["BOUNTY_INSUFFICIENT".to_string()]);
    assert_eq!(att.signatures, sig);
}

#[test]
fn listing_filters_by_state_in_filing_order() {
    let mut agent = EscrowOracle::new();
    for id in ["a", "b", "c", "d"] {
        agent.request_adjudication(request(id)).unwrap();
    }
    agent.approve_adjudication_request("b", 1).unwrap();
    agent.deny_adjudication_request("c").unwrap();
    let ids = |v: Vec<resolvr::messages::AdjudicationRequestStatus>| -> Vec<String> {
        v.into_iter().map(|s| s.oracle_event_id).collect()
    };
    assert_eq!(ids(agent.list_adjudication_requests(None)), vec!["a", "b", "c", "d"]);
    assert_eq!(ids(agent.list_adjudication_requests(Some(AdjudicationRequestState::InReview))), vec!["a", "d"]);
    assert_eq!(ids(agent.list_adjudication_requests(Some(AdjudicationRequestState::Approved))), vec!["b"]);
    assert_eq!(ids(agent.list_adjudication_requests(Some(AdjudicationRequestState::Denied))), vec!["c"]);
    let all = agent.list_adjudication_requests(None);
    assert_eq!(all[2].adjudication_state, AdjudicationRequestState::Denied);
}

#[test]
fn empty_agent_lists_nothing() {
    let agent = EscrowOracle::new();
    assert!(agent.list_adjudication_requests(None).is_empty());
}
