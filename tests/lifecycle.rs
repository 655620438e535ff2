use ibc_client_core::error::{ClientError, UpgradeClientError};
use ibc_client_core::header::{bytes_equal, check_header, check_voting_power, detect_conflict};
use ibc_client_core::height::Height;
use ibc_client_core::state::{
    compute_status, ClientId, ClientState, ConsensusState, Header, Misbehaviour, ProofSpecKind,
    Status, TrustThreshold,
};
use ibc_client_core::store::{proof_result, ClientStore};
use ibc_core_commitment_types::error::CommitmentError;
use ibc_core_commitment_types::merkle::MerkleProof;
use ibc_core_commitment_types::proto::ics23::commitment_proof::Proof;
use ibc_core_commitment_types::proto::ics23::{
    calculate_existence_root, iavl_spec, tendermint_spec, CommitmentProof, ExistenceProof,
    HostFunctionsManager,
};

const SEC: u64 = 1_000_000_000;
const TAG: &str = "07-tendermint";

fn h(rev: u64, height: u64) -> Height {
    Height::new(rev, height)
}

fn client_state(latest: Height) -> ClientState {
    ClientState {
        trust_threshold: TrustThreshold { numerator: 1, denominator: 3 },
        trusting_period: 100 * SEC,
        unbonding_period: 200 * SEC,
        max_clock_drift: 10 * SEC,
        latest_height: latest,
        frozen_height: None,
        proof_specs: ProofSpecKind::Cosmos,
        upgrade_path: vec![b"upgrade".to_vec(), b"upgradedIBCState".to_vec()],
    }
}

fn consensus(timestamp: u64, root: &[u8]) -> ConsensusState {
    ConsensusState { timestamp, root: root.to_vec(), next_validators_hash: b"vals".to_vec() }
}

fn header(height: Height, timestamp: u64, root: &[u8]) -> Header {
    Header {
        height,
        consensus_state: consensus(timestamp, root),
        trusted_validators_hash: b"vals".to_vec(),
        signed_power: 2,
        total_power: 3,
    }
}

fn store() -> ClientStore {
    ClientStore::new(vec![TAG.to_string()])
}

fn store_with_client(latest: Height, timestamp: u64) -> (ClientStore, ClientId) {
    let mut s = store();
    let id = s
        .create_client(TAG.to_string(), client_state(latest), consensus(timestamp, b"root0"), timestamp, h(0, 1))
        .unwrap();
    (s, id)
}

fn empty_proof() -> MerkleProof {
    MerkleProof { proofs: vec![] }
}

#[test]
fn create_assigns_sequence_numbers() {
    let mut s = store();
    let a = s.create_client(TAG.to_string(), client_state(h(0, 1)), consensus(0, b"r"), 0, h(0, 1)).unwrap();
    let b = s.create_client(TAG.to_string(), client_state(h(0, 3)), consensus(0, b"r"), 0, h(0, 1)).unwrap();
    assert_eq!(a.counter, 0);
    assert_eq!(b.counter, 1);
    assert_eq!(b.client_type, TAG);
    assert_eq!(s.num_clients(), 2);
    assert_eq!(s.get_client_state(&b).unwrap().latest_height, h(0, 3));
}

#[test]
fn update_at_fifty_seconds_advances_height() {
    let (mut s, id) = store_with_client(h(0, 1), 0);
    s.update_client(&id, header(h(0, 2), 40 * SEC, b"root1"), 50 * SEC, h(0, 7)).unwrap();
    assert_eq!(s.client_status(&id, 50 * SEC).unwrap(), Status::Active);
    assert_eq!(s.get_client_state(&id).unwrap().latest_height, h(0, 2));
    let meta = s.get_update_metadata(&id, h(0, 2)).unwrap();
    assert_eq!(meta.processed_time, 50 * SEC);
    assert_eq!(meta.processed_height, h(0, 7));
}

#[test]
fn expired_client_rejects_update() {
    let (mut s, id) = store_with_client(h(0, 1), 0);
    s.update_client(&id, header(h(0, 2), 40 * SEC, b"root1"), 50 * SEC, h(0, 7)).unwrap();
    assert_eq!(s.client_status(&id, 150 * SEC).unwrap(), Status::Expired);
    let r = s.update_client(&id, header(h(0, 3), 145 * SEC, b"root2"), 150 * SEC, h(0, 8));
    assert!(matches!(r, Err(ClientError::InvalidStatus { actual: Status::Expired })));
    assert_eq!(s.get_client_state(&id).unwrap().latest_height, h(0, 2));
    assert!(matches!(
        s.get_consensus_state(&id, h(0, 3)),
        Err(ClientError::MissingConsensusState { .. })
    ));
}

#[test]
fn expiry_boundary_is_strict() {
    let cs = client_state(h(0, 1));
    let c = consensus(10 * SEC, b"r");
    assert_eq!(compute_status(&cs, &c, 110 * SEC), Status::Active);
    assert_eq!(compute_status(&cs, &c, 110 * SEC + 1), Status::Expired);
}

#[test]
fn conflicting_headers_freeze_client() {
    let (mut s, id) = store_with_client(h(0, 4), 0);
    let m = Misbehaviour {
        header1: header(h(0, 5), 5 * SEC, b"rootA"),
        header2: header(h(0, 5), 5 * SEC, b"rootB"),
    };
    s.submit_misbehaviour(&id, m, 6 * SEC).unwrap();
    assert_eq!(s.client_status(&id, 6 * SEC).unwrap(), Status::Frozen(h(0, 5)));
    let r = s.verify_membership(&id, h(0, 6), 6 * SEC, &empty_proof(), &vec![b"k".to_vec()], &b"v".to_vec());
    assert!(matches!(r, Err(ClientError::InvalidStatus { actual: Status::Frozen(fh) }) if fh == h(0, 5)));
    let r = s.update_client(&id, header(h(0, 6), 7 * SEC, b"rootC"), 8 * SEC, h(0, 9));
    assert!(matches!(r, Err(ClientError::InvalidStatus { .. })));
}

#[test]
fn misbehaviour_freezes_at_lower_height() {
    let (mut s, id) = store_with_client(h(0, 4), 0);
    let m = Misbehaviour {
        header1: header(h(0, 7), 5 * SEC, b"rootA"),
        header2: header(h(0, 6), 6 * SEC, b"rootB"),
    };
    s.submit_misbehaviour(&id, m, 7 * SEC).unwrap();
    assert_eq!(s.get_client_state(&id).unwrap().frozen_height, Some(h(0, 6)));
}

#[test]
fn agreeing_headers_are_no_misbehaviour() {
    let (mut s, id) = store_with_client(h(0, 4), 0);
    let m = Misbehaviour {
        header1: header(h(0, 5), 5 * SEC, b"rootA"),
        header2: header(h(0, 5), 5 * SEC, b"rootA"),
    };
    let r = s.submit_misbehaviour(&id, m, 6 * SEC);
    assert!(matches!(r, Err(ClientError::FailedMisbehaviourHandling { .. })));
    assert_eq!(s.client_status(&id, 6 * SEC).unwrap(), Status::Active);
}

#[test]
fn invalid_header_is_no_misbehaviour() {
    let (mut s, id) = store_with_client(h(0, 4), 0);
    let mut weak = header(h(0, 5), 5 * SEC, b"rootB");
    weak.signed_power = 1;
    let m = Misbehaviour { header1: header(h(0, 5), 5 * SEC, b"rootA"), header2: weak };
    let r = s.submit_misbehaviour(&id, m, 6 * SEC);
    assert!(matches!(r, Err(ClientError::FailedMisbehaviourHandling { .. })));
}

#[test]
fn upgrade_at_equal_height_is_low() {
    let (mut s, id) = store_with_client(h(0, 1000), 0);
    let r = s.upgrade_client(
        &id,
        h(0, 1000),
        client_state(h(0, 1)),
        consensus(5, b"new"),
        &empty_proof(),
        &empty_proof(),
        &b"cs".to_vec(),
        &b"cons".to_vec(),
        5,
        h(0, 2),
    );
    match r {
        Err(ClientError::Upgrade(UpgradeClientError::LowUpgradeHeight { upgraded_height, client_height })) => {
            assert_eq!(upgraded_height, h(0, 1000));
            assert_eq!(client_height, h(0, 1000));
        }
        other => panic!("unexpected result {:?}", other),
    }
    assert_eq!(s.get_client_state(&id).unwrap().latest_height, h(0, 1000));
    assert!(s.get_consensus_state(&id, h(0, 1000)).is_ok());
}

#[test]
fn upgrade_above_height_replaces_state() {
    let (mut s, id) = store_with_client(h(0, 1000), 0);
    let m = Misbehaviour {
        header1: header(h(0, 1001), 5, b"rootA"),
        header2: header(h(0, 1001), 5, b"rootB"),
    };
    s.submit_misbehaviour(&id, m, 6).unwrap();
    let mut next = client_state(h(9, 9));
    next.trusting_period = 300 * SEC;
    next.frozen_height = Some(h(0, 3));
    s.apply_upgrade(&id, h(1, 1001), next, consensus(7, b"upgraded"), Ok(()), Ok(()), 8, h(0, 20)).unwrap();
    let cs = s.get_client_state(&id).unwrap();
    assert_eq!(cs.latest_height, h(1, 1001));
    assert_eq!(cs.latest_height.revision_number, 1);
    assert_eq!(cs.trusting_period, 300 * SEC);
    assert_eq!(cs.frozen_height, None);
    assert_eq!(s.get_consensus_state(&id, h(1, 1001)).unwrap().root, b"upgraded".to_vec());
    assert_eq!(s.client_status(&id, 8).unwrap(), Status::Active);
    assert_eq!(s.get_consensus_state(&id, h(0, 1000)).unwrap().root, b"root0".to_vec());
}

#[test]
fn upgrade_with_failed_proof_changes_nothing() {
    let (mut s, id) = store_with_client(h(0, 1000), 0);
    let r = s.apply_upgrade(
        &id,
        h(1, 1001),
        client_state(h(1, 1001)),
        consensus(7, b"upgraded"),
        Ok(()),
        Err(CommitmentError::FailedToVerifyMembership),
        8,
        h(0, 20),
    );
    assert!(matches!(
        r,
        Err(ClientError::Upgrade(UpgradeClientError::InvalidUpgradeConsensusStateProof(
            CommitmentError::FailedToVerifyMembership
        )))
    ));
    let r = s.apply_upgrade(
        &id,
        h(1, 1001),
        client_state(h(1, 1001)),
        consensus(7, b"upgraded"),
        Err(CommitmentError::InvalidMerkleProof),
        Ok(()),
        8,
        h(0, 20),
    );
    assert!(matches!(
        r,
        Err(ClientError::Upgrade(UpgradeClientError::InvalidUpgradeClientProof(
            CommitmentError::InvalidMerkleProof
        )))
    ));
    assert_eq!(s.get_client_state(&id).unwrap().latest_height, h(0, 1000));
    assert!(s.get_consensus_state(&id, h(1, 1001)).is_err());
}

#[test]
fn upgrade_with_empty_proofs_is_rejected() {
    let (mut s, id) = store_with_client(h(0, 1000), 0);
    let r = s.upgrade_client(
        &id,
        h(1, 1001),
        client_state(h(1, 1001)),
        consensus(7, b"upgraded"),
        &empty_proof(),
        &empty_proof(),
        &b"cs".to_vec(),
        &b"cons".to_vec(),
        8,
        h(0, 20),
    );
    assert!(matches!(
        r,
        Err(ClientError::Upgrade(UpgradeClientError::InvalidUpgradeClientProof(
            CommitmentError::MissingMerkleProof
        )))
    ));
    assert_eq!(s.get_client_state(&id).unwrap().latest_height, h(0, 1000));
}

#[test]
fn upgrade_with_empty_path_is_rejected() {
    let mut s = store();
    let mut cs = client_state(h(0, 10));
    cs.upgrade_path = vec![b"upgrade".to_vec(), vec![]];
    let id = s.create_client(TAG.to_string(), cs, consensus(0, b"r"), 0, h(0, 1)).unwrap();
    let r = s.apply_upgrade(&id, h(1, 1), client_state(h(1, 1)), consensus(1, b"n"), Ok(()), Ok(()), 1, h(0, 2));
    assert!(matches!(r, Err(ClientError::Upgrade(UpgradeClientError::InvalidUpgradePath { .. }))));
}

#[test]
fn accepted_header_reads_back() {
    let (mut s, id) = store_with_client(h(0, 1), 0);
    s.update_client(&id, header(h(0, 2), 40 * SEC, b"root1"), 50 * SEC, h(0, 7)).unwrap();
    let c = s.get_consensus_state(&id, h(0, 2)).unwrap();
    assert_eq!(c.timestamp, 40 * SEC);
    assert_eq!(c.root, b"root1".to_vec());
    assert_eq!(c.next_validators_hash, b"vals".to_vec());
}

#[test]
fn non_monotonic_update_is_rejected() {
    let (mut s, id) = store_with_client(h(0, 5), 0);
    let r = s.update_client(&id, header(h(0, 5), 1 * SEC, b"x"), 2 * SEC, h(0, 7));
    assert!(matches!(r, Err(ClientError::InvalidUpdateClientMessage)));
    let r = s.update_client(&id, header(h(0, 4), 1 * SEC, b"x"), 2 * SEC, h(0, 7));
    assert!(matches!(r, Err(ClientError::InvalidUpdateClientMessage)));
}

#[test]
fn header_failures_are_reported() {
    let (mut s, id) = store_with_client(h(0, 1), 10 * SEC);
    // not after the trusted timestamp
    let r = s.update_client(&id, header(h(0, 2), 10 * SEC, b"x"), 11 * SEC, h(0, 7));
    assert!(matches!(r, Err(ClientError::FailedHeaderVerification { .. })));
    // beyond the clock drift
    let r = s.update_client(&id, header(h(0, 2), 21 * SEC, b"x"), 11 * SEC, h(0, 7));
    assert!(matches!(r, Err(ClientError::FailedHeaderVerification { .. })));
    // untrusted validator set
    let mut hd = header(h(0, 2), 12 * SEC, b"x");
    hd.trusted_validators_hash = b"other".to_vec();
    let r = s.update_client(&id, hd, 11 * SEC, h(0, 7));
    assert!(matches!(r, Err(ClientError::FailedHeaderVerification { .. })));
    // exactly one third signed is not more than one third
    let mut hd = header(h(0, 2), 12 * SEC, b"x");
    hd.signed_power = 1;
    let r = s.update_client(&id, hd, 11 * SEC, h(0, 7));
    assert!(matches!(r, Err(ClientError::FailedHeaderVerification { .. })));
    assert_eq!(s.get_client_state(&id).unwrap().latest_height, h(0, 1));
}

#[test]
fn missing_client_is_reported() {
    let mut s = store();
    let id = ClientId { client_type: TAG.to_string(), counter: 3 };
    assert!(matches!(s.get_client_state(&id), Err(ClientError::MissingClientState { .. })));
    assert!(matches!(s.client_status(&id, 0), Err(ClientError::MissingClientState { .. })));
    let r = s.update_client(&id, header(h(0, 2), 1, b"x"), 2, h(0, 1));
    assert!(matches!(r, Err(ClientError::MissingClientState { client_id }) if client_id.counter == 3));
    assert!(matches!(s.get_update_metadata(&id, h(0, 1)), Err(ClientError::MissingUpdateMetaData { .. })));
}

#[test]
fn wrong_client_type_in_id_is_missing() {
    let (s, _) = store_with_client(h(0, 1), 0);
    let id = ClientId { client_type: "06-solomachine".to_string(), counter: 0 };
    assert!(matches!(s.get_client_state(&id), Err(ClientError::MissingClientState { .. })));
}

#[test]
fn creation_errors() {
    let mut s = store();
    let r = s.create_client("bad tag!".to_string(), client_state(h(0, 1)), consensus(0, b"r"), 0, h(0, 1));
    assert!(matches!(r, Err(ClientError::InvalidClientIdentifier(_))));
    let r = s.create_client("06-solomachine".to_string(), client_state(h(0, 1)), consensus(0, b"r"), 0, h(0, 1));
    assert!(matches!(r, Err(ClientError::InvalidClientStateType { actual }) if actual == "06-solomachine"));
    let mut cs = client_state(h(0, 1));
    cs.trust_threshold = TrustThreshold { numerator: 1, denominator: 4 };
    let r = s.create_client(TAG.to_string(), cs, consensus(0, b"r"), 0, h(0, 1));
    assert!(matches!(r, Err(ClientError::InvalidTrustThreshold { numerator: 1, denominator: 4 })));
    let r = s.create_client(TAG.to_string(), client_state(h(0, 0)), consensus(0, b"r"), 0, h(0, 1));
    assert!(matches!(r, Err(ClientError::InvalidHeight)));
    let r = s.create_client(TAG.to_string(), client_state(h(0, 1)), consensus(0, b"r"), 101 * SEC, h(0, 1));
    assert!(matches!(r, Err(ClientError::InvalidStatus { actual: Status::Expired })));
    assert_eq!(s.num_clients(), 0);
}

#[test]
fn proof_height_errors() {
    let (mut s, id) = store_with_client(h(0, 2), 0);
    s.update_client(&id, header(h(0, 5), 1 * SEC, b"root5"), 1 * SEC, h(0, 7)).unwrap();
    let r = s.proof_consensus_state(&id, h(0, 6), 1 * SEC);
    assert!(matches!(r, Err(ClientError::InvalidProofHeight { actual, expected }) if actual == h(0, 5) && expected == h(0, 6)));
    let r = s.proof_consensus_state(&id, h(0, 3), 1 * SEC);
    assert!(matches!(r, Err(ClientError::MissingConsensusState { height, .. }) if height == h(0, 3)));
    let (_, c) = s.proof_consensus_state(&id, h(0, 5), 1 * SEC).unwrap();
    assert_eq!(c.root, b"root5".to_vec());
}

#[test]
fn empty_proof_fails_commitment_check() {
    let (s, id) = store_with_client(h(0, 2), 0);
    let r = s.verify_membership(&id, h(0, 2), 1, &empty_proof(), &vec![b"k".to_vec()], &b"v".to_vec());
    assert!(matches!(r, Err(ClientError::FailedIcs23Verification(CommitmentError::MissingMerkleProof))));
    let r = s.verify_non_membership(&id, h(0, 2), 1, &empty_proof(), &vec![b"k".to_vec()]);
    assert!(matches!(r, Err(ClientError::FailedIcs23Verification(CommitmentError::MissingMerkleProof))));
}

#[test]
fn proof_result_maps_errors() {
    assert!(proof_result(Ok(())).is_ok());
    let r = proof_result(Err(CommitmentError::InvalidMerkleProof));
    assert!(matches!(r, Err(ClientError::FailedIcs23Verification(CommitmentError::InvalidMerkleProof))));
}

#[test]
fn error_conversions() {
    let e: ClientError = UpgradeClientError::InvalidUpgradePlan { reason: "late".to_string() }.into();
    assert!(matches!(e.upgrade_cause(), Some(UpgradeClientError::InvalidUpgradePlan { .. })));
    let e: ClientError = "broken".into();
    assert!(matches!(e, ClientError::Other { ref description } if description == "broken"));
    assert!(e.upgrade_cause().is_none());
    let e = ClientError::FailedIcs23Verification(CommitmentError::MissingMerkleRoot);
    assert!(matches!(e.commitment_cause(), Some(CommitmentError::MissingMerkleRoot)));
    let u = UpgradeClientError::InvalidUpgradeClientProof(CommitmentError::MissingMerkleRoot);
    assert!(u.commitment_cause().is_some());
    let u = UpgradeClientError::Other { reason: "x".to_string() };
    assert!(u.commitment_cause().is_none());
}

#[test]
fn height_order() {
    assert!(h(0, 9).is_lower(&h(1, 0)));
    assert!(h(1, 2).is_lower(&h(1, 3)));
    assert!(!h(1, 3).is_lower(&h(1, 3)));
    assert!(!h(2, 0).is_lower(&h(1, 9)));
    assert_eq!(Height::min(h(1, 0), h(0, 9)), h(0, 9));
}

#[test]
fn voting_power_threshold() {
    let t = TrustThreshold { numerator: 1, denominator: 3 };
    assert!(check_voting_power(&t, 2, 3));
    assert!(!check_voting_power(&t, 1, 3));
    assert!(!check_voting_power(&t, 4, 3));
    assert!(!check_voting_power(&t, 0, 0));
    assert!(check_voting_power(&t, u64::MAX, u64::MAX));
    assert!(TrustThreshold { numerator: 2, denominator: 3 }.is_valid());
    assert!(!TrustThreshold { numerator: 1, denominator: 0 }.is_valid());
    assert!(!TrustThreshold { numerator: 4, denominator: 3 }.is_valid());
}

#[test]
fn header_checks_and_conflicts() {
    let cs = client_state(h(0, 1));
    let trusted = consensus(10, b"r");
    assert!(check_header(&cs, &trusted, &header(h(0, 2), 11, b"x"), 11).is_ok());
    assert!(detect_conflict(&header(h(0, 2), 5, b"a"), &header(h(0, 3), 5, b"a")));
    assert!(!detect_conflict(&header(h(0, 2), 5, b"a"), &header(h(0, 3), 6, b"b")));
    assert!(detect_conflict(&header(h(0, 2), 5, b"a"), &header(h(0, 2), 6, b"a")));
    assert!(bytes_equal(&b"abc".to_vec(), &b"abc".to_vec()));
    assert!(!bytes_equal(&b"abc".to_vec(), &b"abd".to_vec()));
    assert!(!bytes_equal(&b"ab".to_vec(), &b"abc".to_vec()));
}

/// A two-level Cosmos proof that `value` is stored under `key` in the store
/// named `store`, and the root it commits to.
fn cosmos_proof(store: &[u8], key: &[u8], value: &[u8]) -> (MerkleProof, Vec<u8>) {
    // an IAVL leaf prefix: height 0, size 1, version 1
    let mut leaf = iavl_spec().leaf_spec.unwrap();
    leaf.prefix = vec![0, 2, 2];
    let inner = ExistenceProof {
        key: key.to_vec(),
        value: value.to_vec(),
        leaf: Some(leaf),
        path: vec![],
    };
    let subroot = calculate_existence_root::<HostFunctionsManager>(&inner).unwrap();
    let outer = ExistenceProof {
        key: store.to_vec(),
        value: subroot,
        leaf: tendermint_spec().leaf_spec,
        path: vec![],
    };
    let root = calculate_existence_root::<HostFunctionsManager>(&outer).unwrap();
    let proof = MerkleProof {
        proofs: vec![
            CommitmentProof { proof: Some(Proof::Exist(inner)) },
            CommitmentProof { proof: Some(Proof::Exist(outer)) },
        ],
    };
    (proof, root)
}

#[test]
fn valid_membership_proof_is_accepted() {
    let (proof, root) = cosmos_proof(b"ibc", b"clients/07-tendermint-0", b"state");
    let mut s = store();
    let id = s
        .create_client(TAG.to_string(), client_state(h(0, 3)), consensus(0, &root), 0, h(0, 1))
        .unwrap();
    let path = vec![b"ibc".to_vec(), b"clients/07-tendermint-0".to_vec()];
    assert!(s.verify_membership(&id, h(0, 3), 1, &proof, &path, &b"state".to_vec()).is_ok());
    let r = s.verify_membership(&id, h(0, 3), 1, &proof, &path, &b"other".to_vec());
    assert!(matches!(r, Err(ClientError::FailedIcs23Verification(_))));
    let wrong_key = vec![b"ibc".to_vec(), b"clients/07-tendermint-1".to_vec()];
    let r = s.verify_membership(&id, h(0, 3), 1, &proof, &wrong_key, &b"state".to_vec());
    assert!(matches!(r, Err(ClientError::FailedIcs23Verification(_))));
    // an existence proof is no proof of absence
    let r = s.verify_non_membership(&id, h(0, 3), 1, &proof, &path);
    assert!(matches!(r, Err(ClientError::FailedIcs23Verification(_))));
}

#[test]
fn upgrade_within_one_revision_moves_to_next() {
    let (mut s, id) = store_with_client(h(0, 1000), 0);
    s.apply_upgrade(&id, h(0, 1001), client_state(h(0, 1001)), consensus(7, b"n"), Ok(()), Ok(()), 8, h(0, 20))
        .unwrap();
    let cs = s.get_client_state(&id).unwrap();
    assert_eq!(cs.latest_height, h(1, 1001));
    assert_eq!(cs.frozen_height, None);
    assert_eq!(s.get_consensus_state(&id, h(1, 1001)).unwrap().root, b"n".to_vec());
    assert_eq!(s.client_status(&id, 8).unwrap(), Status::Active);
}

#[test]
fn upgrade_far_ahead_takes_next_revision() {
    let (mut s, id) = store_with_client(h(0, 10), 0);
    s.apply_upgrade(&id, h(5, 3), client_state(h(5, 3)), consensus(7, b"n"), Ok(()), Ok(()), 8, h(0, 20)).unwrap();
    assert_eq!(s.get_client_state(&id).unwrap().latest_height, h(1, 3));
}

#[test]
fn upgrade_proof_errors_within_one_revision() {
    let (mut s, id) = store_with_client(h(0, 1000), 0);
    let r = s.apply_upgrade(
        &id,
        h(0, 1001),
        client_state(h(0, 1001)),
        consensus(7, b"n"),
        Err(CommitmentError::InvalidMerkleProof),
        Ok(()),
        8,
        h(0, 20),
    );
    assert!(matches!(
        r,
        Err(ClientError::Upgrade(UpgradeClientError::InvalidUpgradeClientProof(
            CommitmentError::InvalidMerkleProof
        )))
    ));
    let r = s.apply_upgrade(
        &id,
        h(0, 1001),
        client_state(h(0, 1001)),
        consensus(7, b"n"),
        Ok(()),
        Err(CommitmentError::FailedToVerifyMembership),
        8,
        h(0, 20),
    );
    assert!(matches!(
        r,
        Err(ClientError::Upgrade(UpgradeClientError::InvalidUpgradeConsensusStateProof(
            CommitmentError::FailedToVerifyMembership
        )))
    ));
    assert_eq!(s.get_client_state(&id).unwrap().latest_height, h(0, 1000));
}

#[test]
fn upgrade_past_last_revision_is_rejected() {
    let (mut s, id) = store_with_client(h(u64::MAX, 10), 0);
    let r = s.apply_upgrade(&id, h(u64::MAX, 11), client_state(h(0, 1)), consensus(7, b"n"), Ok(()), Ok(()), 8, h(0, 20));
    assert!(matches!(r, Err(ClientError::Upgrade(UpgradeClientError::InvalidUpgradePlan { .. }))));
    assert_eq!(s.get_client_state(&id).unwrap().latest_height, h(u64::MAX, 10));
}

#[test]
fn upgrade_checks_proofs_against_old_root() {
    let (proof, root) = cosmos_proof(b"upgrade", b"upgradedClient", b"encoded");
    let mut s = store();
    let mut cs = client_state(h(0, 1000));
    cs.upgrade_path = vec![b"upgrade".to_vec()];
    let id = s.create_client(TAG.to_string(), cs, consensus(0, &root), 0, h(0, 1)).unwrap();
    // the client-state proof holds; the consensus-state proof is for another key
    let r = s.upgrade_client(
        &id,
        h(1, 1001),
        client_state(h(1, 1001)),
        consensus(7, b"upgraded"),
        &proof,
        &proof,
        &b"encoded".to_vec(),
        &b"encoded".to_vec(),
        8,
        h(0, 20),
    );
    assert!(matches!(
        r,
        Err(ClientError::Upgrade(UpgradeClientError::InvalidUpgradeConsensusStateProof(_)))
    ));
    assert_eq!(s.get_client_state(&id).unwrap().latest_height, h(0, 1000));
}
