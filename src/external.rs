//! The outside types and calls that the client logic relies on: identifier
//! validation and commitment-proof checking.

use vstd::prelude::*;
use ibc_core_commitment_types::commitment::CommitmentRoot;
use ibc_core_commitment_types::error::CommitmentError;
use ibc_core_commitment_types::merkle::{MerklePath, MerkleProof};
use ibc_core_commitment_types::proto::ics23::HostFunctionsManager;
use ibc_core_commitment_types::specs::ProofSpecs;
use ibc_core_host_types::error::IdentifierError;
use ibc_core_host_types::identifiers::ClientType;
use ibc_core_host_types::path::PathBytes;
use crate::state::ProofSpecKind;

verus! {

#[verifier::external_type_specification]
#[verifier::external_body]
pub struct ExCommitmentError(CommitmentError);

#[verifier::external_type_specification]
#[verifier::external_body]
pub struct ExIdentifierError(IdentifierError);

#[verifier::external_type_specification]
#[verifier::external_body]
pub struct ExMerkleProof(MerkleProof);

/// Whether the identifier validation of the host accepts a string as a client
/// type tag.
pub uninterp spec fn client_type_accepted(tag: Seq<char>) -> bool;

/// Relies on `ClientType::new` of `ibc_core_host_types`: it accepts or
/// rejects a tag by its characters alone.
#[verifier::external_body]
pub(crate) fn validate_client_type(tag: &str) -> (r: Result<(), IdentifierError>)
    ensures
        r is Ok <==> client_type_accepted(tag@),
{
    ClientType::new(tag).map(|_| ())
}

/// The key path as byte sequences, root to leaf.
pub open spec fn key_views(key_path: Seq<Vec<u8>>) -> Seq<Seq<u8>> {
    key_path.map_values(|k: Vec<u8>| k@)
}

/// Whether the commitment-proof library accepts `proof` as showing that
/// `value` is stored under `key_path` in the state committed to by `root`.
pub uninterp spec fn membership_accepted(
    proof: MerkleProof,
    specs: ProofSpecKind,
    root: Seq<u8>,
    key_path: Seq<Seq<u8>>,
    value: Seq<u8>,
) -> bool;

/// Whether the commitment-proof library accepts `proof` as showing that
/// nothing is stored under `key_path` in the state committed to by `root`.
pub uninterp spec fn non_membership_accepted(
    proof: MerkleProof,
    specs: ProofSpecKind,
    root: Seq<u8>,
    key_path: Seq<Seq<u8>>,
) -> bool;

/// Relies on `MerkleProof::verify_membership`, run with the specifications of
/// `ProofSpecs::cosmos()`: its verdict depends on its arguments alone, and it
/// never accepts a proof against an empty root, nor one of an empty value.
#[verifier::external_body]
pub(crate) fn merkle_verify_membership(
    proof: &MerkleProof,
    specs: ProofSpecKind,
    root: &Vec<u8>,
    key_path: &Vec<Vec<u8>>,
    value: &Vec<u8>,
) -> (r: Result<(), CommitmentError>)
    ensures
        r is Ok <==> membership_accepted(*proof, specs, root@, key_views(key_path@), value@),
        root@.len() == 0 ==> r is Err,
        value@.len() == 0 ==> r is Err,
{
    let keys = MerklePath::new(key_path.iter().map(PathBytes::from_bytes).collect());
    let root = CommitmentRoot::from_bytes(root).into();
    let specs = match specs {
        ProofSpecKind::Cosmos => ProofSpecs::cosmos(),
    };
    proof.verify_membership::<HostFunctionsManager>(&specs, root, keys, value.clone(), 0)
}

/// Relies on `MerkleProof::verify_non_membership`, run with the
/// specifications of `ProofSpecs::cosmos()`: its verdict depends on its
/// arguments alone, and it never accepts a proof against an empty root.
#[verifier::external_body]
pub(crate) fn merkle_verify_non_membership(
    proof: &MerkleProof,
    specs: ProofSpecKind,
    root: &Vec<u8>,
    key_path: &Vec<Vec<u8>>,
) -> (r: Result<(), CommitmentError>)
    ensures
        r is Ok <==> non_membership_accepted(*proof, specs, root@, key_views(key_path@)),
        root@.len() == 0 ==> r is Err,
{
    let keys = MerklePath::new(key_path.iter().map(PathBytes::from_bytes).collect());
    let root = CommitmentRoot::from_bytes(root).into();
    let specs = match specs {
        ProofSpecKind::Cosmos => ProofSpecs::cosmos(),
    };
    proof.verify_non_membership::<HostFunctionsManager>(&specs, root, keys)
}

} // verus!
