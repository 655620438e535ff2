//! The client error taxonomy: a top-level error and the upgrade-specific
//! errors that it wraps.

use vstd::prelude::*;
use ibc_core_commitment_types::error::CommitmentError;
use ibc_core_host_types::error::IdentifierError;
use crate::height::Height;
use crate::state::{ClientId, Status};

verus! {

/// Every way in which a client operation can fail.
#[derive(Debug)]
pub enum ClientError {
    Upgrade(UpgradeClientError),
    InvalidStatus { actual: Status },
    InvalidTrustThreshold { numerator: u64, denominator: u64 },
    InvalidClientStateType { actual: String },
    InvalidConsensusStateType { actual: String },
    InvalidHeaderType { actual: String },
    InvalidUpdateClientMessage,
    InvalidClientIdentifier(IdentifierError),
    InvalidRawHeader { description: String },
    InvalidMisbehaviourType { actual: String },
    InvalidHeight,
    /// The proof height `expected` lies above the latest height `actual`.
    InvalidProofHeight { actual: Height, expected: Height },
    /// A consensus-state timestamp, in nanoseconds.
    InvalidConsensusStateTimestamp { actual: u64 },
    InvalidAttributeKey { actual: String },
    InvalidAttributeValue { actual: String },
    MissingClientState { client_id: ClientId },
    MissingConsensusState { client_id: ClientId, height: Height },
    MissingUpdateMetaData { client_id: ClientId, height: Height },
    MissingRawClientState,
    MissingRawConsensusState,
    MissingRawClientMessage,
    MissingRawMisbehaviour,
    MissingLocalConsensusState { height: Height },
    MissingAttributeKey,
    MissingAttributeValue,
    AlreadyExistingClientState { client_id: ClientId },
    MismatchedClientRecoveryStates,
    NotAllowedClientRecoveryHeights { subject_height: Height, substitute_height: Height },
    FailedIcs23Verification(CommitmentError),
    FailedHeaderVerification { description: String },
    FailedMisbehaviourHandling { description: String },
    ClientSpecific { description: String },
    Other { description: String },
}

/// The ways in which a client upgrade can fail.
#[derive(Debug)]
pub enum UpgradeClientError {
    InvalidUpgradeClientProof(CommitmentError),
    InvalidUpgradeConsensusStateProof(CommitmentError),
    LowUpgradeHeight { upgraded_height: Height, client_height: Height },
    InvalidUpgradePath { reason: String },
    InvalidUpgradeProposal { reason: String },
    InvalidUpgradePlan { reason: String },
    Other { reason: String },
}

impl From<UpgradeClientError> for ClientError {
    fn from(e: UpgradeClientError) -> (r: ClientError)
        ensures
            r == ClientError::Upgrade(e),
    {
        ClientError::Upgrade(e)
    }
}

impl vstd::std_specs::convert::FromSpecImpl<UpgradeClientError> for ClientError {
    open spec fn obeys_from_spec() -> bool {
        true
    }

    open spec fn from_spec(e: UpgradeClientError) -> ClientError {
        ClientError::Upgrade(e)
    }
}

impl From<&'static str> for ClientError {
    fn from(s: &'static str) -> (r: ClientError)
        ensures
            r matches ClientError::Other { description } && description@ == s@,
    {
        ClientError::Other { description: String::from_str(s) }
    }
}

/// The description is a copy of the text, which a spec function cannot build
/// from a `str`: what `from` returns is stated on `from` itself.
impl vstd::std_specs::convert::FromSpecImpl<&'static str> for ClientError {
    open spec fn obeys_from_spec() -> bool {
        false
    }

    open spec fn from_spec(s: &'static str) -> ClientError {
        ClientError::Other { description: arbitrary() }
    }
}

impl ClientError {
    /// The upgrade error that this error wraps, if it wraps one.
    pub fn upgrade_cause(&self) -> (r: Option<&UpgradeClientError>)
        ensures
            r == (match self {
                ClientError::Upgrade(e) => Some(e),
                _ => None,
            }),
    {
        match self {
            ClientError::Upgrade(e) => Some(e),
            _ => None,
        }
    }

    /// The commitment-proof error that caused this one, if any.
    pub fn commitment_cause(&self) -> (r: Option<&CommitmentError>)
        ensures
            r == (match self {
                ClientError::FailedIcs23Verification(e) => Some(e),
                _ => None,
            }),
    {
        match self {
            ClientError::FailedIcs23Verification(e) => Some(e),
            _ => None,
        }
    }

    /// The identifier error that caused this one, if any.
    pub fn identifier_cause(&self) -> (r: Option<&IdentifierError>)
        ensures
            r == (match self {
                ClientError::InvalidClientIdentifier(e) => Some(e),
                _ => None,
            }),
    {
        match self {
            ClientError::InvalidClientIdentifier(e) => Some(e),
            _ => None,
        }
    }
}

impl UpgradeClientError {
    /// The commitment-proof error that caused this one, if any.
    pub fn commitment_cause(&self) -> (r: Option<&CommitmentError>)
        ensures
            r == (match self {
                UpgradeClientError::InvalidUpgradeClientProof(e) => Some(e),
                UpgradeClientError::InvalidUpgradeConsensusStateProof(e) => Some(e),
                _ => None,
            }),
    {
        match self {
            UpgradeClientError::InvalidUpgradeClientProof(e) => Some(e),
            UpgradeClientError::InvalidUpgradeConsensusStateProof(e) => Some(e),
            _ => None,
        }
    }
}

} // verus!
