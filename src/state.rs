//! The data model: client identifiers, client and consensus states, headers,
//! misbehaviour evidence, and the lifecycle status derived from them.

use vstd::prelude::*;
use crate::height::Height;

verus! {

/// Identifies a client on the host chain: the tag of its client type and the
/// sequence number that the store assigned to it.
#[derive(Debug)]
pub struct ClientId {
    pub client_type: String,
    pub counter: u64,
}

/// The lifecycle status of a client.
#[derive(Clone, Copy, Debug, PartialEq, Eq, Structural)]
pub enum Status {
    Active,
    Expired,
    Frozen(Height),
}

/// The fraction of the trusted voting power that must sign a header.
#[derive(Clone, Copy, Debug, PartialEq, Eq, Structural)]
pub struct TrustThreshold {
    pub numerator: u64,
    pub denominator: u64,
}

impl TrustThreshold {
    /// A threshold lies between one third and one, with a non-zero denominator.
    pub open spec fn valid(self) -> bool {
        &&& self.denominator > 0
        &&& self.numerator <= self.denominator
        &&& 3 * self.numerator >= self.denominator
    }

    pub fn is_valid(&self) -> (r: bool)
        ensures
            r == self.valid(),
    {
        self.denominator > 0 && self.numerator <= self.denominator && 3 * (self.numerator as u128)
            >= self.denominator as u128
    }
}

/// The proof specifications a client checks commitment proofs against.
#[derive(Clone, Copy, Debug, PartialEq, Eq, Structural)]
pub enum ProofSpecKind {
    /// The two-level layout of Cosmos SDK chains: an IAVL store proof under a
    /// Tendermint multistore proof.
    Cosmos,
}

/// Per-client configuration. Durations and timestamps are in nanoseconds.
#[derive(Debug)]
pub struct ClientState {
    pub trust_threshold: TrustThreshold,
    pub trusting_period: u64,
    pub unbonding_period: u64,
    pub max_clock_drift: u64,
    pub latest_height: Height,
    pub frozen_height: Option<Height>,
    pub proof_specs: ProofSpecKind,
    /// The keys under which the remote chain commits a planned upgrade.
    pub upgrade_path: Vec<Vec<u8>>,
}

/// A snapshot of the remote chain at one height.
#[derive(Debug)]
pub struct ConsensusState {
    /// Nanoseconds since the epoch.
    pub timestamp: u64,
    pub root: Vec<u8>,
    pub next_validators_hash: Vec<u8>,
}

/// When, on the host, a consensus state was accepted.
#[derive(Clone, Copy, Debug, PartialEq, Eq, Structural)]
pub struct UpdateMetadata {
    pub processed_time: u64,
    pub processed_height: Height,
}

/// A stored consensus state with its height and update metadata.
#[derive(Debug)]
pub struct ConsensusEntry {
    pub height: Height,
    pub consensus_state: ConsensusState,
    pub metadata: UpdateMetadata,
}

/// A header of the remote chain: the consensus state it commits to at its
/// height, and the attestation by the validator set that the trusted
/// consensus state names.
#[derive(Debug)]
pub struct Header {
    pub height: Height,
    pub consensus_state: ConsensusState,
    /// The hash of the validator set that signed the header.
    pub trusted_validators_hash: Vec<u8>,
    /// The voting power that signed the header.
    pub signed_power: u64,
    /// The total voting power of the signing validator set.
    pub total_power: u64,
}

/// Evidence of a fault: two headers that should not both exist.
#[derive(Debug)]
pub struct Misbehaviour {
    pub header1: Header,
    pub header2: Header,
}

/// The status of a client, given its state, the consensus state at its latest
/// height and the current time: frozen first, then expired once the trusting
/// period has run out, else active.
pub open spec fn status_of(client_state: ClientState, latest: ConsensusState, now: u64) -> Status {
    match client_state.frozen_height {
        Some(h) => Status::Frozen(h),
        None => if now > latest.timestamp + client_state.trusting_period {
            Status::Expired
        } else {
            Status::Active
        },
    }
}

pub fn compute_status(client_state: &ClientState, latest: &ConsensusState, now: u64) -> (r: Status)
    ensures
        r == status_of(*client_state, *latest, now),
{
    match client_state.frozen_height {
        Some(h) => Status::Frozen(h),
        None => if (now as u128) > (latest.timestamp as u128) + (client_state.trusting_period as u128) {
            Status::Expired
        } else {
            Status::Active
        },
    }
}

} // verus!
