//! The verification scheme of this client type: a header is accepted when the
//! validator set recorded in the trusted consensus state signs it with more
//! than the trust threshold of its voting power, within the clock-drift bound.
//! Two accepted headers that cannot both come from an honest chain are
//! misbehaviour.

use vstd::prelude::*;
use crate::error::ClientError;
use crate::state::{ClientState, ConsensusState, Header, TrustThreshold};

verus! {

/// Whether `signed` out of `total` voting power exceeds the threshold fraction.
pub open spec fn power_suffices(t: TrustThreshold, signed: u64, total: u64) -> bool {
    &&& total > 0
    &&& signed <= total
    &&& signed * t.denominator > total * t.numerator
}

/// Whether a header passes verification against the trusted consensus state.
pub open spec fn header_acceptable(
    client_state: ClientState,
    trusted: ConsensusState,
    header: Header,
    now: u64,
) -> bool {
    &&& header.consensus_state.timestamp > trusted.timestamp
    &&& header.consensus_state.timestamp < now + client_state.max_clock_drift
    &&& header.trusted_validators_hash@ == trusted.next_validators_hash@
    &&& power_suffices(client_state.trust_threshold, header.signed_power, header.total_power)
}

/// Whether two headers contradict each other: at one height they commit to
/// different states, or at two heights the lower one does not come first in
/// time.
pub open spec fn headers_conflict(h1: Header, h2: Header) -> bool {
    if h1.height == h2.height {
        ||| h1.consensus_state.root@ != h2.consensus_state.root@
        ||| h1.consensus_state.next_validators_hash@ != h2.consensus_state.next_validators_hash@
        ||| h1.consensus_state.timestamp != h2.consensus_state.timestamp
    } else if h1.height.lt(h2.height) {
        h1.consensus_state.timestamp >= h2.consensus_state.timestamp
    } else {
        h2.consensus_state.timestamp >= h1.consensus_state.timestamp
    }
}

pub fn bytes_equal(a: &Vec<u8>, b: &Vec<u8>) -> (r: bool)
    ensures
        r == (a@ == b@),
{
    if a.len() != b.len() {
        return false;
    }
    let mut i: usize = 0;
    while i < a.len()
        invariant
            a@.len() == b@.len(),
            i <= a@.len(),
            forall|k: int| 0 <= k < i ==> a@[k] == b@[k],
        decreases a@.len() - i,
    {
        if a[i] != b[i] {
            return false;
        }
        i += 1;
    }
    assert(a@ =~= b@);
    true
}

pub fn check_voting_power(t: &TrustThreshold, signed: u64, total: u64) -> (r: bool)
    ensures
        r == power_suffices(*t, signed, total),
{
    if total == 0 || signed > total {
        return false;
    }
    let s = signed as u128;
    let d = t.denominator as u128;
    let n = t.numerator as u128;
    let tt = total as u128;
    assert(s * d <= u64::MAX as u128 * u64::MAX as u128) by (nonlinear_arith)
        requires
            s <= u64::MAX,
            d <= u64::MAX,
    ;
    assert(tt * n <= u64::MAX as u128 * u64::MAX as u128) by (nonlinear_arith)
        requires
            tt <= u64::MAX,
            n <= u64::MAX,
    ;
    s * d > tt * n
}

/// Verifies a header against the trusted consensus state at time `now`.
pub fn check_header(
    client_state: &ClientState,
    trusted: &ConsensusState,
    header: &Header,
    now: u64,
) -> (r: Result<(), ClientError>)
    ensures
        r is Ok <==> header_acceptable(*client_state, *trusted, *header, now),
        r is Err ==> r matches Err(ClientError::FailedHeaderVerification { .. }),
{
    let ts = header.consensus_state.timestamp;
    if ts <= trusted.timestamp {
        return Err(
            ClientError::FailedHeaderVerification {
                description: String::from_str("header timestamp does not follow the trusted state"),
            },
        );
    }
    if (ts as u128) >= (now as u128) + (client_state.max_clock_drift as u128) {
        return Err(
            ClientError::FailedHeaderVerification {
                description: String::from_str("header timestamp lies beyond the clock drift"),
            },
        );
    }
    if !bytes_equal(&header.trusted_validators_hash, &trusted.next_validators_hash) {
        return Err(
            ClientError::FailedHeaderVerification {
                description: String::from_str("header signed by an untrusted validator set"),
            },
        );
    }
    if !check_voting_power(&client_state.trust_threshold, header.signed_power, header.total_power) {
        return Err(
            ClientError::FailedHeaderVerification {
                description: String::from_str("signed voting power below the trust threshold"),
            },
        );
    }
    Ok(())
}

/// Whether two headers contradict each other.
pub fn detect_conflict(h1: &Header, h2: &Header) -> (r: bool)
    ensures
        r == headers_conflict(*h1, *h2),
{
    if h1.height == h2.height {
        !bytes_equal(&h1.consensus_state.root, &h2.consensus_state.root) || !bytes_equal(
            &h1.consensus_state.next_validators_hash,
            &h2.consensus_state.next_validators_hash,
        ) || h1.consensus_state.timestamp != h2.consensus_state.timestamp
    } else if h1.height.is_lower(&h2.height) {
        h1.consensus_state.timestamp >= h2.consensus_state.timestamp
    } else {
        h2.consensus_state.timestamp >= h1.consensus_state.timestamp
    }
}

} // verus!
