//! Properties of the client lifecycle that relate several operations or hold
//! of every state.

use vstd::prelude::*;
use crate::height::Height;
use crate::state::{status_of, ClientId, ClientState, ConsensusEntry, ConsensusState, Header, Misbehaviour, Status};
use crate::store::{appended, keeps_history, lemma_entry_at_index, ClientRecord, ClientStore};

verus! {

/// The consensus states stored for a client have strictly increasing heights.
pub proof fn stored_heights_increase(s: ClientStore, id: ClientId, i: int, j: int)
    requires
        s.wf(),
        s.has_client(id),
        0 <= i < j < s.record(id).entries@.len(),
    ensures
        s.record(id).entries@[i].height.lt(s.record(id).entries@[j].height),
{
    assert(s.clients()[id.counter as int].wf());
}

/// A write that appends a consensus state keeps every entry stored before it,
/// of every client, at its place: no height is overwritten.
pub proof fn appending_keeps_history(
    s0: Seq<ClientRecord>,
    s1: Seq<ClientRecord>,
    k: int,
    client_state: ClientState,
    entry: ConsensusEntry,
    c: int,
    i: int,
)
    requires
        appended(s0, s1, k, client_state, entry),
        0 <= c < s0.len(),
        0 <= i < s0[c].entries@.len(),
    ensures
        s1[c].entries@[i] == s0[c].entries@[i],
{
}

/// A header at or below a client's latest height is never accepted as an
/// update, whatever the client's status.
pub proof fn stale_header_never_accepted(s: ClientStore, id: ClientId, header: Header, now: u64)
    requires
        s.has_client(id),
        !s.record(id).client_state.latest_height.lt(header.height),
    ensures
        !s.update_allowed(id, header, now),
{
}

/// Keeping the history of the store composes over successive operations.
pub proof fn history_composes(s0: Seq<ClientRecord>, s1: Seq<ClientRecord>, s2: Seq<ClientRecord>)
    requires
        keeps_history(s0, s1),
        keeps_history(s1, s2),
    ensures
        keeps_history(s0, s2),
{
    assert forall|c: int| 0 <= c < s0.len() implies (#[trigger] s2[c]).entries@.take(
        s0[c].entries@.len() as int,
    ) == s0[c].entries@ by {
        let n0 = s0[c].entries@.len() as int;
        let n1 = s1[c].entries@.len() as int;
        assert(s2[c].entries@.take(n1).take(n0) =~= s2[c].entries@.take(n0));
    }
}

/// A consensus state stored for a client is still stored, unchanged, after
/// any operations that keep the history of the store.
pub proof fn stored_state_persists(s0: ClientStore, s1: ClientStore, id: ClientId, h: Height)
    requires
        s0.wf(),
        s1.wf(),
        keeps_history(s0.clients(), s1.clients()),
        s0.consensus_at(id, h) is Some,
    ensures
        s1.consensus_at(id, h) == s0.consensus_at(id, h),
{
    let c = id.counter as int;
    let r0 = s0.record(id);
    let r1 = s1.record(id);
    assert(s0.clients()[c].wf());
    assert(s1.clients()[c].wf());
    assert(s1.clients()[c].client_type == s0.clients()[c].client_type);
    let k = choose|k: int| 0 <= k < r0.entries@.len() && #[trigger] r0.entries@[k].height == h;
    lemma_entry_at_index(r0, k);
    assert(r1.entries@.take(r0.entries@.len() as int)[k] == r0.entries@[k]);
    lemma_entry_at_index(r1, k);
}

/// A header accepted as an update of a client lies above every height already
/// stored for it.
pub proof fn accepted_header_is_highest(s: ClientStore, id: ClientId, header: Header, now: u64, i: int)
    requires
        s.wf(),
        s.update_allowed(id, header, now),
        0 <= i < s.record(id).entries@.len(),
    ensures
        s.record(id).entries@[i].height.lt(header.height),
{
    let rec = s.record(id);
    assert(s.clients()[id.counter as int].wf());
    if i < rec.entries@.len() - 1 {
        assert(rec.entries@[i].height.lt(rec.entries@[rec.entries@.len() - 1].height));
    }
}

/// Once a client is frozen it is frozen at every time, no update, proof check
/// or further misbehaviour is accepted for it.
pub proof fn frozen_client_rejects_all(
    s: ClientStore,
    id: ClientId,
    header: Header,
    misbehaviour: Misbehaviour,
    height: Height,
    now: u64,
)
    requires
        s.has_client(id),
        s.record(id).client_state.frozen_height is Some,
    ensures
        s.record(id).status(now) == Status::Frozen(s.record(id).client_state.frozen_height->0),
        !s.update_allowed(id, header, now),
        !s.misbehaviour_proven(id, misbehaviour, now),
        s.proof_height_error(id, height, now) == Some(
            crate::error::ClientError::InvalidStatus {
                actual: Status::Frozen(s.record(id).client_state.frozen_height->0),
            },
        ),
{
}

/// An unfrozen client is expired exactly when the current time lies beyond the
/// trusting period after its latest consensus state.
pub proof fn expired_exactly_after_trusting_period(
    client_state: ClientState,
    latest: ConsensusState,
    now: u64,
)
    requires
        client_state.frozen_height is None,
    ensures
        (status_of(client_state, latest, now) == Status::Expired) <==> now > latest.timestamp
            + client_state.trusting_period,
{
}

/// An expired client accepts no update.
pub proof fn expired_client_rejects_update(s: ClientStore, id: ClientId, header: Header, now: u64)
    requires
        s.has_client(id),
        s.record(id).status(now) == Status::Expired,
    ensures
        !s.update_allowed(id, header, now),
{
}

/// A header accepted as an update, read back at its height, yields the
/// consensus state that it carried.
pub proof fn accepted_header_reads_back(
    s0: ClientStore,
    s1: ClientStore,
    id: ClientId,
    header: Header,
    now: u64,
    host_height: Height,
)
    requires
        s0.wf(),
        s1.wf(),
        s0.update_allowed(id, header, now),
        appended(
            s0.clients(),
            s1.clients(),
            id.counter as int,
            ClientState { latest_height: header.height, ..s0.record(id).client_state },
            ConsensusEntry {
                height: header.height,
                consensus_state: header.consensus_state,
                metadata: crate::state::UpdateMetadata {
                    processed_time: now,
                    processed_height: host_height,
                },
            },
        ),
    ensures
        s1.consensus_at(id, header.height) == Some(header.consensus_state),
{
    let rec = s1.record(id);
    let n = rec.entries@.len();
    assert(s1.has_client(id));
    assert(s1.clients()[id.counter as int].wf());
    assert(rec.entries@[n - 1].height == header.height);
    lemma_entry_at_index(rec, n - 1);
}

/// A header accepted as an update, read back at its height after any later
/// operations that keep the history of the store, still yields the consensus
/// state that it carried.
pub proof fn accepted_header_reads_back_later(
    s0: ClientStore,
    s1: ClientStore,
    s2: ClientStore,
    id: ClientId,
    header: Header,
    now: u64,
    host_height: Height,
)
    requires
        s0.wf(),
        s1.wf(),
        s2.wf(),
        s0.update_allowed(id, header, now),
        appended(
            s0.clients(),
            s1.clients(),
            id.counter as int,
            ClientState { latest_height: header.height, ..s0.record(id).client_state },
            ConsensusEntry {
                height: header.height,
                consensus_state: header.consensus_state,
                metadata: crate::state::UpdateMetadata {
                    processed_time: now,
                    processed_height: host_height,
                },
            },
        ),
        keeps_history(s1.clients(), s2.clients()),
    ensures
        s2.consensus_at(id, header.height) == Some(header.consensus_state),
{
    accepted_header_reads_back(s0, s1, id, header, now, host_height);
    stored_state_persists(s1, s2, id, header.height);
}

} // verus!
