//! The client store and the entry points that act on one client: create,
//! update, submit misbehaviour, verify (non-)membership and upgrade. Each
//! entry point either commits all of its writes or leaves the store as it was.

use vstd::prelude::*;
use ibc_core_commitment_types::error::CommitmentError;
use ibc_core_commitment_types::merkle::MerkleProof;
use crate::error::{ClientError, UpgradeClientError};
use crate::external::{
    client_type_accepted, key_views, membership_accepted, merkle_verify_membership,
    merkle_verify_non_membership, non_membership_accepted, validate_client_type,
};
use crate::header::{check_header, detect_conflict, header_acceptable, headers_conflict};
use crate::height::Height;
use crate::state::{
    compute_status, status_of, ClientId, ClientState, ConsensusEntry, ConsensusState, Header,
    Misbehaviour, Status, UpdateMetadata,
};

verus! {

/// Everything stored for one client.
#[derive(Debug)]
pub struct ClientRecord {
    pub client_type: String,
    pub client_state: ClientState,
    /// The consensus states, in the order in which they were accepted.
    pub entries: Vec<ConsensusEntry>,
}

impl ClientRecord {
    /// Stored heights strictly increase, and the last one is the latest height.
    pub open spec fn wf(self) -> bool {
        &&& self.entries@.len() > 0
        &&& forall|i: int, j: int|
            0 <= i < j < self.entries@.len() ==> (#[trigger] self.entries@[i]).height.lt(
                (#[trigger] self.entries@[j]).height,
            )
        &&& self.entries@.last().height == self.client_state.latest_height
    }

    pub open spec fn latest(self) -> ConsensusState {
        self.entries@.last().consensus_state
    }

    pub open spec fn status(self, now: u64) -> Status {
        status_of(self.client_state, self.latest(), now)
    }

    pub open spec fn has_height(self, h: Height) -> bool {
        exists|k: int| 0 <= k < self.entries@.len() && #[trigger] self.entries@[k].height == h
    }

    /// The entry stored at height `h`, if there is one.
    pub open spec fn entry_at(self, h: Height) -> Option<ConsensusEntry> {
        if self.has_height(h) {
            Some(
                self.entries@[choose|k: int|
                    0 <= k < self.entries@.len() && #[trigger] self.entries@[k].height == h],
            )
        } else {
            None
        }
    }
}

/// The record of client `k` changed to `client_state`, with `entry` appended to
/// its consensus states, and nothing else changed.
pub open spec fn appended(
    s0: Seq<ClientRecord>,
    s1: Seq<ClientRecord>,
    k: int,
    client_state: ClientState,
    entry: ConsensusEntry,
) -> bool {
    &&& 0 <= k < s0.len()
    &&& s1.len() == s0.len()
    &&& forall|j: int| 0 <= j < s0.len() && j != k ==> s1[j] == s0[j]
    &&& s1[k].client_type == s0[k].client_type
    &&& s1[k].client_state == client_state
    &&& s1[k].entries@ == s0[k].entries@.push(entry)
}

/// The record of client `k` with only its client state changed.
pub open spec fn restated(
    s0: Seq<ClientRecord>,
    s1: Seq<ClientRecord>,
    k: int,
    client_state: ClientState,
) -> bool {
    &&& 0 <= k < s0.len()
    &&& s1.len() == s0.len()
    &&& forall|j: int| 0 <= j < s0.len() && j != k ==> s1[j] == s0[j]
    &&& s1[k].client_type == s0[k].client_type
    &&& s1[k].client_state == client_state
    &&& s1[k].entries == s0[k].entries
}

/// Every client of `s0` is still in `s1`, of the same type, with the entries
/// it had stored at the same places.
pub open spec fn keeps_history(s0: Seq<ClientRecord>, s1: Seq<ClientRecord>) -> bool {
    &&& s0.len() <= s1.len()
    &&& forall|c: int|
        0 <= c < s0.len() ==> {
            &&& (#[trigger] s1[c]).client_type == s0[c].client_type
            &&& s0[c].entries@.len() <= s1[c].entries@.len()
            &&& s1[c].entries@.take(s0[c].entries@.len() as int) == s0[c].entries@
        }
}

pub proof fn lemma_keeps_history_refl(s: Seq<ClientRecord>)
    ensures
        keeps_history(s, s),
{
    assert forall|c: int| 0 <= c < s.len() implies s[c].entries@.take(
        s[c].entries@.len() as int,
    ) == s[c].entries@ by {
        assert(s[c].entries@.take(s[c].entries@.len() as int) =~= s[c].entries@);
    }
}

pub proof fn lemma_appended_keeps_history(
    s0: Seq<ClientRecord>,
    s1: Seq<ClientRecord>,
    k: int,
    client_state: ClientState,
    entry: ConsensusEntry,
)
    requires
        appended(s0, s1, k, client_state, entry),
    ensures
        keeps_history(s0, s1),
{
    assert forall|c: int| 0 <= c < s0.len() implies s1[c].entries@.take(
        s0[c].entries@.len() as int,
    ) == s0[c].entries@ by {
        assert(s1[c].entries@.take(s0[c].entries@.len() as int) =~= s0[c].entries@);
    }
}

/// The height an upgrade installs: the upgraded height's place within the
/// revision after the client's current one.
pub open spec fn next_revision_height(latest: Height, upgraded_height: Height) -> Height {
    Height {
        revision_number: (latest.revision_number + 1) as u64,
        revision_height: upgraded_height.revision_height,
    }
}

/// Whether an upgrade path names at least one key and no empty key.
pub open spec fn upgrade_path_valid(path: Seq<Vec<u8>>) -> bool {
    &&& path.len() > 0
    &&& forall|k: int| 0 <= k < path.len() ==> #[trigger] path[k]@.len() > 0
}

/// The clients of one host chain, with the client types it supports.
pub struct ClientStore {
    registry: Vec<String>,
    records: Vec<ClientRecord>,
}

impl ClientId {
    pub fn duplicate(&self) -> (r: ClientId)
        ensures
            r == *self,
    {
        ClientId { client_type: self.client_type.clone(), counter: self.counter }
    }
}

impl ClientStore {
    /// The stored clients; client `k` has the sequence number `k`.
    pub closed spec fn clients(self) -> Seq<ClientRecord> {
        self.records@
    }

    /// The client types this store was set up to support.
    pub closed spec fn registered(self) -> Seq<String> {
        self.registry@
    }

    pub open spec fn wf(self) -> bool {
        forall|k: int| 0 <= k < self.clients().len() ==> #[trigger] self.clients()[k].wf()
    }

    pub open spec fn supports(self, client_type: Seq<char>) -> bool {
        exists|k: int| 0 <= k < self.registered().len() && #[trigger] self.registered()[k]@ == client_type
    }

    pub open spec fn has_client(self, id: ClientId) -> bool {
        &&& id.counter < self.clients().len()
        &&& self.clients()[id.counter as int].client_type@ == id.client_type@
    }

    pub open spec fn record(self, id: ClientId) -> ClientRecord {
        self.clients()[id.counter as int]
    }

    /// The consensus state stored for a client at a height, if any.
    pub open spec fn consensus_at(self, id: ClientId, h: Height) -> Option<ConsensusState> {
        if self.has_client(id) {
            match self.record(id).entry_at(h) {
                Some(e) => Some(e.consensus_state),
                None => None,
            }
        } else {
            None
        }
    }

    /// Why a proof at height `h` cannot be checked for a client, if it cannot.
    pub open spec fn proof_height_error(self, id: ClientId, h: Height, now: u64) -> Option<ClientError> {
        if !self.has_client(id) {
            Some(ClientError::MissingClientState { client_id: id })
        } else if self.record(id).status(now) != Status::Active {
            Some(ClientError::InvalidStatus { actual: self.record(id).status(now) })
        } else if self.record(id).client_state.latest_height.lt(h) {
            Some(
                ClientError::InvalidProofHeight {
                    actual: self.record(id).client_state.latest_height,
                    expected: h,
                },
            )
        } else if !self.record(id).has_height(h) {
            Some(ClientError::MissingConsensusState { client_id: id, height: h })
        } else {
            None
        }
    }

    /// Whether an upgrade of client `id` to `upgraded_height` fails before its
    /// proofs are looked at.
    pub open spec fn upgrade_precheck_fails(self, id: ClientId, upgraded_height: Height) -> bool {
        ||| !self.has_client(id)
        ||| !self.record(id).client_state.latest_height.lt(upgraded_height)
        ||| !upgrade_path_valid(self.record(id).client_state.upgrade_path@)
        ||| self.record(id).client_state.latest_height.revision_number == u64::MAX
    }

    /// A store that supports the given client types and holds no client.
    pub fn new(registry: Vec<String>) -> (r: ClientStore)
        ensures
            r.registered() == registry@,
            r.clients().len() == 0,
            r.wf(),
    {
        ClientStore { registry, records: Vec::new() }
    }

    pub fn num_clients(&self) -> (r: usize)
        ensures
            r == self.clients().len(),
    {
        self.records.len()
    }

    pub fn get_client_state(&self, id: &ClientId) -> (r: Result<&ClientState, ClientError>)
        ensures
            self.has_client(*id) ==> r == Ok::<&ClientState, ClientError>(
                &self.record(*id).client_state,
            ),
            !self.has_client(*id) ==> r == Err::<&ClientState, ClientError>(
                ClientError::MissingClientState { client_id: *id },
            ),
    {
        match self.find_client(id) {
            Some(k) => Ok(&self.records[k].client_state),
            None => Err(ClientError::MissingClientState { client_id: id.duplicate() }),
        }
    }

    pub fn get_consensus_state(&self, id: &ClientId, height: Height) -> (r: Result<
        &ConsensusState,
        ClientError,
    >)
        requires
            self.wf(),
        ensures
            match self.consensus_at(*id, height) {
                Some(c) => r == Ok::<&ConsensusState, ClientError>(&c),
                None => r == Err::<&ConsensusState, ClientError>(
                    ClientError::MissingConsensusState { client_id: *id, height },
                ),
            },
    {
        match self.find_client(id) {
            Some(k) => {
                let entries = &self.records[k].entries;
                match find_height(entries, height) {
                    Some(j) => {
                        proof {
                            lemma_entry_at_index(self.clients()[k as int], j as int);
                        }
                        Ok(&entries[j].consensus_state)
                    },
                    None => Err(
                        ClientError::MissingConsensusState { client_id: id.duplicate(), height },
                    ),
                }
            },
            None => Err(ClientError::MissingConsensusState { client_id: id.duplicate(), height }),
        }
    }

    pub fn get_update_metadata(&self, id: &ClientId, height: Height) -> (r: Result<
        UpdateMetadata,
        ClientError,
    >)
        requires
            self.wf(),
        ensures
            self.has_client(*id) && self.record(*id).entry_at(height) is Some ==> r == Ok::<
                UpdateMetadata,
                ClientError,
            >(self.record(*id).entry_at(height)->0.metadata),
            !(self.has_client(*id) && self.record(*id).entry_at(height) is Some) ==> r == Err::<
                UpdateMetadata,
                ClientError,
            >(ClientError::MissingUpdateMetaData { client_id: *id, height }),
    {
        match self.find_client(id) {
            Some(k) => {
                let entries = &self.records[k].entries;
                match find_height(entries, height) {
                    Some(j) => {
                        proof {
                            lemma_entry_at_index(self.clients()[k as int], j as int);
                        }
                        Ok(entries[j].metadata)
                    },
                    None => Err(
                        ClientError::MissingUpdateMetaData { client_id: id.duplicate(), height },
                    ),
                }
            },
            None => Err(ClientError::MissingUpdateMetaData { client_id: id.duplicate(), height }),
        }
    }

    /// The status of a client at time `now`.
    pub fn client_status(&self, id: &ClientId, now: u64) -> (r: Result<Status, ClientError>)
        requires
            self.wf(),
        ensures
            self.has_client(*id) ==> r == Ok::<Status, ClientError>(self.record(*id).status(now)),
            !self.has_client(*id) ==> r == Err::<Status, ClientError>(
                ClientError::MissingClientState { client_id: *id },
            ),
    {
        match self.find_client(id) {
            Some(k) => {
                let rec = &self.records[k];
                assert(self.clients()[k as int].wf());
                let last = rec.entries.len() - 1;
                Ok(compute_status(&rec.client_state, &rec.entries[last].consensus_state, now))
            },
            None => Err(ClientError::MissingClientState { client_id: id.duplicate() }),
        }
    }

    /// Whether a new client may be created from these states at time `now`.
    pub open spec fn creation_allowed(
        self,
        client_type: Seq<char>,
        client_state: ClientState,
        consensus_state: ConsensusState,
        now: u64,
    ) -> bool {
        &&& client_type_accepted(client_type)
        &&& self.supports(client_type)
        &&& client_state.trust_threshold.valid()
        &&& client_state.latest_height.revision_height > 0
        &&& status_of(client_state, consensus_state, now) == Status::Active
    }

    /// Creates a client from its initial client state and the consensus state
    /// at its latest height, and assigns it the next sequence number.
    pub fn create_client(
        &mut self,
        client_type: String,
        client_state: ClientState,
        consensus_state: ConsensusState,
        now: u64,
        host_height: Height,
    ) -> (r: Result<ClientId, ClientError>)
        requires
            old(self).wf(),
        ensures
            final(self).wf(),
            final(self).registered() == old(self).registered(),
            !client_type_accepted(client_type@) ==> r matches Err(
                ClientError::InvalidClientIdentifier(_),
            ),
            client_type_accepted(client_type@) && !old(self).supports(client_type@) ==> r == Err::<
                ClientId,
                ClientError,
            >(ClientError::InvalidClientStateType { actual: client_type }),
            client_type_accepted(client_type@) && old(self).supports(client_type@)
                && !client_state.trust_threshold.valid() ==> r == Err::<ClientId, ClientError>(
                ClientError::InvalidTrustThreshold {
                    numerator: client_state.trust_threshold.numerator,
                    denominator: client_state.trust_threshold.denominator,
                },
            ),
            client_type_accepted(client_type@) && old(self).supports(client_type@)
                && client_state.trust_threshold.valid() && client_state.latest_height.revision_height
                == 0 ==> r == Err::<ClientId, ClientError>(ClientError::InvalidHeight),
            client_type_accepted(client_type@) && old(self).supports(client_type@)
                && client_state.trust_threshold.valid() && client_state.latest_height.revision_height
                > 0 && status_of(client_state, consensus_state, now) != Status::Active ==> r == Err::<
                ClientId,
                ClientError,
            >(ClientError::InvalidStatus { actual: status_of(client_state, consensus_state, now) }),
            r is Ok <==> old(self).creation_allowed(client_type@, client_state, consensus_state, now),
            r is Ok ==> {
                let n = old(self).clients().len();
                let rec = final(self).clients()[n as int];
                &&& r == Ok::<ClientId, ClientError>(ClientId { client_type, counter: n as u64 })
                &&& final(self).clients().len() == n + 1
                &&& final(self).clients().take(n as int) == old(self).clients()
                &&& rec.client_type == client_type
                &&& rec.client_state == client_state
                &&& rec.entries@ == seq![
                    ConsensusEntry {
                        height: client_state.latest_height,
                        consensus_state,
                        metadata: UpdateMetadata { processed_time: now, processed_height: host_height },
                    },
                ]
            },
            r is Err ==> *final(self) == *old(self),
            keeps_history(old(self).clients(), final(self).clients()),
    {
        proof {
            lemma_keeps_history_refl(self.clients());
        }
        if let Err(e) = validate_client_type(client_type.as_str()) {
            return Err(ClientError::InvalidClientIdentifier(e));
        }
        if !self.is_supported(&client_type) {
            return Err(ClientError::InvalidClientStateType { actual: client_type });
        }
        if !client_state.trust_threshold.is_valid() {
            return Err(
                ClientError::InvalidTrustThreshold {
                    numerator: client_state.trust_threshold.numerator,
                    denominator: client_state.trust_threshold.denominator,
                },
            );
        }
        if client_state.latest_height.revision_height == 0 {
            return Err(ClientError::InvalidHeight);
        }
        let status = compute_status(&client_state, &consensus_state, now);
        if status != Status::Active {
            return Err(ClientError::InvalidStatus { actual: status });
        }
        let counter = self.records.len() as u64;
        let id = ClientId { client_type: client_type.clone(), counter };
        let height = client_state.latest_height;
        let mut entries: Vec<ConsensusEntry> = Vec::new();
        entries.push(
            ConsensusEntry {
                height,
                consensus_state,
                metadata: UpdateMetadata { processed_time: now, processed_height: host_height },
            },
        );
        let ghost before = self.records@;
        self.records.push(ClientRecord { client_type, client_state, entries });
        proof {
            assert(self.records@.take(before.len() as int) =~= before);
            assert forall|k: int| 0 <= k < self.clients().len() implies #[trigger] self.clients()[k].wf() by {
                if k < before.len() {
                    assert(self.clients()[k] == before[k]);
                }
            }
            assert forall|c: int| 0 <= c < before.len() implies (#[trigger] self.clients()[c]).entries@.take(
                before[c].entries@.len() as int,
            ) == before[c].entries@ by {
                assert(self.clients()[c].entries@.take(before[c].entries@.len() as int)
                    =~= before[c].entries@);
            }
        }
        Ok(id)
    }

    /// Accepts a header that extends the client's latest consensus state: the
    /// consensus state it commits to is stored at its height, which becomes
    /// the client's latest height.
    pub fn update_client(&mut self, id: &ClientId, header: Header, now: u64, host_height: Height) -> (r:
        Result<(), ClientError>)
        requires
            old(self).wf(),
        ensures
            final(self).wf(),
            final(self).registered() == old(self).registered(),
            !old(self).has_client(*id) ==> r == Err::<(), ClientError>(
                ClientError::MissingClientState { client_id: *id },
            ),
            old(self).has_client(*id) && old(self).record(*id).status(now) != Status::Active ==> r
                == Err::<(), ClientError>(
                ClientError::InvalidStatus { actual: old(self).record(*id).status(now) },
            ),
            old(self).has_client(*id) && old(self).record(*id).status(now) == Status::Active
                && !old(self).record(*id).client_state.latest_height.lt(header.height) ==> r == Err::<
                (),
                ClientError,
            >(ClientError::InvalidUpdateClientMessage),
            old(self).has_client(*id) && old(self).record(*id).status(now) == Status::Active
                && old(self).record(*id).client_state.latest_height.lt(header.height)
                && !header_acceptable(
                old(self).record(*id).client_state,
                old(self).record(*id).latest(),
                header,
                now,
            ) ==> r matches Err(ClientError::FailedHeaderVerification { .. }),
            r is Ok <==> old(self).update_allowed(*id, header, now),
            r is Ok ==> appended(
                old(self).clients(),
                final(self).clients(),
                id.counter as int,
                ClientState { latest_height: header.height, ..old(self).record(*id).client_state },
                ConsensusEntry {
                    height: header.height,
                    consensus_state: header.consensus_state,
                    metadata: UpdateMetadata { processed_time: now, processed_height: host_height },
                },
            ),
            r is Err ==> *final(self) == *old(self),
            keeps_history(old(self).clients(), final(self).clients()),
    {
        proof {
            lemma_keeps_history_refl(self.clients());
        }
        let k = match self.find_client(id) {
            Some(k) => k,
            None => {
                return Err(ClientError::MissingClientState { client_id: id.duplicate() });
            },
        };
        assert(self.clients()[k as int].wf());
        let last = self.records[k].entries.len() - 1;
        let status = compute_status(
            &self.records[k].client_state,
            &self.records[k].entries[last].consensus_state,
            now,
        );
        if status != Status::Active {
            return Err(ClientError::InvalidStatus { actual: status });
        }
        if !self.records[k].client_state.latest_height.is_lower(&header.height) {
            return Err(ClientError::InvalidUpdateClientMessage);
        }
        if let Err(e) = check_header(
            &self.records[k].client_state,
            &self.records[k].entries[last].consensus_state,
            &header,
            now,
        ) {
            return Err(e);
        }
        let height = header.height;
        let entry = ConsensusEntry {
            height,
            consensus_state: header.consensus_state,
            metadata: UpdateMetadata { processed_time: now, processed_height: host_height },
        };
        let ghost before = self.records@;
        self.records[k].entries.push(entry);
        self.records[k].client_state.latest_height = height;
        proof {
            assert(self.records@[k as int].entries@.take(before[k as int].entries@.len() as int)
                =~= before[k as int].entries@);
            self.lemma_append_keeps_wf(before, k as int);
            assert forall|c: int| 0 <= c < before.len() implies (#[trigger] self.clients()[c]).entries@.take(
                before[c].entries@.len() as int,
            ) == before[c].entries@ by {
                assert(self.clients()[c].entries@.take(before[c].entries@.len() as int)
                    =~= before[c].entries@);
            }
        }
        Ok(())
    }

    /// Whether `header` would be accepted as an update of client `id`.
    pub open spec fn update_allowed(self, id: ClientId, header: Header, now: u64) -> bool {
        &&& self.has_client(id)
        &&& self.record(id).status(now) == Status::Active
        &&& self.record(id).client_state.latest_height.lt(header.height)
        &&& header_acceptable(self.record(id).client_state, self.record(id).latest(), header, now)
    }

    /// Appending an entry above the latest height, and moving the latest height
    /// up to it, keeps the store well formed.
    proof fn lemma_append_keeps_wf(self, before: Seq<ClientRecord>, k: int)
        requires
            0 <= k < before.len(),
            forall|j: int| 0 <= j < before.len() ==> #[trigger] before[j].wf(),
            self.clients().len() == before.len(),
            forall|j: int| 0 <= j < before.len() && j != k ==> self.clients()[j] == before[j],
            self.clients()[k].entries@.len() == before[k].entries@.len() + 1,
            self.clients()[k].entries@.take(before[k].entries@.len() as int) == before[k].entries@,
            before[k].client_state.latest_height.lt(self.clients()[k].entries@.last().height),
            self.clients()[k].client_state.latest_height == self.clients()[k].entries@.last().height,
        ensures
            self.wf(),
    {
        let old_es = before[k].entries@;
        let es = self.clients()[k].entries@;
        assert(before[k].wf());
        assert forall|i: int, j: int| 0 <= i < j < es.len() implies (#[trigger] es[i]).height.lt(
            (#[trigger] es[j]).height,
        ) by {
            assert(old_es[i] == es.take(old_es.len() as int)[i]);
            if j < old_es.len() {
                assert(old_es[j] == es.take(old_es.len() as int)[j]);
                assert(old_es[i].height.lt(old_es[j].height));
            } else {
                if i < old_es.len() - 1 {
                    assert(old_es[i].height.lt(old_es[old_es.len() - 1].height));
                }
            }
        }
        assert forall|j: int| 0 <= j < self.clients().len() implies #[trigger] self.clients()[j].wf() by {
            if j != k {
                assert(self.clients()[j] == before[j]);
            }
        }
    }

    /// Whether `misbehaviour` proves a fault of client `id`'s remote chain.
    pub open spec fn misbehaviour_proven(self, id: ClientId, misbehaviour: Misbehaviour, now: u64) -> bool {
        &&& self.has_client(id)
        &&& self.record(id).status(now) == Status::Active
        &&& header_acceptable(
            self.record(id).client_state,
            self.record(id).latest(),
            misbehaviour.header1,
            now,
        )
        &&& header_acceptable(
            self.record(id).client_state,
            self.record(id).latest(),
            misbehaviour.header2,
            now,
        )
        &&& headers_conflict(misbehaviour.header1, misbehaviour.header2)
    }

    /// Freezes a client at the lower height of two valid, conflicting headers.
    pub fn submit_misbehaviour(&mut self, id: &ClientId, misbehaviour: Misbehaviour, now: u64) -> (r:
        Result<(), ClientError>)
        requires
            old(self).wf(),
        ensures
            final(self).wf(),
            final(self).registered() == old(self).registered(),
            !old(self).has_client(*id) ==> r == Err::<(), ClientError>(
                ClientError::MissingClientState { client_id: *id },
            ),
            old(self).has_client(*id) && old(self).record(*id).status(now) != Status::Active ==> r
                == Err::<(), ClientError>(
                ClientError::InvalidStatus { actual: old(self).record(*id).status(now) },
            ),
            old(self).has_client(*id) && old(self).record(*id).status(now) == Status::Active
                && !old(self).misbehaviour_proven(*id, misbehaviour, now) ==> r matches Err(
                ClientError::FailedMisbehaviourHandling { .. },
            ),
            r is Ok <==> old(self).misbehaviour_proven(*id, misbehaviour, now),
            r is Ok ==> restated(
                old(self).clients(),
                final(self).clients(),
                id.counter as int,
                ClientState {
                    frozen_height: Some(
                        if misbehaviour.header2.height.lt(misbehaviour.header1.height) {
                            misbehaviour.header2.height
                        } else {
                            misbehaviour.header1.height
                        },
                    ),
                    ..old(self).record(*id).client_state
                },
            ),
            r is Err ==> *final(self) == *old(self),
            keeps_history(old(self).clients(), final(self).clients()),
    {
        proof {
            lemma_keeps_history_refl(self.clients());
        }
        let k = match self.find_client(id) {
            Some(k) => k,
            None => {
                return Err(ClientError::MissingClientState { client_id: id.duplicate() });
            },
        };
        assert(self.clients()[k as int].wf());
        let last = self.records[k].entries.len() - 1;
        let status = compute_status(
            &self.records[k].client_state,
            &self.records[k].entries[last].consensus_state,
            now,
        );
        if status != Status::Active {
            return Err(ClientError::InvalidStatus { actual: status });
        }
        let client_state = &self.records[k].client_state;
        let trusted = &self.records[k].entries[last].consensus_state;
        if check_header(client_state, trusted, &misbehaviour.header1, now).is_err() {
            return Err(
                ClientError::FailedMisbehaviourHandling {
                    description: String::from_str("first header fails verification"),
                },
            );
        }
        if check_header(client_state, trusted, &misbehaviour.header2, now).is_err() {
            return Err(
                ClientError::FailedMisbehaviourHandling {
                    description: String::from_str("second header fails verification"),
                },
            );
        }
        if !detect_conflict(&misbehaviour.header1, &misbehaviour.header2) {
            return Err(
                ClientError::FailedMisbehaviourHandling {
                    description: String::from_str("the headers do not conflict"),
                },
            );
        }
        let frozen = Height::min(misbehaviour.header1.height, misbehaviour.header2.height);
        let ghost before = self.records@;
        self.records[k].client_state.frozen_height = Some(frozen);
        proof {
            assert forall|j: int| 0 <= j < self.clients().len() implies #[trigger] self.clients()[j].wf() by {
                if j != k {
                    assert(self.clients()[j] == before[j]);
                } else {
                    assert(before[j].wf());
                }
            }
            assert forall|c: int| 0 <= c < before.len() implies (#[trigger] self.clients()[c]).entries@.take(
                before[c].entries@.len() as int,
            ) == before[c].entries@ by {
                assert(self.clients()[c].entries@.take(before[c].entries@.len() as int)
                    =~= before[c].entries@);
            }
        }
        Ok(())
    }

    /// Checks that a proof at `height` may be verified against client `id`,
    /// and gives the client state and the consensus state stored there.
    pub fn proof_consensus_state(&self, id: &ClientId, height: Height, now: u64) -> (r: Result<
        (&ClientState, &ConsensusState),
        ClientError,
    >)
        requires
            self.wf(),
        ensures
            match self.proof_height_error(*id, height, now) {
                Some(e) => r == Err::<(&ClientState, &ConsensusState), ClientError>(e),
                None => r == Ok::<(&ClientState, &ConsensusState), ClientError>(
                    (&self.record(*id).client_state, &self.consensus_at(*id, height)->0),
                ),
            },
    {
        let k = match self.find_client(id) {
            Some(k) => k,
            None => {
                return Err(ClientError::MissingClientState { client_id: id.duplicate() });
            },
        };
        assert(self.clients()[k as int].wf());
        let rec = &self.records[k];
        let last = rec.entries.len() - 1;
        let status = compute_status(&rec.client_state, &rec.entries[last].consensus_state, now);
        if status != Status::Active {
            return Err(ClientError::InvalidStatus { actual: status });
        }
        if rec.client_state.latest_height.is_lower(&height) {
            return Err(
                ClientError::InvalidProofHeight { actual: rec.client_state.latest_height, expected: height },
            );
        }
        match find_height(&rec.entries, height) {
            Some(j) => {
                proof {
                    lemma_entry_at_index(self.clients()[k as int], j as int);
                }
                Ok((&rec.client_state, &rec.entries[j].consensus_state))
            },
            None => Err(ClientError::MissingConsensusState { client_id: id.duplicate(), height }),
        }
    }

    /// Checks a proof that `value` is stored under `key_path` in the remote
    /// chain's state at `height`, against the commitment root stored there.
    pub fn verify_membership(
        &self,
        id: &ClientId,
        height: Height,
        now: u64,
        proof: &MerkleProof,
        key_path: &Vec<Vec<u8>>,
        value: &Vec<u8>,
    ) -> (r: Result<(), ClientError>)
        requires
            self.wf(),
        ensures
            self.proof_height_error(*id, height, now) matches Some(e) ==> r == Err::<(), ClientError>(e),
            self.proof_height_error(*id, height, now) is None && r is Err ==> r matches Err(
                ClientError::FailedIcs23Verification(_),
            ),
            r is Ok <==> self.proof_height_error(*id, height, now) is None && membership_accepted(
                *proof,
                self.record(*id).client_state.proof_specs,
                self.consensus_at(*id, height)->0.root@,
                key_views(key_path@),
                value@,
            ),
            r is Ok ==> self.consensus_at(*id, height)->0.root@.len() > 0 && value@.len() > 0,
    {
        let (client_state, consensus_state) = match self.proof_consensus_state(id, height, now) {
            Ok(found) => found,
            Err(e) => {
                return Err(e);
            },
        };
        let outcome = merkle_verify_membership(
            proof,
            client_state.proof_specs,
            &consensus_state.root,
            key_path,
            value,
        );
        proof_result(outcome)
    }

    /// Checks a proof that nothing is stored under `key_path` in the remote
    /// chain's state at `height`, against the commitment root stored there.
    pub fn verify_non_membership(
        &self,
        id: &ClientId,
        height: Height,
        now: u64,
        proof: &MerkleProof,
        key_path: &Vec<Vec<u8>>,
    ) -> (r: Result<(), ClientError>)
        requires
            self.wf(),
        ensures
            self.proof_height_error(*id, height, now) matches Some(e) ==> r == Err::<(), ClientError>(e),
            self.proof_height_error(*id, height, now) is None && r is Err ==> r matches Err(
                ClientError::FailedIcs23Verification(_),
            ),
            r is Ok <==> self.proof_height_error(*id, height, now) is None
                && non_membership_accepted(
                *proof,
                self.record(*id).client_state.proof_specs,
                self.consensus_at(*id, height)->0.root@,
                key_views(key_path@),
            ),
            r is Ok ==> self.consensus_at(*id, height)->0.root@.len() > 0,
    {
        let (client_state, consensus_state) = match self.proof_consensus_state(id, height, now) {
            Ok(found) => found,
            Err(e) => {
                return Err(e);
            },
        };
        let outcome = merkle_verify_non_membership(
            proof,
            client_state.proof_specs,
            &consensus_state.root,
            key_path,
        );
        proof_result(outcome)
    }

    /// Checks, in order, that client `id` exists, that `upgraded_height` lies
    /// above its latest height and that its upgrade path is well formed, and
    /// gives its client state and latest consensus state.
    pub fn check_upgrade(&self, id: &ClientId, upgraded_height: Height) -> (r: Result<
        (&ClientState, &ConsensusState),
        ClientError,
    >)
        requires
            self.wf(),
        ensures
            !self.has_client(*id) ==> r == Err::<(&ClientState, &ConsensusState), ClientError>(
                ClientError::MissingClientState { client_id: *id },
            ),
            self.has_client(*id) && !self.record(*id).client_state.latest_height.lt(upgraded_height)
                ==> r == Err::<(&ClientState, &ConsensusState), ClientError>(
                ClientError::Upgrade(
                    UpgradeClientError::LowUpgradeHeight {
                        upgraded_height,
                        client_height: self.record(*id).client_state.latest_height,
                    },
                ),
            ),
            self.has_client(*id) && self.record(*id).client_state.latest_height.lt(upgraded_height)
                && !upgrade_path_valid(self.record(*id).client_state.upgrade_path@) ==> r matches Err(
                ClientError::Upgrade(UpgradeClientError::InvalidUpgradePath { .. }),
            ),
            self.has_client(*id) && self.record(*id).client_state.latest_height.lt(upgraded_height)
                && upgrade_path_valid(self.record(*id).client_state.upgrade_path@)
                && self.record(*id).client_state.latest_height.revision_number == u64::MAX ==> r matches Err(
                ClientError::Upgrade(UpgradeClientError::InvalidUpgradePlan { .. }),
            ),
            r is Ok <==> !self.upgrade_precheck_fails(*id, upgraded_height),
            r is Ok ==> r == Ok::<(&ClientState, &ConsensusState), ClientError>(
                (&self.record(*id).client_state, &self.record(*id).latest()),
            ),
    {
        let k = match self.find_client(id) {
            Some(k) => k,
            None => {
                return Err(ClientError::MissingClientState { client_id: id.duplicate() });
            },
        };
        assert(self.clients()[k as int].wf());
        let rec = &self.records[k];
        if !rec.client_state.latest_height.is_lower(&upgraded_height) {
            return Err(
                ClientError::Upgrade(
                    UpgradeClientError::LowUpgradeHeight {
                        upgraded_height,
                        client_height: rec.client_state.latest_height,
                    },
                ),
            );
        }
        let path = &rec.client_state.upgrade_path;
        if path.len() == 0 {
            return Err(
                ClientError::Upgrade(
                    UpgradeClientError::InvalidUpgradePath {
                        reason: String::from_str("the upgrade path is empty"),
                    },
                ),
            );
        }
        let mut i: usize = 0;
        while i < path.len()
            invariant
                self.has_client(*id),
                id.counter == k,
                self.record(*id).client_state.latest_height.lt(upgraded_height),
                *path == self.record(*id).client_state.upgrade_path,
                i <= path@.len(),
                forall|j: int| 0 <= j < i ==> #[trigger] path@[j]@.len() > 0,
            decreases path@.len() - i,
        {
            if path[i].len() == 0 {
                return Err(
                    ClientError::Upgrade(
                        UpgradeClientError::InvalidUpgradePath {
                            reason: String::from_str("the upgrade path holds an empty key"),
                        },
                    ),
                );
            }
            i += 1;
        }
        let current = rec.client_state.latest_height.revision_number;
        if current == u64::MAX {
            return Err(
                ClientError::Upgrade(
                    UpgradeClientError::InvalidUpgradePlan {
                        reason: String::from_str("the client has no next revision"),
                    },
                ),
            );
        }
        let last = rec.entries.len() - 1;
        Ok((&rec.client_state, &rec.entries[last].consensus_state))
    }

    /// Completes an upgrade, given what the commitment-proof library answered
    /// for the proofs of the upgraded client state and consensus state. The
    /// client moves to its next revision: its state is replaced, unfrozen and
    /// set to the upgraded height's place in that revision, where the new
    /// consensus state is stored. An upgraded height that already names the
    /// next revision is installed as it is. Nothing changes unless every check
    /// passes.
    pub fn apply_upgrade(
        &mut self,
        id: &ClientId,
        upgraded_height: Height,
        new_client_state: ClientState,
        new_consensus_state: ConsensusState,
        client_proof_outcome: Result<(), CommitmentError>,
        consensus_proof_outcome: Result<(), CommitmentError>,
        now: u64,
        host_height: Height,
    ) -> (r: Result<(), ClientError>)
        requires
            old(self).wf(),
        ensures
            final(self).wf(),
            final(self).registered() == old(self).registered(),
            !old(self).has_client(*id) ==> r == Err::<(), ClientError>(
                ClientError::MissingClientState { client_id: *id },
            ),
            old(self).has_client(*id) && !old(self).record(*id).client_state.latest_height.lt(
                upgraded_height,
            ) ==> r == Err::<(), ClientError>(
                ClientError::Upgrade(
                    UpgradeClientError::LowUpgradeHeight {
                        upgraded_height,
                        client_height: old(self).record(*id).client_state.latest_height,
                    },
                ),
            ),
            old(self).has_client(*id) && old(self).record(*id).client_state.latest_height.lt(
                upgraded_height,
            ) && !upgrade_path_valid(old(self).record(*id).client_state.upgrade_path@) ==> r matches Err(
                ClientError::Upgrade(UpgradeClientError::InvalidUpgradePath { .. }),
            ),
            old(self).has_client(*id) && old(self).record(*id).client_state.latest_height.lt(
                upgraded_height,
            ) && upgrade_path_valid(old(self).record(*id).client_state.upgrade_path@)
                && old(self).record(*id).client_state.latest_height.revision_number == u64::MAX ==> r
                matches Err(
                ClientError::Upgrade(UpgradeClientError::InvalidUpgradePlan { .. }),
            ),
            r is Ok ==> final(self).record(*id).client_state.latest_height.revision_number
                == old(self).record(*id).client_state.latest_height.revision_number + 1,
            !old(self).upgrade_precheck_fails(*id, upgraded_height) && client_proof_outcome is Err ==> r
                == Err::<(), ClientError>(
                ClientError::Upgrade(
                    UpgradeClientError::InvalidUpgradeClientProof(client_proof_outcome->Err_0),
                ),
            ),
            !old(self).upgrade_precheck_fails(*id, upgraded_height) && client_proof_outcome is Ok
                && consensus_proof_outcome is Err ==> r == Err::<(), ClientError>(
                ClientError::Upgrade(
                    UpgradeClientError::InvalidUpgradeConsensusStateProof(
                        consensus_proof_outcome->Err_0,
                    ),
                ),
            ),
            r is Ok <==> !old(self).upgrade_precheck_fails(*id, upgraded_height)
                && client_proof_outcome is Ok && consensus_proof_outcome is Ok,
            r is Ok ==> appended(
                old(self).clients(),
                final(self).clients(),
                id.counter as int,
                ClientState {
                    latest_height: next_revision_height(
                        old(self).record(*id).client_state.latest_height,
                        upgraded_height,
                    ),
                    frozen_height: None,
                    ..new_client_state
                },
                ConsensusEntry {
                    height: next_revision_height(
                        old(self).record(*id).client_state.latest_height,
                        upgraded_height,
                    ),
                    consensus_state: new_consensus_state,
                    metadata: UpdateMetadata { processed_time: now, processed_height: host_height },
                },
            ),
            r is Err ==> *final(self) == *old(self),
            keeps_history(old(self).clients(), final(self).clients()),
    {
        proof {
            lemma_keeps_history_refl(self.clients());
        }
        let installed = match self.check_upgrade(id, upgraded_height) {
            Err(e) => {
                return Err(e);
            },
            Ok((client_state, _)) => Height {
                revision_number: client_state.latest_height.revision_number + 1,
                revision_height: upgraded_height.revision_height,
            },
        };
        if let Err(e) = client_proof_outcome {
            return Err(ClientError::Upgrade(UpgradeClientError::InvalidUpgradeClientProof(e)));
        }
        if let Err(e) = consensus_proof_outcome {
            return Err(
                ClientError::Upgrade(UpgradeClientError::InvalidUpgradeConsensusStateProof(e)),
            );
        }
        let k = match self.find_client(id) {
            Some(k) => k,
            None => {
                return Err(ClientError::MissingClientState { client_id: id.duplicate() });
            },
        };
        let mut client_state = new_client_state;
        client_state.latest_height = installed;
        client_state.frozen_height = None;
        let entry = ConsensusEntry {
            height: installed,
            consensus_state: new_consensus_state,
            metadata: UpdateMetadata { processed_time: now, processed_height: host_height },
        };
        let ghost before = self.records@;
        assert(before[k as int].wf());
        self.records[k].entries.push(entry);
        self.records[k].client_state = client_state;
        proof {
            assert(self.records@[k as int].entries@.take(before[k as int].entries@.len() as int)
                =~= before[k as int].entries@);
            self.lemma_append_keeps_wf(before, k as int);
            assert forall|c: int| 0 <= c < before.len() implies (#[trigger] self.clients()[c]).entries@.take(
                before[c].entries@.len() as int,
            ) == before[c].entries@ by {
                assert(self.clients()[c].entries@.take(before[c].entries@.len() as int)
                    =~= before[c].entries@);
            }
        }
        Ok(())
    }

    /// Upgrades client `id`: checks the proofs that the remote chain committed
    /// `encoded_client_state` and `encoded_consensus_state` under its upgrade
    /// path, against the client's latest trusted root, and then completes the
    /// upgrade as `apply_upgrade` does. The caller vouches that the two byte
    /// strings encode `new_client_state` and `new_consensus_state`: decoding
    /// lies with the layer that hands the states over, and the contract speaks
    /// of the bytes that the proofs were checked for.
    pub fn upgrade_client(
        &mut self,
        id: &ClientId,
        upgraded_height: Height,
        new_client_state: ClientState,
        new_consensus_state: ConsensusState,
        client_proof: &MerkleProof,
        consensus_proof: &MerkleProof,
        encoded_client_state: &Vec<u8>,
        encoded_consensus_state: &Vec<u8>,
        now: u64,
        host_height: Height,
    ) -> (r: Result<(), ClientError>)
        requires
            old(self).wf(),
        ensures
            final(self).wf(),
            final(self).registered() == old(self).registered(),
            !old(self).has_client(*id) ==> r == Err::<(), ClientError>(
                ClientError::MissingClientState { client_id: *id },
            ),
            old(self).has_client(*id) && !old(self).record(*id).client_state.latest_height.lt(
                upgraded_height,
            ) ==> r == Err::<(), ClientError>(
                ClientError::Upgrade(
                    UpgradeClientError::LowUpgradeHeight {
                        upgraded_height,
                        client_height: old(self).record(*id).client_state.latest_height,
                    },
                ),
            ),
            old(self).has_client(*id) && old(self).record(*id).client_state.latest_height.lt(
                upgraded_height,
            ) && !upgrade_path_valid(old(self).record(*id).client_state.upgrade_path@) ==> r matches Err(
                ClientError::Upgrade(UpgradeClientError::InvalidUpgradePath { .. }),
            ),
            old(self).has_client(*id) && old(self).record(*id).client_state.latest_height.lt(
                upgraded_height,
            ) && upgrade_path_valid(old(self).record(*id).client_state.upgrade_path@)
                && old(self).record(*id).client_state.latest_height.revision_number == u64::MAX ==> r
                matches Err(
                ClientError::Upgrade(UpgradeClientError::InvalidUpgradePlan { .. }),
            ),
            r is Ok ==> final(self).record(*id).client_state.latest_height.revision_number
                == old(self).record(*id).client_state.latest_height.revision_number + 1,
            !old(self).upgrade_precheck_fails(*id, upgraded_height) && r is Err ==> r matches Err(
                ClientError::Upgrade(UpgradeClientError::InvalidUpgradeClientProof(_)),
            ) || r matches Err(
                ClientError::Upgrade(UpgradeClientError::InvalidUpgradeConsensusStateProof(_)),
            ),
            r is Ok <==> !old(self).upgrade_precheck_fails(*id, upgraded_height) && membership_accepted(
                *client_proof,
                old(self).record(*id).client_state.proof_specs,
                old(self).record(*id).latest().root@,
                upgrade_key_path(old(self).record(*id).client_state.upgrade_path@, upgraded_client_key()),
                encoded_client_state@,
            ) && membership_accepted(
                *consensus_proof,
                old(self).record(*id).client_state.proof_specs,
                old(self).record(*id).latest().root@,
                upgrade_key_path(
                    old(self).record(*id).client_state.upgrade_path@,
                    upgraded_consensus_key(),
                ),
                encoded_consensus_state@,
            ),
            r is Ok ==> old(self).record(*id).latest().root@.len() > 0,
            r is Ok ==> appended(
                old(self).clients(),
                final(self).clients(),
                id.counter as int,
                ClientState {
                    latest_height: next_revision_height(
                        old(self).record(*id).client_state.latest_height,
                        upgraded_height,
                    ),
                    frozen_height: None,
                    ..new_client_state
                },
                ConsensusEntry {
                    height: next_revision_height(
                        old(self).record(*id).client_state.latest_height,
                        upgraded_height,
                    ),
                    consensus_state: new_consensus_state,
                    metadata: UpdateMetadata { processed_time: now, processed_height: host_height },
                },
            ),
            r is Err ==> *final(self) == *old(self),
            keeps_history(old(self).clients(), final(self).clients()),
    {
        proof {
            lemma_keeps_history_refl(self.clients());
        }
        let (client_outcome, consensus_outcome) = match self.check_upgrade(id, upgraded_height) {
            Err(e) => {
                return Err(e);
            },
            Ok((client_state, trusted)) => {
                let path = &client_state.upgrade_path;
                let client_key = key_path_with_leaf(
                    path,
                    upgraded_client_key_bytes(),
                );
                let consensus_key = key_path_with_leaf(
                    path,
                    upgraded_consensus_key_bytes(),
                );
                (
                    merkle_verify_membership(
                        client_proof,
                        client_state.proof_specs,
                        &trusted.root,
                        &client_key,
                        encoded_client_state,
                    ),
                    merkle_verify_membership(
                        consensus_proof,
                        client_state.proof_specs,
                        &trusted.root,
                        &consensus_key,
                        encoded_consensus_state,
                    ),
                )
            },
        };
        self.apply_upgrade(
            id,
            upgraded_height,
            new_client_state,
            new_consensus_state,
            client_outcome,
            consensus_outcome,
            now,
            host_height,
        )
    }

    fn is_supported(&self, client_type: &String) -> (r: bool)
        ensures
            r == self.supports(client_type@),
    {
        let mut i: usize = 0;
        while i < self.registry.len()
            invariant
                i <= self.registry@.len(),
                forall|k: int| 0 <= k < i ==> self.registry@[k]@ != client_type@,
            decreases self.registry@.len() - i,
        {
            if self.registry[i] == *client_type {
                assert(self.registered()[i as int]@ == client_type@);
                return true;
            }
            i += 1;
        }
        false
    }

    /// The position of client `id` in the store, if the store holds it.
    fn find_client(&self, id: &ClientId) -> (r: Option<usize>)
        ensures
            r is Some <==> self.has_client(*id),
            r is Some ==> r->0 == id.counter,
    {
        if id.counter < self.records.len() as u64 {
            let k = id.counter as usize;
            if self.records[k].client_type == id.client_type {
                return Some(k);
            }
        }
        None
    }
}

/// The result of a proof check, given what the commitment-proof library
/// answered.
pub fn proof_result(outcome: Result<(), CommitmentError>) -> (r: Result<(), ClientError>)
    ensures
        match outcome {
            Ok(()) => r is Ok,
            Err(e) => r == Err::<(), ClientError>(ClientError::FailedIcs23Verification(e)),
        },
{
    match outcome {
        Ok(()) => Ok(()),
        Err(e) => Err(ClientError::FailedIcs23Verification(e)),
    }
}

pub fn copy_bytes(b: &Vec<u8>) -> (r: Vec<u8>)
    ensures
        r@ == b@,
{
    let mut r: Vec<u8> = Vec::new();
    let mut i: usize = 0;
    while i < b.len()
        invariant
            i <= b@.len(),
            r@ == b@.take(i as int),
        decreases b@.len() - i,
    {
        r.push(b[i]);
        i += 1;
        assert(r@ =~= b@.take(i as int));
    }
    assert(b@.take(b@.len() as int) =~= b@);
    r
}

/// The last key under which an upgraded client state is committed.
pub open spec fn upgraded_client_key() -> Seq<u8> {
    seq![117u8, 112, 103, 114, 97, 100, 101, 100, 67, 108, 105, 101, 110, 116]
}

/// The last key under which an upgraded consensus state is committed.
pub open spec fn upgraded_consensus_key() -> Seq<u8> {
    seq![117u8, 112, 103, 114, 97, 100, 101, 100, 67, 111, 110, 115, 83, 116, 97, 116, 101]
}

/// The key path of an upgraded state: the upgrade path, then `leaf`.
pub open spec fn upgrade_key_path(path: Seq<Vec<u8>>, leaf: Seq<u8>) -> Seq<Seq<u8>> {
    key_views(path).push(leaf)
}

fn upgraded_client_key_bytes() -> (r: Vec<u8>)
    ensures
        r@ == upgraded_client_key(),
{
    let r: Vec<u8> = vec![117u8, 112, 103, 114, 97, 100, 101, 100, 67, 108, 105, 101, 110, 116];
    assert(r@ =~= upgraded_client_key());
    r
}

fn upgraded_consensus_key_bytes() -> (r: Vec<u8>)
    ensures
        r@ == upgraded_consensus_key(),
{
    let r: Vec<u8> = vec![117u8, 112, 103, 114, 97, 100, 101, 100, 67, 111, 110, 115, 83, 116, 97, 116, 101];
    assert(r@ =~= upgraded_consensus_key());
    r
}

/// The key path `path` followed by the key `leaf`.
fn key_path_with_leaf(path: &Vec<Vec<u8>>, leaf: Vec<u8>) -> (r: Vec<Vec<u8>>)
    ensures
        key_views(r@) == upgrade_key_path(path@, leaf@),
{
    let mut r: Vec<Vec<u8>> = Vec::new();
    let mut i: usize = 0;
    while i < path.len()
        invariant
            i <= path@.len(),
            r@.len() == i,
            forall|k: int| 0 <= k < i ==> #[trigger] r@[k]@ == path@[k]@,
        decreases path@.len() - i,
    {
        r.push(copy_bytes(&path[i]));
        i += 1;
    }
    r.push(leaf);
    assert(key_views(r@) =~= upgrade_key_path(path@, leaf@));
    r
}

/// In a well-formed record the entry found at a height is the one stored there.
pub proof fn lemma_entry_at_index(rec: ClientRecord, k: int)
    requires
        rec.wf(),
        0 <= k < rec.entries@.len(),
    ensures
        rec.entry_at(rec.entries@[k].height) == Some(rec.entries@[k]),
{
    let h = rec.entries@[k].height;
    assert(rec.has_height(h));
    let j = choose|j: int| 0 <= j < rec.entries@.len() && #[trigger] rec.entries@[j].height == h;
    if j < k {
        assert(rec.entries@[j].height.lt(rec.entries@[k].height));
    } else if k < j {
        assert(rec.entries@[k].height.lt(rec.entries@[j].height));
    }
}

/// The position of the entry at height `h`, if there is one.
fn find_height(entries: &Vec<ConsensusEntry>, h: Height) -> (r: Option<usize>)
    ensures
        match r {
            Some(k) => k < entries@.len() && entries@[k as int].height == h,
            None => forall|k: int| 0 <= k < entries@.len() ==> entries@[k].height != h,
        },
{
    let mut i: usize = 0;
    while i < entries.len()
        invariant
            i <= entries@.len(),
            forall|k: int| 0 <= k < i ==> entries@[k].height != h,
        decreases entries@.len() - i,
    {
        if entries[i].height == h {
            return Some(i);
        }
        i += 1;
    }
    None
}

} // verus!
