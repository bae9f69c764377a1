use vstd::prelude::*;
use crate::constants::ENCRYPTED_STATE_SIZE;
use crate::errors::DarkPoolError;
use crate::events::PoolStateUpdated;
use crate::keys::Pubkey;

verus! {

/// The running aggregate of a market's bets, readable by the compute
/// cluster alone.
#[derive(Debug)]
pub struct EncryptedPoolState {
    /// The market this pool belongs to.
    pub market: Pubkey,
    /// The encrypted totals, as the cluster last returned them.
    pub encrypted_state: Vec<u8>,
    /// 0 before activation, 1 on activation, one more with every snapshot applied.
    pub state_version: u64,
    /// Request whose result was applied last.
    pub last_computation_id: u64,
    /// Requests submitted whose result has not been applied yet.
    pub pending_computations: u32,
    /// Moment of the last change.
    pub last_updated: i64,
    /// Bump of the pool state's address.
    pub bump: u8,
    /// Whether the pool has been activated.
    pub is_initialized: bool,
}

/// A pool state as a mathematical value.
pub struct PoolView {
    pub market: Pubkey,
    pub encrypted_state: Seq<u8>,
    pub state_version: u64,
    pub last_computation_id: u64,
    pub pending_computations: u32,
    pub last_updated: i64,
    pub bump: u8,
    pub is_initialized: bool,
}

impl View for EncryptedPoolState {
    type V = PoolView;

    open spec fn view(&self) -> PoolView {
        PoolView {
            market: self.market,
            encrypted_state: self.encrypted_state@,
            state_version: self.state_version,
            last_computation_id: self.last_computation_id,
            pending_computations: self.pending_computations,
            last_updated: self.last_updated,
            bump: self.bump,
            is_initialized: self.is_initialized,
        }
    }
}

impl PoolView {
    /// The pool takes snapshots: it is activated and its version is positive.
    pub open spec fn is_ready(self) -> bool {
        self.is_initialized && self.state_version > 0
    }

    /// What every pool made and changed by this library satisfies: its
    /// version is 0 exactly until it is activated.
    pub open spec fn wf(self) -> bool {
        self.is_initialized <==> self.state_version > 0
    }

    /// The pool once activated: marked initialized, at version 1.
    pub open spec fn activated(self) -> PoolView {
        PoolView { is_initialized: true, state_version: 1, ..self }
    }

    /// The pool with one more request in flight.
    pub open spec fn with_request(self) -> PoolView
        recommends
            self.pending_computations < u32::MAX,
    {
        PoolView { pending_computations: (self.pending_computations + 1) as u32, ..self }
    }

    /// Why a snapshot of the given length cannot be applied, if it cannot.
    pub open spec fn snapshot_refusal(self, len: nat) -> Option<DarkPoolError> {
        if !self.is_initialized {
            Some(DarkPoolError::PoolStateNotInitialized)
        } else if len > ENCRYPTED_STATE_SIZE {
            Some(DarkPoolError::EncryptedStateTooLarge)
        } else if self.state_version == u64::MAX {
            Some(DarkPoolError::Overflow)
        } else {
            None
        }
    }

    /// The pool after a snapshot has replaced its payload: one version
    /// further, one request fewer in flight (never below zero).
    pub open spec fn with_snapshot(self, new_state: Seq<u8>, computation_id: u64, now: i64) -> PoolView
        recommends
            self.state_version < u64::MAX,
    {
        PoolView {
            encrypted_state: new_state,
            state_version: (self.state_version + 1) as u64,
            last_computation_id: computation_id,
            pending_computations: if self.pending_computations == 0 {
                0
            } else {
                (self.pending_computations - 1) as u32
            },
            last_updated: now,
            ..self
        }
    }
}

impl EncryptedPoolState {
    /// Number of snapshots applied since activation, plus one; 0 before activation.
    pub fn state_version(&self) -> (version: u64)
        ensures
            version == self@.state_version,
    {
        self.state_version
    }

    /// Number of requests in flight.
    pub fn pending_computations(&self) -> (pending: u32)
        ensures
            pending == self@.pending_computations,
    {
        self.pending_computations
    }

    /// Whether the pool takes snapshots.
    pub fn is_ready(&self) -> (ready: bool)
        ensures
            ready == self@.is_ready(),
    {
        self.is_initialized && self.state_version > 0
    }

    /// Activates the pool: it becomes initialized, at version 1.
    pub fn activate(&mut self)
        ensures
            final(self)@ == old(self)@.activated(),
            final(self)@.is_ready(),
            final(self)@.wf(),
    {
        self.is_initialized = true;
        self.state_version = 1;
    }

    /// Replaces the encrypted payload by a new snapshot.
    ///
    /// Refused, with the pool unchanged, when the pool is not activated
    /// (`PoolStateNotInitialized`), when the snapshot is longer than
    /// `ENCRYPTED_STATE_SIZE` bytes (`EncryptedStateTooLarge`) or when the
    /// version cannot grow (`Overflow`), in that order. Otherwise the version
    /// grows by exactly one and the count of requests in flight drops by one,
    /// stopping at zero.
    pub fn apply_snapshot(
        &mut self,
        new_state: Vec<u8>,
        new_commitment: [u8; 32],
        computation_id: u64,
        now: i64,
    ) -> (result: Result<PoolStateUpdated, DarkPoolError>)
        ensures
            match old(self)@.snapshot_refusal(new_state@.len()) {
                Some(e) => result == Err::<PoolStateUpdated, DarkPoolError>(e) && *final(self)
                    == *old(self),
                None => {
                    &&& final(self)@ == old(self)@.with_snapshot(new_state@, computation_id, now)
                    &&& final(self)@.state_version == old(self)@.state_version + 1
                    &&& result == Ok::<PoolStateUpdated, DarkPoolError>(
                        PoolStateUpdated {
                            market: old(self)@.market,
                            state_version: final(self)@.state_version,
                            commitment: new_commitment,
                            updated_at: now,
                        },
                    )
                },
            },
            old(self)@.wf() ==> final(self)@.wf(),
    {
        if !self.is_initialized {
            return Err(DarkPoolError::PoolStateNotInitialized);
        }
        if new_state.len() > ENCRYPTED_STATE_SIZE {
            return Err(DarkPoolError::EncryptedStateTooLarge);
        }
        let version = match self.state_version.checked_add(1) {
            Some(v) => v,
            None => {
                return Err(DarkPoolError::Overflow);
            },
        };
        self.encrypted_state = new_state;
        self.state_version = version;
        self.last_updated = now;
        self.last_computation_id = computation_id;
        self.pending_computations = self.pending_computations.saturating_sub(1);
        Ok(
            PoolStateUpdated {
                market: self.market,
                state_version: version,
                commitment: new_commitment,
                updated_at: now,
            },
        )
    }
}

} // verus!
