use vstd::prelude::*;
use crate::schedule::{claimable_of, span_of, vested_of};

verus! {

/// A pool record: a sponsoring entity's vesting program together with its
/// custody account. Immutable once created; identified by the address
/// derived from its name.
pub struct VestingAccount {
    /// The address derived from `company_name`, under which the record lives.
    pub address: Vec<u8>,
    /// The identity that created the pool and may issue grants under it.
    pub owner: Vec<u8>,
    /// The asset the pool holds.
    pub mint: Vec<u8>,
    /// The custody account the claims are paid from.
    pub treasury_token_account: Vec<u8>,
    /// The pool's name, at most 50 bytes.
    pub company_name: Vec<u8>,
    /// The bump seed of the treasury's derived address.
    pub treasury_bump: u8,
    /// The bump seed of the record's derived address.
    pub bump: u8,
}

/// A grant record: one beneficiary's vesting schedule under one pool.
/// Everything but `total_withdrawn` is immutable once created; only the
/// claim engine credits `total_withdrawn`.
pub struct EmployeeAccount {
    /// The address derived from (beneficiary, pool), under which the record
    /// lives.
    pub address: Vec<u8>,
    /// The identity the grant pays out to.
    pub beneficiary: Vec<u8>,
    /// When the schedule starts vesting.
    pub start_time: i64,
    /// When the schedule is fully vested.
    pub end_time: i64,
    /// Before this time nothing can be claimed.
    pub cliff_time: i64,
    /// The address of the pool record the grant belongs to.
    pub vesting_account: Vec<u8>,
    /// The full amount the grant vests over its schedule.
    pub total_amount: u64,
    /// The amount already paid out; the withdrawal ledger.
    pub total_withdrawn: u64,
    /// The bump seed of the record's derived address.
    pub bump: u8,
}

/// The schedule phase a grant is in at one time, orthogonal to its
/// withdrawal ledger: before the cliff nothing may be released, while the
/// schedule runs the grant vests linearly, and past the end everything has
/// vested.
#[derive(Clone, Copy, Debug, PartialEq, Eq, Structural)]
pub enum GrantState {
    PendingCliff,
    Vesting,
    FullyVested,
}

impl EmployeeAccount {
    /// The whole span of this grant's schedule.
    pub open spec fn spec_span(self) -> int {
        span_of(self.start_time as int, self.end_time as int)
    }

    /// The portion of this grant unlocked at `now`.
    pub open spec fn spec_vested(self, now: int) -> int {
        vested_of(self.total_amount as int, self.start_time as int, self.end_time as int, now)
    }

    /// What this grant still owes at `now`.
    pub open spec fn spec_claimable(self, now: int) -> int {
        claimable_of(
            self.total_amount as int,
            self.start_time as int,
            self.end_time as int,
            self.total_withdrawn as int,
            now,
        )
    }

    /// The ledger invariant: at every time, nothing beyond the vested
    /// portion has been withdrawn, and nothing beyond the total ever vests.
    pub open spec fn ledger_invariant(self, now: int) -> bool {
        &&& 0 <= self.total_withdrawn
        &&& self.total_withdrawn <= self.spec_vested(now)
        &&& self.spec_vested(now) <= self.total_amount
    }

    /// The schedule phase this grant is in at `now`.
    pub open spec fn spec_state(self, now: int) -> GrantState {
        if now < self.cliff_time {
            GrantState::PendingCliff
        } else if now < self.end_time {
            GrantState::Vesting
        } else {
            GrantState::FullyVested
        }
    }

    /// The schedule phase this grant is in at `now`.
    pub fn state(&self, now: i64) -> (r: GrantState)
        ensures
            r == self.spec_state(now as int),
    {
        if now < self.cliff_time {
            GrantState::PendingCliff
        } else if now < self.end_time {
            GrantState::Vesting
        } else {
            GrantState::FullyVested
        }
    }

    /// Whether this grant has paid out everything it ever will: further
    /// claims always fail with `NothingToClaim`.
    pub fn is_exhausted(&self) -> (r: bool)
        ensures
            r == (self.total_withdrawn == self.total_amount),
    {
        self.total_withdrawn == self.total_amount
    }
}

} // verus!
