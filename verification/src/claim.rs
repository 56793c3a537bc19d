use vstd::prelude::*;
use crate::accounts::EmployeeAccount;
use crate::bytes::bytes_eq;
use crate::errors::ErrorCode;
use crate::registry::{GrantRegistry, PoolRegistry};
use crate::schedule::{vested_amount, vesting_overflows};

verus! {

/// What one claim call decides, step by step: the grant must resolve and be
/// the caller's under the named pool, the pool must resolve and match the
/// grant's stored reference, the cliff must have passed, the schedule must
/// have a positive span, the vesting product must fit the numeric range,
/// and something must be left to claim; then the claim pays out exactly
/// what `claimable_of` owes.
pub open spec fn claim_outcome(
    pools: PoolRegistry,
    grants: GrantRegistry,
    pool_id: Seq<u8>,
    employee_id: Seq<u8>,
    caller: Seq<u8>,
    now: i64,
) -> Result<u64, ErrorCode> {
    if !grants.has_grant(employee_id) {
        Err(ErrorCode::PermissionDenied)
    } else {
        let g = grants.spec_grant(employee_id);
        if g.beneficiary@ != caller || g.vesting_account@ != pool_id {
            Err(ErrorCode::PermissionDenied)
        } else if !pools.has_pool(pool_id) {
            Err(ErrorCode::InvalidPool)
        } else if now < g.cliff_time {
            Err(ErrorCode::ClaimNotAvailableYet)
        } else if g.spec_span() == 0 {
            Err(ErrorCode::InvalidVestingPeriod)
        } else if vesting_overflows(g.total_amount, g.start_time, g.end_time, now) {
            Err(ErrorCode::CalculationOverflow)
        } else if g.spec_claimable(now as int) == 0 {
            Err(ErrorCode::NothingToClaim)
        } else {
            Ok(g.spec_claimable(now as int) as u64)
        }
    }
}

/// Decides one claim: resolves the grant at `employee_id` and the pool at
/// `pool_id`, checks authorization, cliff, schedule and ledger, and returns
/// the amount owed to the beneficiary, exactly as `claim_outcome` lays it
/// out. Reads only: the ledger is credited separately, by `commit_claim`,
/// once the transfer is confirmed, so a failed claim never mutates any
/// record.
pub fn claim_tokens(
    pools: &PoolRegistry,
    grants: &GrantRegistry,
    pool_id: &Vec<u8>,
    employee_id: &Vec<u8>,
    caller: &Vec<u8>,
    now: i64,
) -> (r: Result<u64, ErrorCode>)
    requires
        pools.wf(),
        grants.wf(),
    ensures
        r == claim_outcome(*pools, *grants, pool_id@, employee_id@, caller@, now),
{
    let g = match grants.get_grant(employee_id) {
        Some(g) => g,
        None => {
            return Err(ErrorCode::PermissionDenied);
        },
    };
    if !bytes_eq(&g.beneficiary, caller) || !bytes_eq(&g.vesting_account, pool_id) {
        return Err(ErrorCode::PermissionDenied);
    }
    let pool = match pools.get_pool(pool_id) {
        Some(p) => p,
        None => {
            return Err(ErrorCode::InvalidPool);
        },
    };
    // Defense in depth: the resolved pool must be the one the grant stores.
    if !bytes_eq(&pool.address, &g.vesting_account) {
        return Err(ErrorCode::InvalidPool);
    }
    if now < g.cliff_time {
        return Err(ErrorCode::ClaimNotAvailableYet);
    }
    let vested = match vested_amount(g.total_amount, g.start_time, g.end_time, now) {
        Ok(v) => v,
        Err(e) => {
            return Err(e);
        },
    };
    let claimable = if vested >= g.total_withdrawn {
        vested - g.total_withdrawn
    } else {
        0
    };
    if claimable == 0 {
        return Err(ErrorCode::NothingToClaim);
    }
    Ok(claimable)
}

/// Settles one prepared claim of `amount` against the ledger: only a
/// confirmed transfer is credited, in one failure domain with the transfer
/// itself; an unconfirmed transfer changes nothing and surfaces
/// `TransferFailed`. The exclusive borrow of the store serializes
/// settlements, so no two claims on one grant can both read a stale ledger.
pub fn commit_claim(
    grants: &mut GrantRegistry,
    employee_id: &Vec<u8>,
    amount: u64,
    transfer_confirmed: bool,
) -> (r: Result<u64, ErrorCode>)
    requires
        old(grants).wf(),
        old(grants).has_grant(employee_id@),
        amount + old(grants).spec_grant(employee_id@).total_withdrawn <= old(grants).spec_grant(
            employee_id@,
        ).total_amount,
    ensures
        final(grants).wf(),
        !transfer_confirmed ==> r == Err::<u64, ErrorCode>(ErrorCode::TransferFailed)
            && final(grants).grants@ == old(grants).grants@,
        transfer_confirmed ==> ({
            let i = old(grants).grant_index(employee_id@);
            let g = old(grants).grants@[i];
            let g2 = EmployeeAccount {
                total_withdrawn: (g.total_withdrawn + amount) as u64,
                ..g
            };
            r == Ok::<u64, ErrorCode>(amount)
                && final(grants).grants@ == old(grants).grants@.update(i, g2)
        }),
{
    if !transfer_confirmed {
        return Err(ErrorCode::TransferFailed);
    }
    let i = match grants.grant_position(employee_id) {
        Some(i) => i,
        None => {
            proof {
                assert(false);
            }
            return Err(ErrorCode::TransferFailed);
        },
    };
    let mut g = grants.grants.remove(i);
    g.total_withdrawn = g.total_withdrawn + amount;
    grants.grants.insert(i, g);
    proof {
        let gi = old(grants).grant_index(employee_id@);
        let g0 = old(grants).grants@[gi];
        let g2 = EmployeeAccount { total_withdrawn: (g0.total_withdrawn + amount) as u64, ..g0 };
        assert(grants.grants@ =~= old(grants).grants@.update(gi, g2));
        assert forall|a: int, b: int|
            0 <= a < b < grants.grants@.len() implies grants.grants@[a].address@
            != grants.grants@[b].address@ by {
            assert(old(grants).grants@[a].address@ != old(grants).grants@[b].address@);
            assert(grants.grants@[a].address@ == old(grants).grants@[a].address@);
            assert(grants.grants@[b].address@ == old(grants).grants@[b].address@);
        }
    }
    Ok(amount)
}

} // verus!
