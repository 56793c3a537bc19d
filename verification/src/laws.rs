use vstd::prelude::*;
use crate::accounts::EmployeeAccount;
use crate::claim::claim_outcome;
use crate::errors::ErrorCode;
use crate::registry::{GrantRegistry, PoolRegistry};
use crate::schedule::{lemma_vested_bounds, lemma_vested_monotonic};

verus! {

/// A grant starts inside the ledger invariant: with nothing withdrawn,
/// `0 <= totalWithdrawn <= vested(now) <= totalAmount` holds at every time.
pub proof fn law_new_grant_invariant(g: EmployeeAccount, now: int)
    requires
        g.total_withdrawn == 0,
        g.spec_span() > 0,
    ensures
        g.ledger_invariant(now),
{
    lemma_vested_bounds(g.total_amount as int, g.start_time as int, g.end_time as int, now);
}

/// The vested amount of a grant is monotonically non-decreasing in the
/// clock, for fixed grant parameters.
pub proof fn law_vested_monotonic(g: EmployeeAccount, now1: int, now2: int)
    requires
        g.spec_span() > 0,
        now1 <= now2,
    ensures
        g.spec_vested(now1) <= g.spec_vested(now2),
{
    lemma_vested_monotonic(
        g.total_amount as int,
        g.start_time as int,
        g.end_time as int,
        now1,
        now2,
    );
}

/// The ledger invariant survives the passage of time: what held of a grant
/// at one time holds at every later time.
pub proof fn law_invariant_preserved_by_time(g: EmployeeAccount, now1: int, now2: int)
    requires
        g.spec_span() > 0,
        g.ledger_invariant(now1),
        now1 <= now2,
    ensures
        g.ledger_invariant(now2),
{
    law_vested_monotonic(g, now1, now2);
    lemma_vested_bounds(g.total_amount as int, g.start_time as int, g.end_time as int, now2);
}

/// Crediting a claim of exactly what is owed keeps the ledger invariant,
/// and the withdrawal ledger never decreases.
pub proof fn law_claim_preserves_invariant(g: EmployeeAccount, now: int, c: int)
    requires
        g.spec_span() > 0,
        g.ledger_invariant(now),
        c == g.spec_claimable(now),
    ensures
        ({
            let g2 = EmployeeAccount { total_withdrawn: (g.total_withdrawn + c) as u64, ..g };
            &&& g2.ledger_invariant(now)
            &&& g2.total_withdrawn >= g.total_withdrawn
        }),
{
    lemma_vested_bounds(g.total_amount as int, g.start_time as int, g.end_time as int, now);
}

/// Claims serialized on one grant never jointly pay out more than what has
/// vested beyond the ledger as it stood before them: a first claim at
/// `now1` and a second at any `now2` no earlier together transfer at most
/// `vested(now2) - totalWithdrawn_before`.
pub proof fn law_serialized_claims_bounded(g: EmployeeAccount, now1: int, now2: int)
    requires
        g.spec_span() > 0,
        g.ledger_invariant(now1),
        now1 <= now2,
    ensures
        ({
            let c1 = g.spec_claimable(now1);
            let g1 = EmployeeAccount { total_withdrawn: (g.total_withdrawn + c1) as u64, ..g };
            let c2 = g1.spec_claimable(now2);
            c1 + c2 <= g.spec_vested(now2) - g.total_withdrawn
        }),
{
    lemma_vested_bounds(g.total_amount as int, g.start_time as int, g.end_time as int, now1);
    law_vested_monotonic(g, now1, now2);
}

/// A full claim round is safe: whenever a claim decision pays out `c` on a
/// grant inside the ledger invariant, `c` fits what the grant still has to
/// give — the settlement's precondition — and crediting it keeps the
/// invariant.
pub proof fn law_claim_round_preserves_invariant(
    pools: PoolRegistry,
    grants: GrantRegistry,
    pool_id: Seq<u8>,
    employee_id: Seq<u8>,
    caller: Seq<u8>,
    now: i64,
    c: u64,
)
    requires
        claim_outcome(pools, grants, pool_id, employee_id, caller, now) == Ok::<u64, ErrorCode>(c),
        grants.spec_grant(employee_id).ledger_invariant(now as int),
    ensures
        ({
            let g = grants.spec_grant(employee_id);
            let g2 = EmployeeAccount { total_withdrawn: (g.total_withdrawn + c) as u64, ..g };
            &&& c + g.total_withdrawn <= g.total_amount
            &&& g2.ledger_invariant(now as int)
        }),
{
    let g = grants.spec_grant(employee_id);
    lemma_vested_bounds(g.total_amount as int, g.start_time as int, g.end_time as int, now as int);
    law_claim_preserves_invariant(g, now as int, c as int);
}

/// An authorized claim before the cliff always fails `ClaimNotAvailableYet`.
/// `claim_tokens` only reads the registries, so the failed attempt mutates
/// no record.
pub proof fn law_claim_before_cliff_fails(
    pools: PoolRegistry,
    grants: GrantRegistry,
    pool_id: Seq<u8>,
    employee_id: Seq<u8>,
    caller: Seq<u8>,
    now: i64,
)
    requires
        grants.has_grant(employee_id),
        grants.spec_grant(employee_id).beneficiary@ == caller,
        grants.spec_grant(employee_id).vesting_account@ == pool_id,
        pools.has_pool(pool_id),
        now < grants.spec_grant(employee_id).cliff_time,
    ensures
        claim_outcome(pools, grants, pool_id, employee_id, caller, now) == Err::<u64, ErrorCode>(
            ErrorCode::ClaimNotAvailableYet,
        ),
{
}

/// An authorized claim on a zero-length schedule, at or past the cliff,
/// always fails `InvalidVestingPeriod`.
pub proof fn law_zero_length_schedule_rejected(
    pools: PoolRegistry,
    grants: GrantRegistry,
    pool_id: Seq<u8>,
    employee_id: Seq<u8>,
    caller: Seq<u8>,
    now: i64,
)
    requires
        grants.has_grant(employee_id),
        grants.spec_grant(employee_id).beneficiary@ == caller,
        grants.spec_grant(employee_id).vesting_account@ == pool_id,
        pools.has_pool(pool_id),
        now >= grants.spec_grant(employee_id).cliff_time,
        grants.spec_grant(employee_id).start_time == grants.spec_grant(employee_id).end_time,
    ensures
        claim_outcome(pools, grants, pool_id, employee_id, caller, now) == Err::<u64, ErrorCode>(
            ErrorCode::InvalidVestingPeriod,
        ),
{
}

/// A grant whose ledger has reached its total is exhausted: every further
/// authorized claim fails `NothingToClaim`.
pub proof fn law_exhausted_grant_claims_nothing(
    pools: PoolRegistry,
    grants: GrantRegistry,
    pool_id: Seq<u8>,
    employee_id: Seq<u8>,
    caller: Seq<u8>,
    now: i64,
)
    requires
        grants.has_grant(employee_id),
        grants.spec_grant(employee_id).beneficiary@ == caller,
        grants.spec_grant(employee_id).vesting_account@ == pool_id,
        pools.has_pool(pool_id),
        now >= grants.spec_grant(employee_id).cliff_time,
        grants.spec_grant(employee_id).spec_span() > 0,
        !crate::schedule::vesting_overflows(
            grants.spec_grant(employee_id).total_amount,
            grants.spec_grant(employee_id).start_time,
            grants.spec_grant(employee_id).end_time,
            now,
        ),
        grants.spec_grant(employee_id).total_withdrawn == grants.spec_grant(
            employee_id,
        ).total_amount,
    ensures
        claim_outcome(pools, grants, pool_id, employee_id, caller, now) == Err::<u64, ErrorCode>(
            ErrorCode::NothingToClaim,
        ),
{
    let g = grants.spec_grant(employee_id);
    lemma_vested_bounds(g.total_amount as int, g.start_time as int, g.end_time as int, now as int);
}

} // verus!
