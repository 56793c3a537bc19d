use tokenvesting::accounts::GrantState;
use tokenvesting::address::treasury_authority_seeds;
use tokenvesting::claim::{claim_tokens, commit_claim};
use tokenvesting::errors::ErrorCode;
use tokenvesting::registry::{GrantRegistry, PoolRegistry};
use tokenvesting::schedule::vested_amount;

fn owner() -> Vec<u8> {
    vec![1u8; 32]
}

fn beneficiary() -> Vec<u8> {
    vec![2u8; 32]
}

fn mint() -> Vec<u8> {
    vec![3u8; 32]
}

/// One pool and one grant with the example schedule:
/// total 1000, start 0, end 100, cliff 10.
fn example_setup() -> (PoolRegistry, GrantRegistry, Vec<u8>, Vec<u8>) {
    let name = b"acme".to_vec();
    let mut pools = PoolRegistry::new();
    let pool_id = pools
        .create_vesting_account(&owner(), &mint(), &name)
        .unwrap();
    let mut grants = GrantRegistry::new();
    let grant_id = grants
        .create_employee_account(&pools, &owner(), &pool_id, &beneficiary(), 0, 100, 1000, 10)
        .unwrap();
    (pools, grants, pool_id, grant_id)
}

#[test]
fn example_schedule_walkthrough() {
    let (pools, mut grants, pool_id, grant_id) = example_setup();
    let caller = beneficiary();

    // t = 5: before the cliff.
    assert_eq!(
        claim_tokens(&pools, &grants, &pool_id, &grant_id, &caller, 5),
        Err(ErrorCode::ClaimNotAvailableYet)
    );
    assert_eq!(grants.get_grant(&grant_id).unwrap().total_withdrawn, 0);

    // t = 50: half the schedule has vested.
    let c1 = claim_tokens(&pools, &grants, &pool_id, &grant_id, &caller, 50).unwrap();
    assert_eq!(c1, 500);
    assert_eq!(commit_claim(&mut grants, &grant_id, c1, true), Ok(500));
    assert_eq!(grants.get_grant(&grant_id).unwrap().total_withdrawn, 500);

    // t = 75: three quarters vested, half already withdrawn.
    let c2 = claim_tokens(&pools, &grants, &pool_id, &grant_id, &caller, 75).unwrap();
    assert_eq!(c2, 250);
    assert_eq!(commit_claim(&mut grants, &grant_id, c2, true), Ok(250));
    assert_eq!(grants.get_grant(&grant_id).unwrap().total_withdrawn, 750);

    // t = 200: past the end, the rest is owed.
    let c3 = claim_tokens(&pools, &grants, &pool_id, &grant_id, &caller, 200).unwrap();
    assert_eq!(c3, 250);
    assert_eq!(commit_claim(&mut grants, &grant_id, c3, true), Ok(250));
    assert_eq!(grants.get_grant(&grant_id).unwrap().total_withdrawn, 1000);

    // t = 300: exhausted.
    assert_eq!(
        claim_tokens(&pools, &grants, &pool_id, &grant_id, &caller, 300),
        Err(ErrorCode::NothingToClaim)
    );
}

#[test]
fn claim_by_wrong_caller_is_denied() {
    let (pools, grants, pool_id, grant_id) = example_setup();
    let intruder = vec![9u8; 32];
    assert_eq!(
        claim_tokens(&pools, &grants, &pool_id, &grant_id, &intruder, 50),
        Err(ErrorCode::PermissionDenied)
    );
}

#[test]
fn claim_of_unknown_grant_is_denied() {
    let (pools, grants, pool_id, _) = example_setup();
    let unknown = vec![8u8; 32];
    assert_eq!(
        claim_tokens(&pools, &grants, &pool_id, &unknown, &beneficiary(), 50),
        Err(ErrorCode::PermissionDenied)
    );
}

#[test]
fn claim_against_wrong_pool_is_denied() {
    let (mut pools, grants, _, grant_id) = example_setup();
    // A second pool the grant does not belong to.
    let other_pool = pools
        .create_vesting_account(&owner(), &mint(), &b"other".to_vec())
        .unwrap();
    assert_eq!(
        claim_tokens(&pools, &grants, &other_pool, &grant_id, &beneficiary(), 50),
        Err(ErrorCode::PermissionDenied)
    );
}

#[test]
fn claim_against_missing_pool_is_invalid() {
    let (_, grants, pool_id, grant_id) = example_setup();
    let empty_pools = PoolRegistry::new();
    assert_eq!(
        claim_tokens(&empty_pools, &grants, &pool_id, &grant_id, &beneficiary(), 50),
        Err(ErrorCode::InvalidPool)
    );
}

#[test]
fn pool_creation_is_create_if_absent() {
    let name = b"acme".to_vec();
    let mut pools = PoolRegistry::new();
    let first = pools.create_vesting_account(&owner(), &mint(), &name);
    assert!(first.is_ok());
    let second = pools.create_vesting_account(&owner(), &mint(), &name);
    assert_eq!(second, Err(ErrorCode::AlreadyExists));
}

#[test]
fn grant_creation_is_create_if_absent() {
    let (pools, mut grants, pool_id, _) = example_setup();
    let again = grants.create_employee_account(
        &pools,
        &owner(),
        &pool_id,
        &beneficiary(),
        0,
        100,
        1000,
        10,
    );
    assert_eq!(again, Err(ErrorCode::AlreadyExists));
}

#[test]
fn grant_creation_by_non_owner_is_denied() {
    let (pools, mut grants, pool_id, _) = example_setup();
    let intruder = vec![9u8; 32];
    let other_beneficiary = vec![7u8; 32];
    let r = grants.create_employee_account(
        &pools,
        &intruder,
        &pool_id,
        &other_beneficiary,
        0,
        100,
        1000,
        10,
    );
    assert_eq!(r, Err(ErrorCode::PermissionDenied));
}

#[test]
fn grant_creation_under_missing_pool_is_invalid() {
    let pools = PoolRegistry::new();
    let mut grants = GrantRegistry::new();
    let ghost_pool = vec![6u8; 32];
    let r = grants.create_employee_account(
        &pools,
        &owner(),
        &ghost_pool,
        &beneficiary(),
        0,
        100,
        1000,
        10,
    );
    assert_eq!(r, Err(ErrorCode::InvalidPool));
}

#[test]
fn inverted_schedule_is_rejected_at_creation() {
    let (pools, mut grants, pool_id, _) = example_setup();
    let other_beneficiary = vec![7u8; 32];
    let r = grants.create_employee_account(
        &pools,
        &owner(),
        &pool_id,
        &other_beneficiary,
        100,
        0,
        1000,
        10,
    );
    assert_eq!(r, Err(ErrorCode::InvalidVestingPeriod));
}

#[test]
fn zero_length_schedule_always_fails_at_claim() {
    let (pools, mut grants, pool_id, _) = example_setup();
    let other_beneficiary = vec![7u8; 32];
    let grant_id = grants
        .create_employee_account(&pools, &owner(), &pool_id, &other_beneficiary, 50, 50, 1000, 0)
        .unwrap();
    for now in [50, 51, 100, i64::MAX] {
        assert_eq!(
            claim_tokens(&pools, &grants, &pool_id, &grant_id, &other_beneficiary, now),
            Err(ErrorCode::InvalidVestingPeriod)
        );
    }
}

#[test]
fn oversized_vesting_product_overflows() {
    let (pools, mut grants, pool_id, _) = example_setup();
    let other_beneficiary = vec![7u8; 32];
    let grant_id = grants
        .create_employee_account(
            &pools,
            &owner(),
            &pool_id,
            &other_beneficiary,
            0,
            100,
            u64::MAX,
            0,
        )
        .unwrap();
    assert_eq!(
        claim_tokens(&pools, &grants, &pool_id, &grant_id, &other_beneficiary, 50),
        Err(ErrorCode::CalculationOverflow)
    );
    // Once the schedule has ended no product is formed and the whole
    // amount is owed.
    assert_eq!(
        claim_tokens(&pools, &grants, &pool_id, &grant_id, &other_beneficiary, 100),
        Ok(u64::MAX)
    );
}

#[test]
fn nothing_vested_yet_is_nothing_to_claim() {
    let (pools, mut grants, pool_id, _) = example_setup();
    let other_beneficiary = vec![7u8; 32];
    // No cliff, but at the very start nothing has vested.
    let grant_id = grants
        .create_employee_account(&pools, &owner(), &pool_id, &other_beneficiary, 0, 100, 1000, 0)
        .unwrap();
    assert_eq!(
        claim_tokens(&pools, &grants, &pool_id, &grant_id, &other_beneficiary, 0),
        Err(ErrorCode::NothingToClaim)
    );
}

#[test]
fn unconfirmed_transfer_credits_nothing() {
    let (pools, mut grants, pool_id, grant_id) = example_setup();
    let c = claim_tokens(&pools, &grants, &pool_id, &grant_id, &beneficiary(), 50).unwrap();
    assert_eq!(c, 500);
    assert_eq!(
        commit_claim(&mut grants, &grant_id, c, false),
        Err(ErrorCode::TransferFailed)
    );
    assert_eq!(grants.get_grant(&grant_id).unwrap().total_withdrawn, 0);
    // The same claim is still owed afterwards.
    assert_eq!(
        claim_tokens(&pools, &grants, &pool_id, &grant_id, &beneficiary(), 50),
        Ok(500)
    );
}

#[test]
fn vested_amount_follows_the_linear_formula() {
    assert_eq!(vested_amount(1000, 0, 100, 50), Ok(500));
    assert_eq!(vested_amount(1000, 0, 100, 99), Ok(990));
    assert_eq!(vested_amount(1000, 0, 100, 100), Ok(1000));
    assert_eq!(vested_amount(1000, 0, 100, 200), Ok(1000));
    assert_eq!(vested_amount(1000, 0, 100, -5), Ok(0));
    // The proportion is floored.
    assert_eq!(vested_amount(7, 0, 3, 2), Ok(4));
    assert_eq!(vested_amount(1000, 50, 50, 60), Err(ErrorCode::InvalidVestingPeriod));
    assert_eq!(vested_amount(1000, 100, 0, 60), Err(ErrorCode::InvalidVestingPeriod));
    assert_eq!(vested_amount(u64::MAX, 0, 100, 50), Err(ErrorCode::CalculationOverflow));
}

#[test]
fn derived_addresses_are_deterministic() {
    let name = b"acme".to_vec();
    let mut pools_a = PoolRegistry::new();
    let mut pools_b = PoolRegistry::new();
    let addr_a = pools_a
        .create_vesting_account(&owner(), &mint(), &name)
        .unwrap();
    let addr_b = pools_b
        .create_vesting_account(&owner(), &mint(), &name)
        .unwrap();
    assert_eq!(addr_a, addr_b);
    assert_eq!(addr_a.len(), 32);
}

#[test]
fn derived_addresses_separate_names_and_namespaces() {
    let mut pools = PoolRegistry::new();
    let addr_acme = pools
        .create_vesting_account(&owner(), &mint(), &b"acme".to_vec())
        .unwrap();
    let addr_globex = pools
        .create_vesting_account(&owner(), &mint(), &b"globex".to_vec())
        .unwrap();
    assert_ne!(addr_acme, addr_globex);
    // The treasury lives under its own namespace, apart from the record.
    let pool = pools.get_pool(&addr_acme).unwrap();
    assert_eq!(pool.treasury_token_account.len(), 32);
    assert_ne!(pool.treasury_token_account, pool.address);
    assert_ne!(pool.address, b"acme".to_vec());
}

#[test]
fn grant_addresses_separate_beneficiaries() {
    let (pools, mut grants, pool_id, grant_id) = example_setup();
    let other_beneficiary = vec![7u8; 32];
    let other_id = grants
        .create_employee_account(&pools, &owner(), &pool_id, &other_beneficiary, 0, 100, 500, 10)
        .unwrap();
    assert_ne!(grant_id, other_id);
    assert_eq!(other_id.len(), 32);
}

#[test]
fn pool_records_hold_what_creation_was_given() {
    let (pools, grants, pool_id, grant_id) = example_setup();
    let pool = pools.get_pool(&pool_id).unwrap();
    assert_eq!(pool.owner, owner());
    assert_eq!(pool.mint, mint());
    assert_eq!(pool.company_name, b"acme".to_vec());
    assert_eq!(pool.address, pool_id);
    let grant = grants.get_grant(&grant_id).unwrap();
    assert_eq!(grant.beneficiary, beneficiary());
    assert_eq!(grant.start_time, 0);
    assert_eq!(grant.end_time, 100);
    assert_eq!(grant.cliff_time, 10);
    assert_eq!(grant.total_amount, 1000);
    assert_eq!(grant.total_withdrawn, 0);
    assert_eq!(grant.vesting_account, pool_id);
}

#[test]
fn over_long_name_cannot_derive_a_pool() {
    let name = vec![b'a'; 40];
    let mut pools = PoolRegistry::new();
    assert_eq!(
        pools.create_vesting_account(&owner(), &mint(), &name),
        Err(ErrorCode::InvalidPool)
    );
}

#[test]
fn grant_state_follows_the_clock() {
    let (_, grants, _, grant_id) = example_setup();
    let grant = grants.get_grant(&grant_id).unwrap();
    assert_eq!(grant.state(5), GrantState::PendingCliff);
    assert_eq!(grant.state(10), GrantState::Vesting);
    assert_eq!(grant.state(99), GrantState::Vesting);
    assert_eq!(grant.state(100), GrantState::FullyVested);
    assert_eq!(grant.state(300), GrantState::FullyVested);
    assert!(!grant.is_exhausted());
}

#[test]
fn exhausted_grant_stays_exhausted() {
    let (pools, mut grants, pool_id, grant_id) = example_setup();
    let caller = beneficiary();
    let c = claim_tokens(&pools, &grants, &pool_id, &grant_id, &caller, 200).unwrap();
    assert_eq!(c, 1000);
    commit_claim(&mut grants, &grant_id, c, true).unwrap();
    assert!(grants.get_grant(&grant_id).unwrap().is_exhausted());
    for now in [200, 250, i64::MAX] {
        assert_eq!(
            claim_tokens(&pools, &grants, &pool_id, &grant_id, &caller, now),
            Err(ErrorCode::NothingToClaim)
        );
    }
}

#[test]
fn treasury_capability_is_recomputed_from_the_record() {
    let (pools, _, pool_id, _) = example_setup();
    let pool = pools.get_pool(&pool_id).unwrap();
    let seeds = treasury_authority_seeds(&pool.company_name, pool.treasury_bump);
    assert_eq!(seeds.len(), 3);
    assert_eq!(seeds[0], b"vesting_treasury".to_vec());
    assert_eq!(seeds[1], b"acme".to_vec());
    assert_eq!(seeds[2], vec![pool.treasury_bump]);
}
