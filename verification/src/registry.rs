use vstd::prelude::*;
use crate::accounts::{EmployeeAccount, VestingAccount};
use crate::address::{
    derive_employee_address, derive_pool_address, derive_treasury_address, employee_address,
    pool_address, treasury_address,
};
use crate::bytes::{bytes_eq, copy_bytes};
use crate::errors::ErrorCode;

verus! {

/// The backing store of the pool records, keyed by their derived addresses.
pub struct PoolRegistry {
    pub pools: Vec<VestingAccount>,
}

impl PoolRegistry {
    /// Create-if-absent keeps the derived addresses unique across the store.
    pub open spec fn wf(self) -> bool {
        forall|i: int, j: int|
            0 <= i < j < self.pools@.len() ==> self.pools@[i].address@ != self.pools@[j].address@
    }

    /// Whether a pool record lives at `addr`.
    pub open spec fn has_pool(self, addr: Seq<u8>) -> bool {
        exists|i: int| 0 <= i < self.pools@.len() && self.pools@[i].address@ == addr
    }

    /// The index of the pool record at `addr`.
    pub open spec fn pool_index(self, addr: Seq<u8>) -> int {
        choose|i: int| 0 <= i < self.pools@.len() && self.pools@[i].address@ == addr
    }

    /// The pool record at `addr`.
    pub open spec fn spec_pool(self, addr: Seq<u8>) -> VestingAccount {
        self.pools@[self.pool_index(addr)]
    }

    /// An empty store.
    pub fn new() -> (r: PoolRegistry)
        ensures
            r.wf(),
            r.pools@.len() == 0,
    {
        PoolRegistry { pools: Vec::new() }
    }

    /// Resolves the pool record at `addr`.
    pub fn get_pool(&self, addr: &Vec<u8>) -> (r: Option<&VestingAccount>)
        requires
            self.wf(),
        ensures
            r is Some <==> self.has_pool(addr@),
            r matches Some(p) ==> *p == self.spec_pool(addr@) && p.address@ == addr@,
    {
        let n = self.pools.len();
        let mut i: usize = 0;
        while i < n
            invariant
                self.wf(),
                n == self.pools@.len(),
                0 <= i <= n,
                forall|j: int| 0 <= j < i ==> self.pools@[j].address@ != addr@,
            decreases n - i,
        {
            if bytes_eq(&self.pools[i].address, addr) {
                proof {
                    assert(self.has_pool(addr@));
                    let k = self.pool_index(addr@);
                    assert(0 <= k < self.pools@.len() && self.pools@[k].address@ == addr@);
                    if k < i as int {
                        assert(self.pools@[k].address@ != self.pools@[i as int].address@);
                    }
                    if (i as int) < k {
                        assert(self.pools@[i as int].address@ != self.pools@[k].address@);
                    }
                    assert(k == i as int);
                }
                return Some(&self.pools[i]);
            }
            i += 1;
        }
        None
    }

    /// Whether a pool record lives at `addr`.
    pub fn contains_pool(&self, addr: &Vec<u8>) -> (r: bool)
        requires
            self.wf(),
        ensures
            r == self.has_pool(addr@),
    {
        self.get_pool(addr).is_some()
    }

    /// Creates the pool record for `company_name`, with create-if-absent
    /// semantics: the record and its treasury account live at the addresses
    /// derived from the name, and a second creation under the same name
    /// fails with `AlreadyExists`. When no address can be derived for the
    /// record or its treasury, the creation fails with `InvalidPool`.
    /// Returns the address of the created record.
    pub fn create_vesting_account(
        &mut self,
        owner: &Vec<u8>,
        mint: &Vec<u8>,
        company_name: &Vec<u8>,
    ) -> (r: Result<Vec<u8>, ErrorCode>)
        requires
            old(self).wf(),
            company_name@.len() <= 50,
        ensures
            final(self).wf(),
            ({
                let pa = pool_address(company_name@);
                let ta = treasury_address(company_name@);
                match r {
                    Ok(addr) => {
                        let p = final(self).pools@.last();
                        &&& pa is Some
                        &&& ta is Some
                        &&& !old(self).has_pool(pa->Some_0.0)
                        &&& final(self).pools@ == old(self).pools@.push(p)
                        &&& addr@ == pa->Some_0.0
                        &&& p.address@ == pa->Some_0.0
                        &&& p.owner@ == owner@
                        &&& p.mint@ == mint@
                        &&& p.treasury_token_account@ == ta->Some_0.0
                        &&& p.company_name@ == company_name@
                        &&& p.treasury_bump == ta->Some_0.1
                        &&& p.bump == pa->Some_0.1
                    },
                    Err(e) => {
                        &&& final(self).pools@ == old(self).pools@
                        &&& (e == ErrorCode::AlreadyExists <==> (pa is Some && old(self).has_pool(
                            pa->Some_0.0,
                        )))
                        &&& (pa is None ==> e == ErrorCode::InvalidPool)
                        &&& ((pa is Some && !old(self).has_pool(pa->Some_0.0)) ==> (e
                            == ErrorCode::InvalidPool && ta is None))
                        &&& (e == ErrorCode::AlreadyExists || e == ErrorCode::InvalidPool)
                    },
                }
            }),
    {
        let pa = match derive_pool_address(company_name) {
            Some(p) => p,
            None => {
                return Err(ErrorCode::InvalidPool);
            },
        };
        if self.contains_pool(&pa.0) {
            return Err(ErrorCode::AlreadyExists);
        }
        let ta = match derive_treasury_address(company_name) {
            Some(t) => t,
            None => {
                return Err(ErrorCode::InvalidPool);
            },
        };
        let out = copy_bytes(&pa.0);
        let record = VestingAccount {
            address: pa.0,
            owner: copy_bytes(owner),
            mint: copy_bytes(mint),
            treasury_token_account: ta.0,
            company_name: copy_bytes(company_name),
            treasury_bump: ta.1,
            bump: pa.1,
        };
        self.pools.push(record);
        proof {
            assert forall|i: int, j: int|
                0 <= i < j < self.pools@.len() implies self.pools@[i].address@
                != self.pools@[j].address@ by {
                if j == self.pools@.len() - 1 {
                    assert(!old(self).has_pool(self.pools@[j].address@));
                    assert(self.pools@[i] == old(self).pools@[i]);
                }
            }
        }
        Ok(out)
    }
}

/// The backing store of the grant records, keyed by their derived addresses.
pub struct GrantRegistry {
    pub grants: Vec<EmployeeAccount>,
}

impl GrantRegistry {
    /// Create-if-absent keeps the derived addresses unique across the store.
    pub open spec fn wf(self) -> bool {
        forall|i: int, j: int|
            0 <= i < j < self.grants@.len() ==> self.grants@[i].address@
                != self.grants@[j].address@
    }

    /// Whether a grant record lives at `addr`.
    pub open spec fn has_grant(self, addr: Seq<u8>) -> bool {
        exists|i: int| 0 <= i < self.grants@.len() && self.grants@[i].address@ == addr
    }

    /// The index of the grant record at `addr`.
    pub open spec fn grant_index(self, addr: Seq<u8>) -> int {
        choose|i: int| 0 <= i < self.grants@.len() && self.grants@[i].address@ == addr
    }

    /// The grant record at `addr`.
    pub open spec fn spec_grant(self, addr: Seq<u8>) -> EmployeeAccount {
        self.grants@[self.grant_index(addr)]
    }

    /// An empty store.
    pub fn new() -> (r: GrantRegistry)
        ensures
            r.wf(),
            r.grants@.len() == 0,
    {
        GrantRegistry { grants: Vec::new() }
    }

    /// The position of the grant record at `addr` in the store.
    pub fn grant_position(&self, addr: &Vec<u8>) -> (r: Option<usize>)
        requires
            self.wf(),
        ensures
            r is Some <==> self.has_grant(addr@),
            r matches Some(i) ==> i as int == self.grant_index(addr@) && i < self.grants@.len(),
    {
        let n = self.grants.len();
        let mut i: usize = 0;
        while i < n
            invariant
                self.wf(),
                n == self.grants@.len(),
                0 <= i <= n,
                forall|j: int| 0 <= j < i ==> self.grants@[j].address@ != addr@,
            decreases n - i,
        {
            if bytes_eq(&self.grants[i].address, addr) {
                proof {
                    assert(self.has_grant(addr@));
                    let k = self.grant_index(addr@);
                    assert(0 <= k < self.grants@.len() && self.grants@[k].address@ == addr@);
                    if k < i as int {
                        assert(self.grants@[k].address@ != self.grants@[i as int].address@);
                    }
                    if (i as int) < k {
                        assert(self.grants@[i as int].address@ != self.grants@[k].address@);
                    }
                    assert(k == i as int);
                }
                return Some(i);
            }
            i += 1;
        }
        None
    }

    /// Resolves the grant record at `addr`.
    pub fn get_grant(&self, addr: &Vec<u8>) -> (r: Option<&EmployeeAccount>)
        requires
            self.wf(),
        ensures
            r is Some <==> self.has_grant(addr@),
            r matches Some(g) ==> *g == self.spec_grant(addr@) && g.address@ == addr@,
    {
        match self.grant_position(addr) {
            Some(i) => Some(&self.grants[i]),
            None => None,
        }
    }

    /// Whether a grant record lives at `addr`.
    pub fn contains_grant(&self, addr: &Vec<u8>) -> (r: bool)
        requires
            self.wf(),
        ensures
            r == self.has_grant(addr@),
    {
        self.grant_position(addr).is_some()
    }

    /// Creates the grant record of `beneficiary` under the pool at `pool_id`,
    /// once and only by the pool's owner: the record lives at the address
    /// derived from (beneficiary, pool), starts with nothing withdrawn, and
    /// a second creation for the same pair fails with `AlreadyExists`.
    /// An inverted schedule (`start_time > end_time`) is rejected outright
    /// with `InvalidVestingPeriod`. Returns the address of the created
    /// record.
    pub fn create_employee_account(
        &mut self,
        pools: &PoolRegistry,
        caller: &Vec<u8>,
        pool_id: &Vec<u8>,
        beneficiary: &Vec<u8>,
        start_time: i64,
        end_time: i64,
        total_amount: u64,
        cliff_time: i64,
    ) -> (r: Result<Vec<u8>, ErrorCode>)
        requires
            old(self).wf(),
            pools.wf(),
        ensures
            final(self).wf(),
            ({
                let ea = employee_address(beneficiary@, pool_id@);
                let pool = pools.spec_pool(pool_id@);
                match r {
                    Ok(addr) => {
                        let g = final(self).grants@.last();
                        &&& pools.has_pool(pool_id@)
                        &&& pool.owner@ == caller@
                        &&& start_time <= end_time
                        &&& ea is Some
                        &&& !old(self).has_grant(ea->Some_0.0)
                        &&& final(self).grants@ == old(self).grants@.push(g)
                        &&& addr@ == ea->Some_0.0
                        &&& g.address@ == ea->Some_0.0
                        &&& g.beneficiary@ == beneficiary@
                        &&& g.start_time == start_time
                        &&& g.end_time == end_time
                        &&& g.cliff_time == cliff_time
                        &&& g.vesting_account@ == pool_id@
                        &&& g.total_amount == total_amount
                        &&& g.total_withdrawn == 0
                        &&& g.bump == ea->Some_0.1
                    },
                    Err(e) => {
                        &&& final(self).grants@ == old(self).grants@
                        &&& (!pools.has_pool(pool_id@) ==> e == ErrorCode::InvalidPool)
                        &&& ((pools.has_pool(pool_id@) && pool.owner@ != caller@) ==> e
                            == ErrorCode::PermissionDenied)
                        &&& ((pools.has_pool(pool_id@) && pool.owner@ == caller@ && start_time
                            > end_time) ==> e == ErrorCode::InvalidVestingPeriod)
                        &&& ((pools.has_pool(pool_id@) && pool.owner@ == caller@ && start_time
                            <= end_time && ea is None) ==> e == ErrorCode::InvalidPool)
                        &&& ((pools.has_pool(pool_id@) && pool.owner@ == caller@ && start_time
                            <= end_time && ea is Some) ==> (e == ErrorCode::AlreadyExists
                            && old(self).has_grant(ea->Some_0.0)))
                    },
                }
            }),
    {
        let pool = match pools.get_pool(pool_id) {
            Some(p) => p,
            None => {
                return Err(ErrorCode::InvalidPool);
            },
        };
        if !bytes_eq(&pool.owner, caller) {
            return Err(ErrorCode::PermissionDenied);
        }
        if start_time > end_time {
            return Err(ErrorCode::InvalidVestingPeriod);
        }
        let ea = match derive_employee_address(beneficiary, pool_id) {
            Some(a) => a,
            None => {
                return Err(ErrorCode::InvalidPool);
            },
        };
        if self.contains_grant(&ea.0) {
            return Err(ErrorCode::AlreadyExists);
        }
        let out = copy_bytes(&ea.0);
        let record = EmployeeAccount {
            address: ea.0,
            beneficiary: copy_bytes(beneficiary),
            start_time,
            end_time,
            cliff_time,
            vesting_account: copy_bytes(pool_id),
            total_amount,
            total_withdrawn: 0,
            bump: ea.1,
        };
        self.grants.push(record);
        proof {
            assert forall|i: int, j: int|
                0 <= i < j < self.grants@.len() implies self.grants@[i].address@
                != self.grants@[j].address@ by {
                if j == self.grants@.len() - 1 {
                    assert(!old(self).has_grant(self.grants@[j].address@));
                    assert(self.grants@[i] == old(self).grants@[i]);
                }
            }
        }
        Ok(out)
    }
}

} // verus!
