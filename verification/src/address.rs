use vstd::prelude::*;

verus! {

/// What `Pubkey::try_find_program_address` returns for a seed list and a
/// 32-byte program id: the derived address together with its bump seed, or
/// nothing when no bump yields an address. The result is a deterministic
/// function of the seeds and the program id alone.
pub uninterp spec fn derived_address(seeds: Seq<Seq<u8>>, program_id: Seq<u8>) -> Option<
    (Seq<u8>, u8),
>;

/// Relies on `Pubkey::try_find_program_address` (solana-pubkey, reached
/// through anchor-lang): off-chain it derives the program address by hashing
/// the seeds, the bump and the program id, deterministically in its inputs;
/// a returned address is 32 bytes; it returns nothing when there are 16 or
/// more seeds or some seed is longer than 32 bytes, and it never panics.
#[verifier::external_body]
fn find_derived_address(seeds: &Vec<Vec<u8>>, program_id: &Vec<u8>) -> (r: Option<(Vec<u8>, u8)>)
    requires
        program_id@.len() == 32,
    ensures
        (match r {
            Some(p) => derived_address(seeds.deep_view(), program_id@) == Some((p.0@, p.1))
                && p.0@.len() == 32,
            None => derived_address(seeds.deep_view(), program_id@) is None,
        }),
        (seeds@.len() >= 16 || exists|i: int|
            0 <= i < seeds@.len() && (#[trigger] seeds@[i])@.len() > 32) ==> r is None,
{
    let mut pid_bytes = [0u8; 32];
    pid_bytes.copy_from_slice(program_id.as_slice());
    let pid = anchor_lang::prelude::Pubkey::new_from_array(pid_bytes);
    let seed_slices: Vec<&[u8]> = seeds.iter().map(|s| s.as_slice()).collect();
    anchor_lang::prelude::Pubkey::try_find_program_address(&seed_slices, &pid).map(
        |p| (p.0.to_bytes().to_vec(), p.1),
    )
}

/// The id of the vesting program, under which every address is derived.
pub open spec fn program_id() -> Seq<u8> {
    seq![
        35u8, 61, 158, 212, 83, 233, 40, 100, 104, 0, 24, 101, 22, 32, 226, 196, 57, 182, 133,
        121, 9, 5, 241, 88, 55, 240, 185, 188, 238, 223, 215, 2,
    ]
}

/// The namespace under which a pool's treasury account is derived.
pub open spec fn treasury_namespace() -> Seq<u8> {
    // the bytes of "vesting_treasury"
    seq![118u8, 101, 115, 116, 105, 110, 103, 95, 116, 114, 101, 97, 115, 117, 114, 121]
}

/// The namespace under which a grant record is derived.
pub open spec fn employee_namespace() -> Seq<u8> {
    // the bytes of "employee_vesting"
    seq![101u8, 109, 112, 108, 111, 121, 101, 101, 95, 118, 101, 115, 116, 105, 110, 103]
}

/// The seed list that derives a pool record: the pool's name.
pub open spec fn pool_seeds(name: Seq<u8>) -> Seq<Seq<u8>> {
    seq![name]
}

/// The seed list that derives a pool's treasury account.
pub open spec fn treasury_seeds(name: Seq<u8>) -> Seq<Seq<u8>> {
    seq![treasury_namespace(), name]
}

/// The seed list that derives a grant record for one beneficiary under one
/// pool.
pub open spec fn employee_seeds(beneficiary: Seq<u8>, pool: Seq<u8>) -> Seq<Seq<u8>> {
    seq![employee_namespace(), beneficiary, pool]
}

/// The derived address of the pool record named `name`.
pub open spec fn pool_address(name: Seq<u8>) -> Option<(Seq<u8>, u8)> {
    derived_address(pool_seeds(name), program_id())
}

/// The derived address of the treasury of the pool named `name`.
pub open spec fn treasury_address(name: Seq<u8>) -> Option<(Seq<u8>, u8)> {
    derived_address(treasury_seeds(name), program_id())
}

/// The derived address of the grant record of `beneficiary` under the pool
/// record at `pool`.
pub open spec fn employee_address(beneficiary: Seq<u8>, pool: Seq<u8>) -> Option<(Seq<u8>, u8)> {
    derived_address(employee_seeds(beneficiary, pool), program_id())
}

fn program_id_bytes() -> (r: Vec<u8>)
    ensures
        r@ == program_id(),
{
    let r: Vec<u8> = vec![
        35u8, 61, 158, 212, 83, 233, 40, 100, 104, 0, 24, 101, 22, 32, 226, 196, 57, 182, 133,
        121, 9, 5, 241, 88, 55, 240, 185, 188, 238, 223, 215, 2,
    ];
    assert(r@ =~= program_id());
    r
}

fn treasury_namespace_bytes() -> (r: Vec<u8>)
    ensures
        r@ == treasury_namespace(),
{
    let r: Vec<u8> = vec![
        118u8, 101, 115, 116, 105, 110, 103, 95, 116, 114, 101, 97, 115, 117, 114, 121,
    ];
    assert(r@ =~= treasury_namespace());
    r
}

fn employee_namespace_bytes() -> (r: Vec<u8>)
    ensures
        r@ == employee_namespace(),
{
    let r: Vec<u8> = vec![
        101u8, 109, 112, 108, 111, 121, 101, 101, 95, 118, 101, 115, 116, 105, 110, 103,
    ];
    assert(r@ =~= employee_namespace());
    r
}

/// The signer seeds that authorize a transfer out of a pool's treasury:
/// the treasury namespace, the pool's name and the treasury bump, exactly
/// the seeds the treasury's address was derived from. The capability is
/// recomputed from the pool record on demand and never stored.
pub fn treasury_authority_seeds(company_name: &Vec<u8>, treasury_bump: u8) -> (r: Vec<Vec<u8>>)
    ensures
        r.deep_view() == seq![treasury_namespace(), company_name@, seq![treasury_bump]],
{
    let mut bump_seed: Vec<u8> = Vec::new();
    bump_seed.push(treasury_bump);
    let mut r: Vec<Vec<u8>> = Vec::new();
    r.push(treasury_namespace_bytes());
    r.push(crate::bytes::copy_bytes(company_name));
    r.push(bump_seed);
    assert(r.deep_view() =~~= seq![treasury_namespace(), company_name@, seq![treasury_bump]]);
    r
}

/// Derives the address and bump of the pool record named `name`.
pub fn derive_pool_address(name: &Vec<u8>) -> (r: Option<(Vec<u8>, u8)>)
    ensures
        (match r {
            Some(p) => pool_address(name@) == Some((p.0@, p.1)) && p.0@.len() == 32,
            None => pool_address(name@) is None,
        }),
{
    let mut seeds: Vec<Vec<u8>> = Vec::new();
    seeds.push(crate::bytes::copy_bytes(name));
    let pid = program_id_bytes();
    assert(seeds.deep_view() =~~= pool_seeds(name@));
    find_derived_address(&seeds, &pid)
}

/// Derives the address and bump of the treasury of the pool named `name`.
pub fn derive_treasury_address(name: &Vec<u8>) -> (r: Option<(Vec<u8>, u8)>)
    ensures
        (match r {
            Some(p) => treasury_address(name@) == Some((p.0@, p.1)) && p.0@.len() == 32,
            None => treasury_address(name@) is None,
        }),
{
    let mut seeds: Vec<Vec<u8>> = Vec::new();
    seeds.push(treasury_namespace_bytes());
    seeds.push(crate::bytes::copy_bytes(name));
    let pid = program_id_bytes();
    assert(seeds.deep_view() =~~= treasury_seeds(name@));
    find_derived_address(&seeds, &pid)
}

/// Derives the address and bump of the grant record of `beneficiary` under
/// the pool record at `pool`.
pub fn derive_employee_address(beneficiary: &Vec<u8>, pool: &Vec<u8>) -> (r: Option<(Vec<u8>, u8)>)
    ensures
        (match r {
            Some(p) => employee_address(beneficiary@, pool@) == Some((p.0@, p.1))
                && p.0@.len() == 32,
            None => employee_address(beneficiary@, pool@) is None,
        }),
{
    let mut seeds: Vec<Vec<u8>> = Vec::new();
    seeds.push(employee_namespace_bytes());
    seeds.push(crate::bytes::copy_bytes(beneficiary));
    seeds.push(crate::bytes::copy_bytes(pool));
    let pid = program_id_bytes();
    assert(seeds.deep_view() =~~= employee_seeds(beneficiary@, pool@));
    find_derived_address(&seeds, &pid)
}

} // verus!
