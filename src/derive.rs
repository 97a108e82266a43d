//! Program-derived addresses: the pool record's address and the custody
//! authority's, each fixed by a label, other identities and a bump byte.
use vstd::prelude::*;
use anchor_lang::prelude::Pubkey;
use crate::key::Key;

verus! {

/// The address that the runtime derives from `seeds` for `program_id`, or
/// `None` where those seeds give no valid program address.
pub uninterp spec fn program_address_of(seeds: Seq<Seq<u8>>, program_id: Seq<u8>) -> Option<Seq<u8>>;

/// The address and bump that a search over bump bytes finds for `seeds` and
/// `program_id`, or `None` where no bump gives a valid address.
pub uninterp spec fn found_program_address_of(seeds: Seq<Seq<u8>>, program_id: Seq<u8>) -> Option<(Seq<u8>, u8)>;

/// The label that starts the seeds of a pool record: `cercols_pool`.
pub open spec fn pool_label() -> Seq<u8> {
    seq![99u8, 101, 114, 99, 111, 108, 115, 95, 112, 111, 111, 108]
}

/// The label that starts the seeds of a custody authority: `nft_authority`.
pub open spec fn custody_label() -> Seq<u8> {
    seq![110u8, 102, 116, 95, 97, 117, 116, 104, 111, 114, 105, 116, 121]
}

/// Seeds of the pool record for a collection and a creator, before the bump.
pub open spec fn pool_seeds(collection: Seq<u8>, creator: Seq<u8>) -> Seq<Seq<u8>> {
    seq![pool_label(), collection, creator]
}

/// Seeds of the custody authority of the pool at `pool`, before the bump.
pub open spec fn custody_seeds(pool: Seq<u8>) -> Seq<Seq<u8>> {
    seq![custody_label(), pool]
}

/// `seeds` followed by the one-byte bump seed.
pub open spec fn with_bump(seeds: Seq<Seq<u8>>, bump: u8) -> Seq<Seq<u8>> {
    seeds.push(seq![bump])
}

/// The key that `program_address_of` gives, as an optional key view.
pub open spec fn key_opt_view(k: Option<Key>) -> Option<Seq<u8>> {
    match k {
        Some(k) => Some(k@),
        None => None,
    }
}

/// A found address and bump, as an optional view.
pub open spec fn found_opt_view(r: Option<(Key, u8)>) -> Option<(Seq<u8>, u8)> {
    match r {
        Some((k, b)) => Some((k@, b)),
        None => None,
    }
}

/// The seeds, each as its bytes.
pub open spec fn seeds_view(seeds: Seq<Vec<u8>>) -> Seq<Seq<u8>> {
    seeds.map_values(|s: Vec<u8>| s@)
}

/// Relies on `Pubkey::create_program_address`: the derived address, or an
/// error where the seeds give none; its result depends on its arguments alone.
#[verifier::external_body]
fn create_program_address(seeds: &Vec<Vec<u8>>, program_id: &Key) -> (r: Option<Key>)
    ensures
        key_opt_view(r) == program_address_of(seeds_view(seeds@), program_id@),
{
    let refs: Vec<&[u8]> = seeds.iter().map(|s| s.as_slice()).collect();
    let program = Pubkey::new_from_array(program_id.bytes);
    match Pubkey::create_program_address(&refs, &program) {
        Ok(k) => Some(Key { bytes: k.to_bytes() }),
        Err(_) => None,
    }
}

/// Relies on `Pubkey::try_find_program_address`: it appends a bump byte to the
/// seeds and returns the first address that `create_program_address` accepts,
/// with that bump, or `None` where no bump is accepted.
#[verifier::external_body]
fn try_find_program_address(seeds: &Vec<Vec<u8>>, program_id: &Key) -> (r: Option<(Key, u8)>)
    ensures
        found_opt_view(r) == found_program_address_of(seeds_view(seeds@), program_id@),
        r matches Some((k, b)) ==> program_address_of(
            with_bump(seeds_view(seeds@), b),
            program_id@,
        ) == Some(k@),
{
    let refs: Vec<&[u8]> = seeds.iter().map(|s| s.as_slice()).collect();
    let program = Pubkey::new_from_array(program_id.bytes);
    Pubkey::try_find_program_address(&refs, &program).map(|(k, b)| (Key { bytes: k.to_bytes() }, b))
}

fn pool_label_bytes() -> (r: Vec<u8>)
    ensures
        r@ == pool_label(),
{
    let r: Vec<u8> = vec![99u8, 101, 114, 99, 111, 108, 115, 95, 112, 111, 111, 108];
    assert(r@ =~= pool_label());
    r
}

fn custody_label_bytes() -> (r: Vec<u8>)
    ensures
        r@ == custody_label(),
{
    let r: Vec<u8> = vec![110u8, 102, 116, 95, 97, 117, 116, 104, 111, 114, 105, 116, 121];
    assert(r@ =~= custody_label());
    r
}

fn key_bytes(k: &Key) -> (r: Vec<u8>)
    ensures
        r@ == k@,
{
    let mut r: Vec<u8> = Vec::new();
    let mut i: usize = 0;
    while i < 32
        invariant
            0 <= i <= 32,
            r@ =~= k@.subrange(0, i as int),
        decreases 32 - i,
    {
        r.push(k.bytes[i]);
        i = i + 1;
    }
    assert(r@ =~= k@);
    r
}

fn build_pool_seeds(collection: &Key, creator: &Key) -> (r: Vec<Vec<u8>>)
    ensures
        seeds_view(r@) == pool_seeds(collection@, creator@),
{
    let r: Vec<Vec<u8>> = vec![pool_label_bytes(), key_bytes(collection), key_bytes(creator)];
    assert(seeds_view(r@) =~= pool_seeds(collection@, creator@));
    r
}

fn build_custody_seeds(pool: &Key) -> (r: Vec<Vec<u8>>)
    ensures
        seeds_view(r@) == custody_seeds(pool@),
{
    let r: Vec<Vec<u8>> = vec![custody_label_bytes(), key_bytes(pool)];
    assert(seeds_view(r@) =~= custody_seeds(pool@));
    r
}

fn push_bump(seeds: &mut Vec<Vec<u8>>, bump: u8)
    ensures
        seeds_view(final(seeds)@) == with_bump(seeds_view(old(seeds)@), bump),
{
    let b: Vec<u8> = vec![bump];
    assert(b@ =~= seq![bump]);
    seeds.push(b);
    assert(seeds_view(seeds@) =~= with_bump(seeds_view(old(seeds)@), bump));
}

/// The pool record's address for `collection` and `creator`, re-derived from
/// its stored bump.
pub open spec fn pool_address_of(program_id: Seq<u8>, collection: Seq<u8>, creator: Seq<u8>, bump: u8) -> Option<Seq<u8>> {
    program_address_of(with_bump(pool_seeds(collection, creator), bump), program_id)
}

/// The custody authority's address for the pool at `pool`, re-derived from its
/// stored bump.
pub open spec fn custody_address_of(program_id: Seq<u8>, pool: Seq<u8>, bump: u8) -> Option<Seq<u8>> {
    program_address_of(with_bump(custody_seeds(pool), bump), program_id)
}

/// Searches the bump of the pool record for `collection` and `creator`.
pub fn find_pool_address(program_id: &Key, collection: &Key, creator: &Key) -> (r: Option<(Key, u8)>)
    ensures
        found_opt_view(r) == found_program_address_of(pool_seeds(collection@, creator@), program_id@),
        r matches Some((k, b)) ==> pool_address_of(program_id@, collection@, creator@, b) == Some(k@),
{
    let seeds = build_pool_seeds(collection, creator);
    try_find_program_address(&seeds, program_id)
}

/// Searches the bump of the custody authority of the pool at `pool`.
pub fn find_custody_address(program_id: &Key, pool: &Key) -> (r: Option<(Key, u8)>)
    ensures
        found_opt_view(r) == found_program_address_of(custody_seeds(pool@), program_id@),
        r matches Some((k, b)) ==> custody_address_of(program_id@, pool@, b) == Some(k@),
{
    let seeds = build_custody_seeds(pool);
    try_find_program_address(&seeds, program_id)
}

/// Re-derives the pool record's address from its stored bump.
pub fn pool_address(program_id: &Key, collection: &Key, creator: &Key, bump: u8) -> (r: Option<Key>)
    ensures
        key_opt_view(r) == pool_address_of(program_id@, collection@, creator@, bump),
{
    let mut seeds = build_pool_seeds(collection, creator);
    push_bump(&mut seeds, bump);
    create_program_address(&seeds, program_id)
}

/// Re-derives the custody authority's address from its stored bump.
pub fn custody_address(program_id: &Key, pool: &Key, bump: u8) -> (r: Option<Key>)
    ensures
        key_opt_view(r) == custody_address_of(program_id@, pool@, bump),
{
    let mut seeds = build_custody_seeds(pool);
    push_bump(&mut seeds, bump);
    create_program_address(&seeds, program_id)
}

} // verus!
