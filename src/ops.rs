//! The four operations. Each checks every precondition before it changes
//! anything: a rejected operation leaves the pool as it was, and an accepted
//! one returns the ledger calls that the host performs in the same unit.
use vstd::prelude::*;
use crate::derive::{
    custody_address, custody_address_of, custody_seeds, find_custody_address, find_pool_address,
    found_program_address_of, pool_address, pool_address_of, pool_seeds,
};
use crate::key::Key;
use crate::pool::{
    address_error, close_custody, deposit_actions, deposit_error, deposited, init_pool_error,
    item_error, swap_actions, swap_error, swap_slot, swapped, transfer_in, transfer_out,
    withdraw_actions, withdraw_error, withdrawn, Action, CollectionRef, CustodySigner, Deposit,
    InitPool, MintInfo, PoolError, PoolState, Swap, TokenTransfer, Withdraw,
};

verus! {

/// The place of `mint` in the custody list, if it is listed.
fn position(items: &Vec<Key>, mint: &Key) -> (r: Option<usize>)
    ensures
        r matches Some(i) ==> i < items@.len() && items@[i as int] == *mint,
        r is None ==> !items@.contains(*mint),
{
    let mut i: usize = 0;
    while i < items.len()
        invariant
            0 <= i <= items@.len(),
            forall|j: int| 0 <= j < i ==> items@[j] != *mint,
        decreases items@.len() - i,
    {
        if items[i].same(mint) {
            return Some(i);
        }
        i = i + 1;
    }
    None
}

/// Rejects an item whose mint is not a single unit, or whose metadata does not
/// name `collection` as a verified collection.
fn check_item(collection: &Key, mint: &MintInfo, meta: &Option<CollectionRef>) -> (r: Result<(), PoolError>)
    ensures
        r matches Err(e) ==> item_error(*collection, *mint, *meta) == Some(e),
        r is Ok <==> item_error(*collection, *mint, *meta) is None,
{
    if mint.decimals != 0 || mint.supply != 1 {
        return Err(PoolError::InvalidItemMint);
    }
    match meta {
        None => Err(PoolError::WrongCollection),
        Some(c) => {
            if !c.verified {
                Err(PoolError::UnverifiedCollection)
            } else if !c.key.same(collection) {
                Err(PoolError::WrongCollection)
            } else {
                Ok(())
            }
        },
    }
}

/// Re-derives the pool's address and its custody authority from the stored
/// bumps, and rejects named accounts that differ from them.
fn check_addresses(pool: &PoolState, program_id: &Key, pool_key: &Key, custody: &Key) -> (r: Result<(), PoolError>)
    ensures
        r matches Err(e) ==> address_error(*pool, program_id@, *pool_key, *custody) == Some(e),
        r is Ok <==> address_error(*pool, program_id@, *pool_key, *custody) is None,
{
    match pool_address(program_id, &pool.collection_mint, &pool.authority, pool.pool_bump) {
        Some(k) => {
            if !k.same(pool_key) {
                return Err(PoolError::InvalidPoolAddress);
            }
        },
        None => {
            return Err(PoolError::InvalidPoolAddress);
        },
    }
    match custody_address(program_id, pool_key, pool.nft_auth_bump) {
        Some(c) => {
            if !c.same(custody) {
                return Err(PoolError::InvalidCustodyAddress);
            }
        },
        None => {
            return Err(PoolError::InvalidCustodyAddress);
        },
    }
    Ok(())
}

/// Creates the record of a new pool for the collection `acc.collection_mint`,
/// with `acc.user` as its authority, charging `swap_fee_lamports` per swap.
/// The named pool and custody accounts must be the ones their seeds give, and
/// no record may live at the pool's address yet.
pub fn init_pool(program_id: &Key, acc: &InitPool, swap_fee_lamports: u64) -> (r: Result<PoolState, PoolError>)
    ensures
        r matches Err(e) ==> init_pool_error(program_id@, *acc) == Some(e),
        r is Ok <==> init_pool_error(program_id@, *acc) is None,
        r matches Ok(p) ==> {
            &&& p.wf()
            &&& p.authority == acc.user
            &&& p.collection_mint == acc.collection_mint.key
            &&& p.swap_fee_lamports == swap_fee_lamports
            &&& p.size == 0
            &&& p.items@.len() == 0
            &&& found_program_address_of(pool_seeds(acc.collection_mint.key@, acc.user@), program_id@)
                == Some((acc.pool@, p.pool_bump))
            &&& found_program_address_of(custody_seeds(acc.pool@), program_id@)
                == Some((acc.nft_authority@, p.nft_auth_bump))
            &&& pool_address_of(program_id@, acc.collection_mint.key@, acc.user@, p.pool_bump) == Some(acc.pool@)
            &&& custody_address_of(program_id@, acc.pool@, p.nft_auth_bump) == Some(acc.nft_authority@)
        },
{
    if acc.pool_initialized {
        return Err(PoolError::AlreadyInitialized);
    }
    if acc.collection_mint.decimals != 0 {
        return Err(PoolError::InvalidCollectionMint);
    }
    let pool_bump = match find_pool_address(program_id, &acc.collection_mint.key, &acc.user) {
        None => {
            return Err(PoolError::AddressDerivationFailed);
        },
        Some((k, b)) => {
            if !k.same(&acc.pool) {
                return Err(PoolError::InvalidPoolAddress);
            }
            b
        },
    };
    let nft_auth_bump = match find_custody_address(program_id, &acc.pool) {
        None => {
            return Err(PoolError::AddressDerivationFailed);
        },
        Some((c, b)) => {
            if !c.same(&acc.nft_authority) {
                return Err(PoolError::InvalidCustodyAddress);
            }
            b
        },
    };
    Ok(PoolState {
        authority: acc.user,
        collection_mint: acc.collection_mint.key,
        swap_fee_lamports,
        size: 0,
        pool_bump,
        nft_auth_bump,
        items: Vec::new(),
    })
}

fn make_transfer_in(mint: Key, user: Key, custody: Key) -> (r: Action)
    ensures
        r == transfer_in(mint, user, custody),
{
    Action::Transfer(TokenTransfer {
        mint,
        from_owner: user,
        to_owner: custody,
        authority: user,
        payer: user,
        amount: 1,
        signer: None,
    })
}

fn make_transfer_out(mint: Key, user: Key, custody: Key, signer: CustodySigner) -> (r: Action)
    ensures
        r == transfer_out(mint, user, custody, signer),
{
    Action::Transfer(TokenTransfer {
        mint,
        from_owner: custody,
        to_owner: user,
        authority: custody,
        payer: user,
        amount: 1,
        signer: Some(signer),
    })
}

fn make_close_custody(mint: Key, user: Key, custody: Key, signer: CustodySigner) -> (r: Action)
    ensures
        r == close_custody(mint, user, custody, signer),
{
    Action::CloseCustody { mint, owner: custody, destination: user, signer }
}

/// Takes the item `acc.nft_mint`, held as one unit by `acc.user`, into the
/// pool's custody and counts it. The item must be a verified member of the
/// pool's collection, and not in custody already.
pub fn deposit(pool: &mut PoolState, program_id: &Key, acc: &Deposit) -> (r: Result<Vec<Action>, PoolError>)
    requires
        old(pool).wf(),
    ensures
        final(pool).wf(),
        r is Ok <==> deposit_error(*old(pool), program_id@, *acc) is None,
        r matches Err(e) ==> deposit_error(*old(pool), program_id@, *acc) == Some(e) && *final(pool) == *old(pool),
        r matches Ok(a) ==> a@ == deposit_actions(*acc) && deposited(*old(pool), *final(pool), acc.nft_mint.key),
        acc.nft_metadata matches Some(c) && (!c.verified || c.key != old(pool).collection_mint) ==> r is Err,
        acc.nft_metadata is None ==> r is Err,
{
    check_addresses(pool, program_id, &acc.pool, &acc.nft_authority)?;
    check_item(&pool.collection_mint, &acc.nft_mint, &acc.nft_metadata)?;
    if acc.nft_token_amount != 1 {
        return Err(PoolError::WrongHolding);
    }
    if position(&pool.items, &acc.nft_mint.key).is_some() {
        return Err(PoolError::AlreadyInCustody);
    }
    let size = match pool.size.checked_add(1) {
        Some(n) => n,
        None => {
            return Err(PoolError::SizeOverflow);
        },
    };
    let ghost pre = pool.items@;
    pool.size = size;
    pool.items.push(acc.nft_mint.key);
    proof {
        assert forall|i: int, j: int|
            0 <= i < pool.items@.len() && 0 <= j < pool.items@.len() && i != j implies pool.items@[i] != pool.items@[j] by {
            if i == pre.len() as int {
                assert(pre.contains(pool.items@[j]));
            } else if j == pre.len() as int {
                assert(pre.contains(pool.items@[i]));
            }
        }
    }
    let a: Vec<Action> = vec![make_transfer_in(acc.nft_mint.key, acc.user, acc.nft_authority)];
    assert(a@ =~= deposit_actions(*acc));
    Ok(a)
}

/// Hands the item `acc.nft_mint` out of custody to the pool's authority and
/// uncounts it. Only the authority may withdraw, and only an item in custody
/// that it does not hold already.
pub fn withdraw(pool: &mut PoolState, program_id: &Key, acc: &Withdraw) -> (r: Result<Vec<Action>, PoolError>)
    requires
        old(pool).wf(),
    ensures
        final(pool).wf(),
        r is Ok <==> withdraw_error(*old(pool), program_id@, *acc) is None,
        r matches Err(e) ==> withdraw_error(*old(pool), program_id@, *acc) == Some(e) && *final(pool) == *old(pool),
        r matches Ok(a) ==> a@ == withdraw_actions(*old(pool), *acc) && withdrawn(*old(pool), *final(pool), acc.nft_mint.key),
        acc.user != old(pool).authority ==> r is Err,
        old(pool).size == 0 ==> r is Err,
{
    check_addresses(pool, program_id, &acc.pool, &acc.nft_authority)?;
    if !acc.user.same(&pool.authority) {
        return Err(PoolError::Unauthorized);
    }
    check_item(&pool.collection_mint, &acc.nft_mint, &acc.nft_metadata)?;
    if acc.nft_token_amount != 0 {
        return Err(PoolError::WrongHolding);
    }
    let i = match position(&pool.items, &acc.nft_mint.key) {
        Some(i) => i,
        None => {
            return Err(PoolError::NotInCustody);
        },
    };
    let ghost pre = pool.items@;
    pool.size = pool.size - 1;
    pool.items.remove(i);
    proof {
        assert forall|x: int, y: int|
            0 <= x < pool.items@.len() && 0 <= y < pool.items@.len() && x != y implies pool.items@[x] != pool.items@[y] by {
            let px = if x < i { x } else { x + 1 };
            let py = if y < i { y } else { y + 1 };
            assert(pool.items@[x] == pre[px]);
            assert(pool.items@[y] == pre[py]);
        }
    }
    let signer = CustodySigner { pool: acc.pool, bump: pool.nft_auth_bump };
    let a: Vec<Action> = vec![
        make_transfer_out(acc.nft_mint.key, acc.user, acc.nft_authority, signer),
        make_close_custody(acc.nft_mint.key, acc.user, acc.nft_authority, signer),
    ];
    assert(a@ =~= withdraw_actions(*old(pool), *acc));
    Ok(a)
}

/// Takes the offered item `acc.nft_mint` into custody in place of the item at
/// the place that `entropy` selects among those in custody, which goes to the
/// caller, and charges the caller the pool's fee. The count is unchanged.
/// `entropy` must come from a source that the caller could not predict or
/// steer before submitting the swap.
pub fn swap(pool: &mut PoolState, program_id: &Key, acc: &Swap, entropy: u64) -> (r: Result<Vec<Action>, PoolError>)
    requires
        old(pool).wf(),
    ensures
        final(pool).wf(),
        r is Ok <==> swap_error(*old(pool), program_id@, *acc) is None,
        r matches Err(e) ==> swap_error(*old(pool), program_id@, *acc) == Some(e) && *final(pool) == *old(pool),
        r matches Ok(a) ==> {
            let slot = swap_slot(entropy, old(pool).size);
            &&& 0 <= slot < old(pool).items@.len()
            &&& swapped(*old(pool), *final(pool), slot, acc.nft_mint.key)
            &&& a@ == swap_actions(*old(pool), *acc, old(pool).items@[slot])
        },
        final(pool).size == old(pool).size,
        acc.nft_metadata matches Some(c) && (!c.verified || c.key != old(pool).collection_mint) ==> r is Err,
        acc.nft_metadata is None ==> r is Err,
{
    check_addresses(pool, program_id, &acc.pool, &acc.nft_authority)?;
    check_item(&pool.collection_mint, &acc.nft_mint, &acc.nft_metadata)?;
    if acc.nft_token_amount != 1 {
        return Err(PoolError::WrongHolding);
    }
    if position(&pool.items, &acc.nft_mint.key).is_some() {
        return Err(PoolError::AlreadyInCustody);
    }
    if pool.size == 0 {
        return Err(PoolError::EmptyPool);
    }
    let slot = (entropy % (pool.size as u64)) as usize;
    let out = pool.items[slot];
    let ghost pre = pool.items@;
    pool.items.set(slot, acc.nft_mint.key);
    proof {
        assert forall|x: int, y: int|
            0 <= x < pool.items@.len() && 0 <= y < pool.items@.len() && x != y implies pool.items@[x] != pool.items@[y] by {
            if x == slot as int {
                assert(pre.contains(pool.items@[y]));
            } else if y == slot as int {
                assert(pre.contains(pool.items@[x]));
            }
        }
    }
    let signer = CustodySigner { pool: acc.pool, bump: pool.nft_auth_bump };
    let a: Vec<Action> = vec![
        make_transfer_in(acc.nft_mint.key, acc.user, acc.nft_authority),
        make_transfer_out(out, acc.user, acc.nft_authority, signer),
        make_close_custody(out, acc.user, acc.nft_authority, signer),
        Action::PayFee { from: acc.user, to: pool.authority, lamports: pool.swap_fee_lamports },
    ];
    assert(a@ =~= swap_actions(*old(pool), *acc, out));
    Ok(a)
}

} // verus!
