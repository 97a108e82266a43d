//! The pool record, the accounts each operation is handed, and the four
//! operations: create, deposit, withdraw and swap.
use vstd::prelude::*;
use crate::derive::{custody_address_of, custody_seeds, found_program_address_of, pool_address_of, pool_seeds};
use crate::key::Key;

verus! {

/// A mint as the host resolved it.
#[derive(Clone, Copy, Debug)]
pub struct MintInfo {
    pub key: Key,
    pub decimals: u8,
    pub supply: u64,
}

/// The collection that an item's metadata names, with whether the collection's
/// authority has verified that membership.
#[derive(Clone, Copy, Debug)]
pub struct CollectionRef {
    pub key: Key,
    pub verified: bool,
}

/// Why an operation was rejected. A rejected operation changes nothing.
#[derive(Clone, Copy, Debug, PartialEq, Eq, Structural)]
pub enum PoolError {
    /// A pool record already exists at the derived address.
    AlreadyInitialized,
    /// The collection's mint is not a zero-decimal mint.
    InvalidCollectionMint,
    /// No program address could be derived from the seeds.
    AddressDerivationFailed,
    /// The named pool account is not the one its seeds derive.
    InvalidPoolAddress,
    /// The named custody authority is not the one the pool derives.
    InvalidCustodyAddress,
    /// The item's mint is not a single-unit, zero-decimal mint.
    InvalidItemMint,
    /// The item's collection membership is not verified.
    UnverifiedCollection,
    /// The item names no collection, or another one than the pool's.
    WrongCollection,
    /// The caller does not hold the number of units the operation asks for.
    WrongHolding,
    /// The caller is not the pool's authority.
    Unauthorized,
    /// The item is already held in custody.
    AlreadyInCustody,
    /// The item is not held in custody.
    NotInCustody,
    /// The pool holds no item to hand out.
    EmptyPool,
    /// The item count would exceed its 32-bit range.
    SizeOverflow,
}

/// The seeds with which the custody authority signs: the pool's address and
/// the custody bump, after the custody label.
#[derive(Clone, Copy, Debug)]
pub struct CustodySigner {
    pub pool: Key,
    pub bump: u8,
}

/// A move of `amount` units of `mint` from `from_owner`'s holding to
/// `to_owner`'s, approved by `authority`.
#[derive(Clone, Copy, Debug)]
pub struct TokenTransfer {
    pub mint: Key,
    pub from_owner: Key,
    pub to_owner: Key,
    pub authority: Key,
    pub payer: Key,
    pub amount: u64,
    /// Present exactly where the custody authority is the source.
    pub signer: Option<CustodySigner>,
}

/// A call into the asset ledger that an accepted operation asks for.
#[derive(Clone, Copy, Debug)]
pub enum Action {
    /// Move units of an item between holders.
    Transfer(TokenTransfer),
    /// Close the custody authority's emptied holding of `mint`, returning its
    /// reserve to `destination`.
    CloseCustody { mint: Key, owner: Key, destination: Key, signer: CustodySigner },
    /// Pay `lamports` of the native unit from `from` to `to`.
    PayFee { from: Key, to: Key, lamports: u64 },
}

/// The persisted pool record, with the ordered list of the items in custody.
#[derive(Debug)]
pub struct PoolState {
    /// The creator: the one identity that may withdraw, and the fee's payee.
    pub authority: Key,
    /// The collection whose items the pool accepts.
    pub collection_mint: Key,
    /// The fee charged per swap, in lamports.
    pub swap_fee_lamports: u64,
    /// The number of items in custody.
    pub size: u32,
    /// The bump of the pool record's address.
    pub pool_bump: u8,
    /// The bump of the custody authority's address.
    pub nft_auth_bump: u8,
    /// The mints of the items in custody, each once.
    pub items: Vec<Key>,
}

/// The accounts that creating a pool names.
#[derive(Clone, Copy, Debug)]
pub struct InitPool {
    pub pool: Key,
    /// Whether a record already lives at `pool`.
    pub pool_initialized: bool,
    pub collection_mint: MintInfo,
    pub user: Key,
    pub nft_authority: Key,
}

/// The accounts that a deposit names.
#[derive(Clone, Copy, Debug)]
pub struct Deposit {
    pub pool: Key,
    pub nft_mint: MintInfo,
    /// The caller's holding of the item, in units.
    pub nft_token_amount: u64,
    pub nft_metadata: Option<CollectionRef>,
    pub nft_authority: Key,
    pub user: Key,
}

/// The accounts that a withdrawal names.
#[derive(Clone, Copy, Debug)]
pub struct Withdraw {
    pub pool: Key,
    pub nft_mint: MintInfo,
    /// The caller's holding of the item, in units.
    pub nft_token_amount: u64,
    pub nft_metadata: Option<CollectionRef>,
    pub nft_authority: Key,
    pub user: Key,
}

/// The accounts that a swap names; the item is the one offered.
#[derive(Clone, Copy, Debug)]
pub struct Swap {
    pub pool: Key,
    pub nft_mint: MintInfo,
    /// The caller's holding of the offered item, in units.
    pub nft_token_amount: u64,
    pub nft_metadata: Option<CollectionRef>,
    pub nft_authority: Key,
    pub user: Key,
}

/// The accounts of closing a pool, an operation that is declared and does
/// nothing.
#[derive(Clone, Copy, Debug)]
pub struct ClosePool {}

impl PoolState {
    /// The count matches the list, and no item is listed twice.
    pub open spec fn wf(&self) -> bool {
        &&& self.size as int == self.items@.len()
        &&& self.items@.no_duplicates()
    }

    /// Every field but the custody list and the count is equal.
    pub open spec fn same_record(&self, other: &PoolState) -> bool {
        &&& self.authority == other.authority
        &&& self.collection_mint == other.collection_mint
        &&& self.swap_fee_lamports == other.swap_fee_lamports
        &&& self.pool_bump == other.pool_bump
        &&& self.nft_auth_bump == other.nft_auth_bump
    }
}

/// Why the mint and metadata of an item rule it out of `collection`, if they do.
pub open spec fn item_error(collection: Key, mint: MintInfo, meta: Option<CollectionRef>) -> Option<PoolError> {
    if mint.decimals != 0 || mint.supply != 1 {
        Some(PoolError::InvalidItemMint)
    } else {
        match meta {
            None => Some(PoolError::WrongCollection),
            Some(c) => if !c.verified {
                Some(PoolError::UnverifiedCollection)
            } else if c.key != collection {
                Some(PoolError::WrongCollection)
            } else {
                None
            },
        }
    }
}

/// Why the named pool and custody accounts are not the ones that `pool`
/// derives, if they are not.
pub open spec fn address_error(pool: PoolState, program_id: Seq<u8>, pool_key: Key, custody: Key) -> Option<PoolError> {
    if pool_address_of(program_id, pool.collection_mint@, pool.authority@, pool.pool_bump) != Some(pool_key@) {
        Some(PoolError::InvalidPoolAddress)
    } else if custody_address_of(program_id, pool_key@, pool.nft_auth_bump) != Some(custody@) {
        Some(PoolError::InvalidCustodyAddress)
    } else {
        None
    }
}

/// Why creating a pool with the accounts `acc` is rejected, if it is.
pub open spec fn init_pool_error(program_id: Seq<u8>, acc: InitPool) -> Option<PoolError> {
    if acc.pool_initialized {
        Some(PoolError::AlreadyInitialized)
    } else if acc.collection_mint.decimals != 0 {
        Some(PoolError::InvalidCollectionMint)
    } else {
        match found_program_address_of(pool_seeds(acc.collection_mint.key@, acc.user@), program_id) {
            None => Some(PoolError::AddressDerivationFailed),
            Some((k, _)) => if k != acc.pool@ {
                Some(PoolError::InvalidPoolAddress)
            } else {
                match found_program_address_of(custody_seeds(acc.pool@), program_id) {
                    None => Some(PoolError::AddressDerivationFailed),
                    Some((c, _)) => if c != acc.nft_authority@ {
                        Some(PoolError::InvalidCustodyAddress)
                    } else {
                        None
                    },
                }
            },
        }
    }
}

/// Why a deposit into `pool` with the accounts `acc` is rejected, if it is.
pub open spec fn deposit_error(pool: PoolState, program_id: Seq<u8>, acc: Deposit) -> Option<PoolError> {
    if address_error(pool, program_id, acc.pool, acc.nft_authority) is Some {
        address_error(pool, program_id, acc.pool, acc.nft_authority)
    } else if item_error(pool.collection_mint, acc.nft_mint, acc.nft_metadata) is Some {
        item_error(pool.collection_mint, acc.nft_mint, acc.nft_metadata)
    } else if acc.nft_token_amount != 1 {
        Some(PoolError::WrongHolding)
    } else if pool.items@.contains(acc.nft_mint.key) {
        Some(PoolError::AlreadyInCustody)
    } else if pool.size == u32::MAX {
        Some(PoolError::SizeOverflow)
    } else {
        None
    }
}

/// Why a withdrawal from `pool` with the accounts `acc` is rejected, if it is.
pub open spec fn withdraw_error(pool: PoolState, program_id: Seq<u8>, acc: Withdraw) -> Option<PoolError> {
    if address_error(pool, program_id, acc.pool, acc.nft_authority) is Some {
        address_error(pool, program_id, acc.pool, acc.nft_authority)
    } else if acc.user != pool.authority {
        Some(PoolError::Unauthorized)
    } else if item_error(pool.collection_mint, acc.nft_mint, acc.nft_metadata) is Some {
        item_error(pool.collection_mint, acc.nft_mint, acc.nft_metadata)
    } else if acc.nft_token_amount != 0 {
        Some(PoolError::WrongHolding)
    } else if !pool.items@.contains(acc.nft_mint.key) {
        Some(PoolError::NotInCustody)
    } else {
        None
    }
}

/// Why a swap into `pool` with the accounts `acc` is rejected, if it is.
pub open spec fn swap_error(pool: PoolState, program_id: Seq<u8>, acc: Swap) -> Option<PoolError> {
    if address_error(pool, program_id, acc.pool, acc.nft_authority) is Some {
        address_error(pool, program_id, acc.pool, acc.nft_authority)
    } else if item_error(pool.collection_mint, acc.nft_mint, acc.nft_metadata) is Some {
        item_error(pool.collection_mint, acc.nft_mint, acc.nft_metadata)
    } else if acc.nft_token_amount != 1 {
        Some(PoolError::WrongHolding)
    } else if pool.items@.contains(acc.nft_mint.key) {
        Some(PoolError::AlreadyInCustody)
    } else if pool.size == 0 {
        Some(PoolError::EmptyPool)
    } else {
        None
    }
}

/// The transfer of one unit of `mint` from the caller into custody.
pub open spec fn transfer_in(mint: Key, user: Key, custody: Key) -> Action {
    Action::Transfer(TokenTransfer {
        mint: mint,
        from_owner: user,
        to_owner: custody,
        authority: user,
        payer: user,
        amount: 1,
        signer: None,
    })
}

/// The transfer of one unit of `mint` out of custody to the caller, signed
/// by the custody authority.
pub open spec fn transfer_out(mint: Key, user: Key, custody: Key, signer: CustodySigner) -> Action {
    Action::Transfer(TokenTransfer {
        mint: mint,
        from_owner: custody,
        to_owner: user,
        authority: custody,
        payer: user,
        amount: 1,
        signer: Some(signer),
    })
}

/// The closing of the custody holding of `mint`, its reserve going to `user`.
pub open spec fn close_custody(mint: Key, user: Key, custody: Key, signer: CustodySigner) -> Action {
    Action::CloseCustody { mint: mint, owner: custody, destination: user, signer: signer }
}

/// What an accepted deposit asks of the asset ledger.
pub open spec fn deposit_actions(acc: Deposit) -> Seq<Action> {
    seq![transfer_in(acc.nft_mint.key, acc.user, acc.nft_authority)]
}

/// What an accepted withdrawal from `pool` asks of the asset ledger.
pub open spec fn withdraw_actions(pool: PoolState, acc: Withdraw) -> Seq<Action> {
    let signer = CustodySigner { pool: acc.pool, bump: pool.nft_auth_bump };
    seq![
        transfer_out(acc.nft_mint.key, acc.user, acc.nft_authority, signer),
        close_custody(acc.nft_mint.key, acc.user, acc.nft_authority, signer),
    ]
}

/// What an accepted swap into `pool` that hands out `out` asks of the asset
/// ledger: the offered item in, `out` to the caller, and the fee.
pub open spec fn swap_actions(pool: PoolState, acc: Swap, out: Key) -> Seq<Action> {
    let signer = CustodySigner { pool: acc.pool, bump: pool.nft_auth_bump };
    seq![
        transfer_in(acc.nft_mint.key, acc.user, acc.nft_authority),
        transfer_out(out, acc.user, acc.nft_authority, signer),
        close_custody(out, acc.user, acc.nft_authority, signer),
        Action::PayFee { from: acc.user, to: pool.authority, lamports: pool.swap_fee_lamports },
    ]
}

/// `post` is `pre` with `mint` added to custody.
pub open spec fn deposited(pre: PoolState, post: PoolState, mint: Key) -> bool {
    &&& post.same_record(&pre)
    &&& post.items@ == pre.items@.push(mint)
    &&& post.size == pre.size + 1
}

/// `post` is `pre` with `mint`, listed at some place, taken out of custody.
pub open spec fn withdrawn(pre: PoolState, post: PoolState, mint: Key) -> bool {
    &&& post.same_record(&pre)
    &&& exists|i: int| 0 <= i < pre.items@.len() && pre.items@[i] == mint && post.items@ == pre.items@.remove(i)
    &&& post.size == pre.size - 1
}

/// The place among `size` items that a swap with `entropy` hands out.
pub open spec fn swap_slot(entropy: u64, size: u32) -> int {
    (entropy % (size as u64)) as int
}

/// `post` is `pre` with the item at `slot` replaced by `mint`.
pub open spec fn swapped(pre: PoolState, post: PoolState, slot: int, mint: Key) -> bool {
    &&& post.same_record(&pre)
    &&& post.items@ == pre.items@.update(slot, mint)
    &&& post.size == pre.size
}

} // verus!
