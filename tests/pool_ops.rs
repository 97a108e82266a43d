use cercols::derive::{custody_address, find_custody_address, find_pool_address, pool_address};
use cercols::key::Key;
use cercols::ops::{deposit, init_pool, swap, withdraw};
use cercols::pool::{
    Action, CollectionRef, Deposit, InitPool, MintInfo, PoolError, PoolState, Swap, Withdraw,
};

fn key(n: u8) -> Key {
    Key::new([n; 32])
}

const PROGRAM: u8 = 200;
const COLLECTION: u8 = 10;
const OTHER_COLLECTION: u8 = 11;
const CREATOR: u8 = 1;

#[derive(Clone, Copy)]
struct Ctx {
    program: Key,
    pool_key: Key,
    custody: Key,
}

struct Fixture {
    ctx: Ctx,
    pool: PoolState,
}

fn init_accounts(program: &Key, collection: &Key, creator: &Key) -> InitPool {
    let (pool_key, _) = find_pool_address(program, collection, creator).unwrap();
    let (custody, _) = find_custody_address(program, &pool_key).unwrap();
    InitPool {
        pool: pool_key,
        pool_initialized: false,
        collection_mint: MintInfo { key: *collection, decimals: 0, supply: 1000 },
        user: *creator,
        nft_authority: custody,
    }
}

fn fixture(fee: u64) -> Fixture {
    let program = key(PROGRAM);
    let acc = init_accounts(&program, &key(COLLECTION), &key(CREATOR));
    let pool = init_pool(&program, &acc, fee).unwrap();
    Fixture { ctx: Ctx { program, pool_key: acc.pool, custody: acc.nft_authority }, pool }
}

fn item(n: u8) -> MintInfo {
    MintInfo { key: key(n), decimals: 0, supply: 1 }
}

fn member_of(collection: u8) -> Option<CollectionRef> {
    Some(CollectionRef { key: key(collection), verified: true })
}

fn deposit_acc(f: &Ctx, mint: u8, user: u8) -> Deposit {
    Deposit {
        pool: f.pool_key,
        nft_mint: item(mint),
        nft_token_amount: 1,
        nft_metadata: member_of(COLLECTION),
        nft_authority: f.custody,
        user: key(user),
    }
}

fn withdraw_acc(f: &Ctx, mint: u8, user: u8) -> Withdraw {
    Withdraw {
        pool: f.pool_key,
        nft_mint: item(mint),
        nft_token_amount: 0,
        nft_metadata: member_of(COLLECTION),
        nft_authority: f.custody,
        user: key(user),
    }
}

fn swap_acc(f: &Ctx, mint: u8, user: u8) -> Swap {
    Swap {
        pool: f.pool_key,
        nft_mint: item(mint),
        nft_token_amount: 1,
        nft_metadata: member_of(COLLECTION),
        nft_authority: f.custody,
        user: key(user),
    }
}

/// Units of `mint` that `owner` gains (positive) or loses through `acts`.
fn net_change(acts: &[Action], mint: &Key, owner: &Key) -> i64 {
    let mut n: i64 = 0;
    for a in acts {
        if let Action::Transfer(t) = a {
            if t.mint.bytes == mint.bytes && t.from_owner.bytes == owner.bytes {
                n -= t.amount as i64;
            }
            if t.mint.bytes == mint.bytes && t.to_owner.bytes == owner.bytes {
                n += t.amount as i64;
            }
        }
    }
    n
}

fn custody_list(p: &PoolState) -> Vec<[u8; 32]> {
    p.items.iter().map(|k| k.bytes).collect()
}

#[test]
fn scenario_create_deposit_swap_withdraw() {
    let mut f = fixture(1000);
    assert_eq!(f.pool.size, 0);
    assert_eq!(f.pool.swap_fee_lamports, 1000);
    assert_eq!(f.pool.authority.bytes, key(CREATOR).bytes);
    assert_eq!(f.pool.collection_mint.bytes, key(COLLECTION).bytes);

    let (a, x, b, y, z) = (50u8, 2u8, 51u8, 3u8, 4u8);
    let acts = deposit(&mut f.pool, &f.ctx.program, &deposit_acc(&f.ctx, a, x)).unwrap();
    assert_eq!(f.pool.size, 1);
    assert_eq!(net_change(&acts, &key(a), &key(x)), -1);
    assert_eq!(net_change(&acts, &key(a), &f.ctx.custody), 1);

    deposit(&mut f.pool, &f.ctx.program, &deposit_acc(&f.ctx, b, y)).unwrap();
    assert_eq!(f.pool.size, 2);

    let mut offer = swap_acc(&f.ctx, 60, z);
    offer.nft_metadata = member_of(OTHER_COLLECTION);
    let before = custody_list(&f.pool);
    assert_eq!(swap(&mut f.pool, &f.ctx.program, &offer, 0).unwrap_err(), PoolError::WrongCollection);
    assert_eq!(custody_list(&f.pool), before);
    assert_eq!(f.pool.size, 2);

    assert_eq!(
        withdraw(&mut f.pool, &f.ctx.program, &withdraw_acc(&f.ctx, a, x)).unwrap_err(),
        PoolError::Unauthorized
    );
    assert_eq!(f.pool.size, 2);

    let acts = withdraw(&mut f.pool, &f.ctx.program, &withdraw_acc(&f.ctx, a, CREATOR)).unwrap();
    assert_eq!(f.pool.size, 1);
    assert_eq!(net_change(&acts, &key(a), &key(CREATOR)), 1);
    assert_eq!(net_change(&acts, &key(a), &f.ctx.custody), -1);
    assert_eq!(custody_list(&f.pool), vec![key(b).bytes]);
}

#[test]
fn derived_addresses_are_reproduced_from_stored_bumps() {
    let f = fixture(5);
    let program = key(PROGRAM);
    let again = pool_address(&program, &key(COLLECTION), &key(CREATOR), f.pool.pool_bump).unwrap();
    assert_eq!(again.bytes, f.ctx.pool_key.bytes);
    let custody = custody_address(&program, &f.ctx.pool_key, f.pool.nft_auth_bump).unwrap();
    assert_eq!(custody.bytes, f.ctx.custody.bytes);
    assert_ne!(f.ctx.pool_key.bytes, key(COLLECTION).bytes);
    assert_ne!(f.ctx.custody.bytes, f.ctx.pool_key.bytes);
}

#[test]
fn derivation_depends_on_creator_and_program() {
    let program = key(PROGRAM);
    let (p1, _) = find_pool_address(&program, &key(COLLECTION), &key(1)).unwrap();
    let (p2, _) = find_pool_address(&program, &key(COLLECTION), &key(2)).unwrap();
    let (p3, _) = find_pool_address(&key(201), &key(COLLECTION), &key(1)).unwrap();
    assert_ne!(p1.bytes, p2.bytes);
    assert_ne!(p1.bytes, p3.bytes);
}

#[test]
fn init_pool_rejections() {
    let program = key(PROGRAM);
    let good = init_accounts(&program, &key(COLLECTION), &key(CREATOR));

    let mut acc = good;
    acc.pool_initialized = true;
    assert_eq!(init_pool(&program, &acc, 1).unwrap_err(), PoolError::AlreadyInitialized);

    let mut acc = good;
    acc.collection_mint.decimals = 6;
    assert_eq!(init_pool(&program, &acc, 1).unwrap_err(), PoolError::InvalidCollectionMint);

    let mut acc = good;
    acc.pool = key(99);
    assert_eq!(init_pool(&program, &acc, 1).unwrap_err(), PoolError::InvalidPoolAddress);

    let mut acc = good;
    acc.user = key(CREATOR + 1);
    assert_eq!(init_pool(&program, &acc, 1).unwrap_err(), PoolError::InvalidPoolAddress);

    let mut acc = good;
    acc.nft_authority = key(98);
    assert_eq!(init_pool(&program, &acc, 1).unwrap_err(), PoolError::InvalidCustodyAddress);

    let p = init_pool(&program, &good, 1).unwrap();
    assert_eq!(p.size, 0);
    assert!(p.items.is_empty());
}

#[test]
fn deposit_rejections_change_nothing() {
    let mut f = fixture(1);
    deposit(&mut f.pool, &f.ctx.program, &deposit_acc(&f.ctx, 50, 2)).unwrap();

    let cases: Vec<(Deposit, PoolError)> = vec![
        (Deposit { pool: key(99), ..deposit_acc(&f.ctx, 51, 2) }, PoolError::InvalidPoolAddress),
        (Deposit { nft_authority: key(98), ..deposit_acc(&f.ctx, 51, 2) }, PoolError::InvalidCustodyAddress),
        (Deposit { nft_mint: MintInfo { key: key(51), decimals: 0, supply: 2 }, ..deposit_acc(&f.ctx, 51, 2) }, PoolError::InvalidItemMint),
        (Deposit { nft_mint: MintInfo { key: key(51), decimals: 1, supply: 1 }, ..deposit_acc(&f.ctx, 51, 2) }, PoolError::InvalidItemMint),
        (
            Deposit { nft_metadata: Some(CollectionRef { key: key(COLLECTION), verified: false }), ..deposit_acc(&f.ctx, 51, 2) },
            PoolError::UnverifiedCollection,
        ),
        (Deposit { nft_metadata: member_of(OTHER_COLLECTION), ..deposit_acc(&f.ctx, 51, 2) }, PoolError::WrongCollection),
        (Deposit { nft_metadata: None, ..deposit_acc(&f.ctx, 51, 2) }, PoolError::WrongCollection),
        (Deposit { nft_token_amount: 0, ..deposit_acc(&f.ctx, 51, 2) }, PoolError::WrongHolding),
        (Deposit { nft_token_amount: 2, ..deposit_acc(&f.ctx, 51, 2) }, PoolError::WrongHolding),
        (deposit_acc(&f.ctx, 50, 3), PoolError::AlreadyInCustody),
    ];
    for (acc, err) in cases {
        assert_eq!(deposit(&mut f.pool, &f.ctx.program, &acc).unwrap_err(), err);
        assert_eq!(f.pool.size, 1);
        assert_eq!(custody_list(&f.pool), vec![key(50).bytes]);
    }
}

#[test]
fn withdraw_rejections() {
    let mut f = fixture(1);
    assert_eq!(
        withdraw(&mut f.pool, &f.ctx.program, &withdraw_acc(&f.ctx, 50, CREATOR)).unwrap_err(),
        PoolError::NotInCustody
    );
    deposit(&mut f.pool, &f.ctx.program, &deposit_acc(&f.ctx, 50, 2)).unwrap();
    let cases: Vec<(Withdraw, PoolError)> = vec![
        (Withdraw { pool: key(99), ..withdraw_acc(&f.ctx, 50, CREATOR) }, PoolError::InvalidPoolAddress),
        (Withdraw { nft_authority: key(98), ..withdraw_acc(&f.ctx, 50, CREATOR) }, PoolError::InvalidCustodyAddress),
        (withdraw_acc(&f.ctx, 50, 2), PoolError::Unauthorized),
        (Withdraw { nft_metadata: member_of(OTHER_COLLECTION), ..withdraw_acc(&f.ctx, 50, CREATOR) }, PoolError::WrongCollection),
        (Withdraw { nft_token_amount: 1, ..withdraw_acc(&f.ctx, 50, CREATOR) }, PoolError::WrongHolding),
        (withdraw_acc(&f.ctx, 52, CREATOR), PoolError::NotInCustody),
    ];
    for (acc, err) in cases {
        assert_eq!(withdraw(&mut f.pool, &f.ctx.program, &acc).unwrap_err(), err);
        assert_eq!(f.pool.size, 1);
    }
}

#[test]
fn withdraw_by_non_authority_is_rejected_whatever_the_state() {
    let mut f = fixture(1);
    for user in [2u8, 3, 4] {
        assert_eq!(
            withdraw(&mut f.pool, &f.ctx.program, &withdraw_acc(&f.ctx, 50, user)).unwrap_err(),
            PoolError::Unauthorized
        );
    }
    deposit(&mut f.pool, &f.ctx.program, &deposit_acc(&f.ctx, 50, 2)).unwrap();
    for user in [2u8, 3, 4] {
        assert_eq!(
            withdraw(&mut f.pool, &f.ctx.program, &withdraw_acc(&f.ctx, 50, user)).unwrap_err(),
            PoolError::Unauthorized
        );
    }
    assert_eq!(f.pool.size, 1);
}

#[test]
fn withdraw_actions_are_signed_by_custody() {
    let mut f = fixture(1);
    deposit(&mut f.pool, &f.ctx.program, &deposit_acc(&f.ctx, 50, 2)).unwrap();
    let acts = withdraw(&mut f.pool, &f.ctx.program, &withdraw_acc(&f.ctx, 50, CREATOR)).unwrap();
    assert_eq!(acts.len(), 2);
    match &acts[0] {
        Action::Transfer(t) => {
            let s = t.signer.unwrap();
            assert_eq!(s.pool.bytes, f.ctx.pool_key.bytes);
            assert_eq!(s.bump, f.pool.nft_auth_bump);
            assert_eq!(t.authority.bytes, f.ctx.custody.bytes);
            assert_eq!(t.amount, 1);
        }
        _ => panic!("first action is the transfer"),
    }
    match &acts[1] {
        Action::CloseCustody { mint, owner, destination, .. } => {
            assert_eq!(mint.bytes, key(50).bytes);
            assert_eq!(owner.bytes, f.ctx.custody.bytes);
            assert_eq!(destination.bytes, key(CREATOR).bytes);
        }
        _ => panic!("second action closes the custody holding"),
    }
}

#[test]
fn size_counts_deposits_less_withdrawals() {
    let mut f = fixture(1);
    for m in 50u8..55 {
        deposit(&mut f.pool, &f.ctx.program, &deposit_acc(&f.ctx, m, 2)).unwrap();
    }
    assert_eq!(f.pool.size, 5);
    withdraw(&mut f.pool, &f.ctx.program, &withdraw_acc(&f.ctx, 52, CREATOR)).unwrap();
    withdraw(&mut f.pool, &f.ctx.program, &withdraw_acc(&f.ctx, 50, CREATOR)).unwrap();
    assert_eq!(f.pool.size, 3);
    assert_eq!(custody_list(&f.pool), vec![key(51).bytes, key(53).bytes, key(54).bytes]);
    for m in [51u8, 53, 54] {
        withdraw(&mut f.pool, &f.ctx.program, &withdraw_acc(&f.ctx, m, CREATOR)).unwrap();
    }
    assert_eq!(f.pool.size, 0);
    assert_eq!(
        withdraw(&mut f.pool, &f.ctx.program, &withdraw_acc(&f.ctx, 51, CREATOR)).unwrap_err(),
        PoolError::NotInCustody
    );
    assert_eq!(f.pool.size, 0);
}

#[test]
fn deposit_then_withdraw_restores_holdings() {
    let mut f = fixture(1);
    deposit(&mut f.pool, &f.ctx.program, &deposit_acc(&f.ctx, 40, 2)).unwrap();
    let before = custody_list(&f.pool);
    let d = deposit(&mut f.pool, &f.ctx.program, &deposit_acc(&f.ctx, 50, CREATOR)).unwrap();
    let w = withdraw(&mut f.pool, &f.ctx.program, &withdraw_acc(&f.ctx, 50, CREATOR)).unwrap();
    let all: Vec<Action> = d.iter().chain(w.iter()).cloned().collect();
    assert_eq!(net_change(&all, &key(50), &key(CREATOR)), 0);
    assert_eq!(net_change(&all, &key(50), &f.ctx.custody), 0);
    assert_eq!(f.pool.size, 1);
    assert_eq!(custody_list(&f.pool), before);
}

#[test]
fn swap_exchanges_the_selected_item() {
    let mut f = fixture(1000);
    for m in [50u8, 51, 52] {
        deposit(&mut f.pool, &f.ctx.program, &deposit_acc(&f.ctx, m, 2)).unwrap();
    }
    let acts = swap(&mut f.pool, &f.ctx.program, &swap_acc(&f.ctx, 60, 4), 7).unwrap();
    // 7 % 3 selects the item at place 1.
    assert_eq!(f.pool.size, 3);
    assert_eq!(custody_list(&f.pool), vec![key(50).bytes, key(60).bytes, key(52).bytes]);
    assert_eq!(net_change(&acts, &key(60), &key(4)), -1);
    assert_eq!(net_change(&acts, &key(60), &f.ctx.custody), 1);
    assert_eq!(net_change(&acts, &key(51), &key(4)), 1);
    assert_eq!(net_change(&acts, &key(51), &f.ctx.custody), -1);
    let fees: Vec<u64> = acts
        .iter()
        .filter_map(|a| match a {
            Action::PayFee { from, to, lamports } => {
                assert_eq!(from.bytes, key(4).bytes);
                assert_eq!(to.bytes, key(CREATOR).bytes);
                Some(*lamports)
            }
            _ => None,
        })
        .collect();
    assert_eq!(fees, vec![1000]);
}

#[test]
fn swap_rejections() {
    let mut f = fixture(1);
    assert_eq!(swap(&mut f.pool, &f.ctx.program, &swap_acc(&f.ctx, 60, 4), 0).unwrap_err(), PoolError::EmptyPool);
    deposit(&mut f.pool, &f.ctx.program, &deposit_acc(&f.ctx, 50, 2)).unwrap();
    let cases: Vec<(Swap, PoolError)> = vec![
        (Swap { pool: key(99), ..swap_acc(&f.ctx, 60, 4) }, PoolError::InvalidPoolAddress),
        (Swap { nft_token_amount: 0, ..swap_acc(&f.ctx, 60, 4) }, PoolError::WrongHolding),
        (Swap { nft_metadata: Some(CollectionRef { key: key(COLLECTION), verified: false }), ..swap_acc(&f.ctx, 60, 4) }, PoolError::UnverifiedCollection),
        (swap_acc(&f.ctx, 50, 4), PoolError::AlreadyInCustody),
    ];
    for (acc, err) in cases {
        assert_eq!(swap(&mut f.pool, &f.ctx.program, &acc, 3).unwrap_err(), err);
        assert_eq!(custody_list(&f.pool), vec![key(50).bytes]);
    }
}

#[test]
fn key_comparison() {
    assert!(key(3).same(&key(3)));
    let mut b = [3u8; 32];
    b[31] = 4;
    assert!(!key(3).same(&Key::new(b)));
}
