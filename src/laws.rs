//! What holds across operations: the count, a deposit undone by a withdrawal,
//! and the exchange that a swap makes.
use vstd::prelude::*;
use vstd::seq_lib::to_multiset_update;
use crate::pool::{
    deposit_actions, deposit_error, deposited, swap_actions, swapped, withdraw_actions,
    withdraw_error, withdrawn, Action, Deposit, PoolState, Swap, Withdraw,
};
use crate::key::Key;

verus! {

/// Holdings of items, by the views of the mint and of the owner, after `a`.
pub open spec fn moved(h: spec_fn(Seq<u8>, Seq<u8>) -> int, a: Action) -> spec_fn(Seq<u8>, Seq<u8>) -> int {
    match a {
        Action::Transfer(t) => |m: Seq<u8>, o: Seq<u8>|
            h(m, o) - (if m == t.mint@ && o == t.from_owner@ { t.amount as int } else { 0 }) + (
            if m == t.mint@ && o == t.to_owner@ {
                t.amount as int
            } else {
                0
            }),
        _ => h,
    }
}

/// Holdings of items after the ledger performs `acts` in order.
pub open spec fn holdings_after(h: spec_fn(Seq<u8>, Seq<u8>) -> int, acts: Seq<Action>) -> spec_fn(Seq<u8>, Seq<u8>) -> int
    decreases acts.len(),
{
    if acts.len() == 0 {
        h
    } else {
        holdings_after(moved(h, acts[0]), acts.drop_first())
    }
}

/// A successful deposit (`true`) or withdrawal (`false`) of some item took
/// `pre` to `post`.
pub open spec fn counted_step(pre: PoolState, post: PoolState, is_deposit: bool) -> bool {
    if is_deposit {
        exists|m: Key| deposited(pre, post, m)
    } else {
        exists|m: Key| withdrawn(pre, post, m)
    }
}

/// How many of `ops` are deposits (`true`).
pub open spec fn deposits(ops: Seq<bool>) -> int
    decreases ops.len(),
{
    if ops.len() == 0 {
        0
    } else {
        deposits(ops.drop_last()) + if ops.last() { 1int } else { 0int }
    }
}

/// How many of `ops` are withdrawals (`false`).
pub open spec fn withdrawals(ops: Seq<bool>) -> int
    decreases ops.len(),
{
    if ops.len() == 0 {
        0
    } else {
        withdrawals(ops.drop_last()) + if ops.last() { 0int } else { 1int }
    }
}

/// Along any run of successful deposits and withdrawals on a pool that
/// started empty, the count is the number of deposits less the number of
/// withdrawals, and so never negative. (Rejected operations change nothing.)
pub proof fn lemma_size_is_net_count(trace: Seq<PoolState>, ops: Seq<bool>)
    requires
        trace.len() == ops.len() + 1,
        trace[0].size == 0,
        forall|i: int| 0 <= i < ops.len() ==> #[trigger] counted_step(trace[i], trace[i + 1], ops[i]),
    ensures
        trace.last().size == deposits(ops) - withdrawals(ops),
        withdrawals(ops) <= deposits(ops),
    decreases ops.len(),
{
    if ops.len() > 0 {
        let n = ops.len() - 1;
        let t = trace.drop_last();
        let o = ops.drop_last();
        assert forall|i: int| 0 <= i < o.len() implies #[trigger] counted_step(t[i], t[i + 1], o[i]) by {
            assert(counted_step(trace[i], trace[i + 1], ops[i]));
        }
        lemma_size_is_net_count(t, o);
        assert(counted_step(trace[n], trace[n + 1], ops[n]));
        assert(t.last() == trace[n]);
    }
}

/// A deposit of an item followed by its withdrawal by the same caller, the
/// pool's authority, leaves the pool's record, count and custody list as they
/// were, and every holding of every item as it was.
pub proof fn lemma_deposit_then_withdraw_restores(
    program_id: Seq<u8>,
    p0: PoolState,
    p1: PoolState,
    p2: PoolState,
    dep: Deposit,
    wd: Withdraw,
    h: spec_fn(Seq<u8>, Seq<u8>) -> int,
)
    requires
        p0.wf(),
        deposit_error(p0, program_id, dep) is None,
        deposited(p0, p1, dep.nft_mint.key),
        withdraw_error(p1, program_id, wd) is None,
        withdrawn(p1, p2, wd.nft_mint.key),
        wd.nft_mint.key == dep.nft_mint.key,
        wd.user == dep.user,
    ensures
        p2.same_record(&p0),
        p2.size == p0.size,
        p2.items@ == p0.items@,
        forall|m: Seq<u8>, o: Seq<u8>|
            #[trigger] holdings_after(holdings_after(h, deposit_actions(dep)), withdraw_actions(p1, wd))(m, o) == h(m, o),
{
    let mint = dep.nft_mint.key;
    let i = choose|i: int| 0 <= i < p1.items@.len() && p1.items@[i] == mint && p2.items@ == p1.items@.remove(i);
    if i != p0.items@.len() {
        assert(p0.items@[i] == mint);
        assert(p0.items@.contains(mint));
    }
    assert(p2.items@ =~= p0.items@);
    let a1 = deposit_actions(dep);
    let a2 = withdraw_actions(p1, wd);
    assert(a1.drop_first() =~= Seq::<Action>::empty());
    assert(a2.drop_first().drop_first() =~= Seq::<Action>::empty());
    reveal_with_fuel(holdings_after, 3);
    let h1 = holdings_after(h, a1);
    assert(h1 == moved(h, a1[0]));
    let h2 = holdings_after(h1, a2);
    assert(h2 == moved(moved(h1, a2[0]), a2[1]));
    assert forall|m: Seq<u8>, o: Seq<u8>| #[trigger] h2(m, o) == h(m, o) by {}
}

/// A swap keeps the count, and exchanges exactly one item of custody: the
/// offered item comes in and the one at the selected place goes out. The
/// ledger moves the offered item from the caller to the custody authority and
/// the other item the other way.
pub proof fn lemma_swap_exchanges_one_item(
    pre: PoolState,
    post: PoolState,
    acc: Swap,
    slot: int,
    h: spec_fn(Seq<u8>, Seq<u8>) -> int,
)
    requires
        pre.wf(),
        0 <= slot < pre.items@.len(),
        !pre.items@.contains(acc.nft_mint.key),
        swapped(pre, post, slot, acc.nft_mint.key),
        acc.user@ != acc.nft_authority@,
    ensures
        post.size == pre.size,
        post.items@.to_multiset() == pre.items@.to_multiset().insert(acc.nft_mint.key).remove(pre.items@[slot]),
        post.items@.contains(acc.nft_mint.key),
        !post.items@.contains(pre.items@[slot]),
        ({
            let out = pre.items@[slot];
            let inn = acc.nft_mint.key;
            let h2 = holdings_after(h, swap_actions(pre, acc, out));
            &&& inn@ != out@ ==> h2(inn@, acc.user@) == h(inn@, acc.user@) - 1
            &&& inn@ != out@ ==> h2(inn@, acc.nft_authority@) == h(inn@, acc.nft_authority@) + 1
            &&& inn@ != out@ ==> h2(out@, acc.user@) == h(out@, acc.user@) + 1
            &&& inn@ != out@ ==> h2(out@, acc.nft_authority@) == h(out@, acc.nft_authority@) - 1
        }),
{
    to_multiset_update(pre.items@, slot, acc.nft_mint.key);
    let out = pre.items@[slot];
    assert(post.items@[slot] == acc.nft_mint.key);
    if post.items@.contains(out) {
        let j = choose|j: int| 0 <= j < post.items@.len() && post.items@[j] == out;
        assert(j != slot);
        assert(pre.items@[j] == out);
    }
    let a = swap_actions(pre, acc, out);
    assert(a.drop_first().drop_first().drop_first().drop_first() =~= Seq::<Action>::empty());
    reveal_with_fuel(holdings_after, 5);
    let h2 = holdings_after(h, a);
    assert(h2 == moved(moved(moved(moved(h, a[0]), a[1]), a[2]), a[3]));
}

} // verus!
