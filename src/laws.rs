use vstd::prelude::*;

use crate::budgeting::{Budgeting, TransactionBuilder};
use crate::category::{Category, Transfer};
use crate::errors::BudgetingErrors;
use crate::ledger::{
    shortfall_in, total_balance, total_balance_upto, Budget,
    UNALLOCATED_ID,
};
use crate::sums::{transfer_in_of, transfer_out_of};
use crate::transaction::Transaction;

verus! {

proof fn lemma_transfer_pushed(trs: Seq<Transfer>, t: Transfer, c: u64)
    ensures
        transfer_in_of(trs.push(t), c) == transfer_in_of(trs, c) + if t.to == c { t.amount as int } else { 0 },
        transfer_out_of(trs.push(t), c) == transfer_out_of(trs, c) + if t.from == c { t.amount as int } else { 0 },
{
    assert(trs.push(t).drop_last() =~= trs);
}

proof fn lemma_total_after_transfer(
    cats: Seq<Category>,
    txs: Seq<Transaction>,
    trs: Seq<Transfer>,
    t: Transfer,
    n: int,
)
    requires
        0 <= n <= cats.len(),
        cats.len() <= u64::MAX + 1,
    ensures
        total_balance_upto(cats, txs, trs.push(t), n) == total_balance_upto(cats, txs, trs, n)
            + (if t.to < n { t.amount as int } else { 0 }) - (if t.from < n { t.amount as int } else { 0 }),
    decreases n,
{
    if n > 0 {
        lemma_total_after_transfer(cats, txs, trs, t, n - 1);
        lemma_transfer_pushed(trs, t, (n - 1) as u64);
    }
}

/// Funding a category that already holds at least its allocated amount is
/// refused as already funded, and no category's balance moves.
pub proof fn law_funding_a_funded_category_is_refused(
    before: Budget,
    after: Budget,
    name: Seq<char>,
    r: Result<(), BudgetingErrors>,
    k: int,
)
    requires
        before.wf(),
        Budget::funded(before, after, name, r),
        0 <= k < before.spec_categories().len(),
        before.spec_categories()[k].spec_name() == name,
        before.balance_of(k) >= before.spec_categories()[k].spec_allocated(),
    ensures
        r == Err::<(), BudgetingErrors>(BudgetingErrors::AlreadyFunded),
        after.spec_transfers() == before.spec_transfers(),
        forall|i: int| 0 <= i < before.spec_categories().len() ==> #[trigger] after.balance_of(i) == before.balance_of(i),
{
}

/// Funding a category whose shortfall the unallocated pool cannot cover is
/// refused as over-funding, and no category's balance moves.
pub proof fn law_funding_beyond_the_pool_is_refused(
    before: Budget,
    after: Budget,
    name: Seq<char>,
    r: Result<(), BudgetingErrors>,
    k: int,
)
    requires
        before.wf(),
        Budget::funded(before, after, name, r),
        0 <= k < before.spec_categories().len(),
        before.spec_categories()[k].spec_name() == name,
        before.balance_of(k) < before.spec_categories()[k].spec_allocated(),
        before.balance_of(UNALLOCATED_ID as int) < before.spec_categories()[k].spec_allocated()
            - before.balance_of(k),
    ensures
        r == Err::<(), BudgetingErrors>(BudgetingErrors::OverFundingError),
        after.spec_transfers() == before.spec_transfers(),
        forall|i: int| 0 <= i < before.spec_categories().len() ==> #[trigger] after.balance_of(i) == before.balance_of(i),
{
}

/// Funding a category other than the pool, whose shortfall is positive and
/// which the pool can cover, succeeds, provided the ledger's volume stays
/// within `i64::MAX` cents. It raises the category's transfers in by exactly
/// the shortfall, brings its balance to its allocated amount, lowers the
/// pool's balance by the same shortfall, and leaves the sum of all balances
/// as it was.
pub proof fn law_funding_moves_the_shortfall(
    before: Budget,
    after: Budget,
    name: Seq<char>,
    r: Result<(), BudgetingErrors>,
    k: int,
)
    requires
        before.wf(),
        Budget::funded(before, after, name, r),
        0 <= k < before.spec_categories().len(),
        before.spec_categories()[k].spec_name() == name,
        k != UNALLOCATED_ID,
        before.balance_of(k) < before.spec_categories()[k].spec_allocated(),
        before.balance_of(UNALLOCATED_ID as int) >= before.spec_categories()[k].spec_allocated()
            - before.balance_of(k),
        before.spec_volume() + 2 * (before.spec_categories()[k].spec_allocated() - before.balance_of(k))
            <= i64::MAX,
    ensures
        ({
            let cats = before.spec_categories();
            let txs = before.spec_transactions();
            let needed = shortfall_in(cats, txs, before.spec_transfers(), k);
            &&& r == Ok::<(), BudgetingErrors>(())
            &&& needed > 0
            &&& transfer_in_of(after.spec_transfers(), k as u64) == transfer_in_of(
                before.spec_transfers(),
                k as u64,
            ) + needed
            &&& after.balance_of(k) == cats[k].spec_allocated()
            &&& after.balance_of(UNALLOCATED_ID as int) == before.balance_of(UNALLOCATED_ID as int) - needed
            &&& after.balance_of(UNALLOCATED_ID as int) >= 0
            &&& total_balance(cats, txs, after.spec_transfers()) == total_balance(
                cats,
                txs,
                before.spec_transfers(),
            )
        }),
{
    let cats = before.spec_categories();
    let txs = before.spec_transactions();
    let trs = before.spec_transfers();
    let t = crate::ledger::funding_transfer(cats, txs, trs, k);
    assert(after.spec_transfers() == trs.push(t));
    lemma_transfer_pushed(trs, t, k as u64);
    lemma_transfer_pushed(trs, t, UNALLOCATED_ID);
    assert(cats[k].spec_id() == k);
    assert(cats[cats.len() - 1].spec_id() == cats.len() - 1);
    lemma_total_after_transfer(cats, txs, trs, t, cats.len() as int);
}

/// Whatever the outcome, funding leaves the sum of all balances as it was.
pub proof fn law_funding_conserves_money(
    before: Budget,
    after: Budget,
    name: Seq<char>,
    r: Result<(), BudgetingErrors>,
)
    requires
        before.wf(),
        Budget::funded(before, after, name, r),
    ensures
        total_balance(after.spec_categories(), after.spec_transactions(), after.spec_transfers())
            == total_balance(before.spec_categories(), before.spec_transactions(), before.spec_transfers()),
{
    let cats = before.spec_categories();
    let txs = before.spec_transactions();
    let trs = before.spec_transfers();
    if r is Ok {
        if crate::ledger::has_named(cats, name) {
            let k = choose|k: int| 0 <= k < cats.len() && #[trigger] cats[k].spec_name() == name;
            let t = crate::ledger::funding_transfer(cats, txs, trs, k);
            assert(cats[k].spec_id() == k);
            assert(cats[cats.len() - 1].spec_id() == cats.len() - 1);
            lemma_total_after_transfer(cats, txs, trs, t, cats.len() as int);
        }
    }
}

/// A transaction whose amount was never set cannot be posted: `done` refuses it
/// as invalid.
pub proof fn law_missing_amount_is_invalid(builder: TransactionBuilder, budgeting: Budgeting)
    requires
        builder.spec_amount() is None,
    ensures
        !builder.postable(&budgeting),
{
}

/// A transaction whose amount was set more than once, as income, as expense
/// or both, cannot be posted: `done` refuses it as invalid.
pub proof fn law_amount_set_twice_is_invalid(builder: TransactionBuilder, budgeting: Budgeting)
    requires
        builder.spec_amount_set_twice(),
    ensures
        !builder.postable(&budgeting),
{
}

} // verus!
