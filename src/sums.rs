use vstd::prelude::*;

use crate::category::{Category, Transfer};
use crate::transaction::Transaction;

verus! {

/// Sum of the positive amounts posted to category `cid`.
pub open spec fn income_of(txs: Seq<Transaction>, cid: u64) -> int
    decreases txs.len(),
{
    if txs.len() == 0 {
        0
    } else {
        let t = txs.last();
        income_of(txs.drop_last(), cid) + if t.spec_category_id() == cid && t.spec_amount() > 0 {
            t.spec_amount() as int
        } else {
            0
        }
    }
}

/// Sum of the negative amounts posted to category `cid` (at most zero).
pub open spec fn expense_of(txs: Seq<Transaction>, cid: u64) -> int
    decreases txs.len(),
{
    if txs.len() == 0 {
        0
    } else {
        let t = txs.last();
        expense_of(txs.drop_last(), cid) + if t.spec_category_id() == cid && t.spec_amount() < 0 {
            t.spec_amount() as int
        } else {
            0
        }
    }
}

/// Sum of all positive amounts.
pub open spec fn total_income_of(txs: Seq<Transaction>) -> int
    decreases txs.len(),
{
    if txs.len() == 0 {
        0
    } else {
        let a = txs.last().spec_amount();
        total_income_of(txs.drop_last()) + if a > 0 { a as int } else { 0 }
    }
}

/// Sum of all negative amounts (at most zero).
pub open spec fn total_expense_of(txs: Seq<Transaction>) -> int
    decreases txs.len(),
{
    if txs.len() == 0 {
        0
    } else {
        let a = txs.last().spec_amount();
        total_expense_of(txs.drop_last()) + if a < 0 { a as int } else { 0 }
    }
}

/// Sum of the absolute values of all amounts.
pub open spec fn tx_volume(txs: Seq<Transaction>) -> int
    decreases txs.len(),
{
    if txs.len() == 0 {
        0
    } else {
        let a = txs.last().spec_amount();
        tx_volume(txs.drop_last()) + if a < 0 { -(a as int) } else { a as int }
    }
}

/// The transactions posted to category `cid`, in order.
pub open spec fn posted_to(txs: Seq<Transaction>, cid: u64) -> Seq<Transaction>
    decreases txs.len(),
{
    if txs.len() == 0 {
        Seq::empty()
    } else if txs.last().spec_category_id() == cid {
        posted_to(txs.drop_last(), cid).push(txs.last())
    } else {
        posted_to(txs.drop_last(), cid)
    }
}

/// Sum of the transfers into category `cid`.
pub open spec fn transfer_in_of(trs: Seq<Transfer>, cid: u64) -> int
    decreases trs.len(),
{
    if trs.len() == 0 {
        0
    } else {
        let t = trs.last();
        transfer_in_of(trs.drop_last(), cid) + if t.to == cid { t.amount as int } else { 0 }
    }
}

/// Sum of the transfers out of category `cid`.
pub open spec fn transfer_out_of(trs: Seq<Transfer>, cid: u64) -> int
    decreases trs.len(),
{
    if trs.len() == 0 {
        0
    } else {
        let t = trs.last();
        transfer_out_of(trs.drop_last(), cid) + if t.from == cid { t.amount as int } else { 0 }
    }
}

/// Sum of all transfer amounts.
pub open spec fn transfer_volume(trs: Seq<Transfer>) -> int
    decreases trs.len(),
{
    if trs.len() == 0 {
        0
    } else {
        transfer_volume(trs.drop_last()) + trs.last().amount as int
    }
}

/// Sum of the allocated amounts of all categories.
pub open spec fn allocated_total(cats: Seq<Category>) -> int
    decreases cats.len(),
{
    if cats.len() == 0 {
        0
    } else {
        allocated_total(cats.drop_last()) + cats.last().spec_allocated() as int
    }
}

/// Sum of the absolute allocated amounts of all categories.
pub open spec fn allocated_volume(cats: Seq<Category>) -> int
    decreases cats.len(),
{
    if cats.len() == 0 {
        0
    } else {
        let a = cats.last().spec_allocated();
        allocated_volume(cats.drop_last()) + if a < 0 { -(a as int) } else { a as int }
    }
}

pub open spec fn transfers_nonnegative(trs: Seq<Transfer>) -> bool {
    forall|i: int| 0 <= i < trs.len() ==> #[trigger] trs[i].amount >= 0
}

pub proof fn lemma_tx_bounds(txs: Seq<Transaction>, cid: u64)
    ensures
        0 <= income_of(txs, cid),
        expense_of(txs, cid) <= 0,
        income_of(txs, cid) - expense_of(txs, cid) <= tx_volume(txs),
        0 <= total_income_of(txs),
        total_expense_of(txs) <= 0,
        total_income_of(txs) - total_expense_of(txs) <= tx_volume(txs),
    decreases txs.len(),
{
    if txs.len() > 0 {
        lemma_tx_bounds(txs.drop_last(), cid);
    }
}

pub proof fn lemma_tx_volume_prefix(txs: Seq<Transaction>, i: int)
    requires
        0 <= i <= txs.len(),
    ensures
        0 <= tx_volume(txs.take(i)) <= tx_volume(txs),
    decreases txs.len(),
{
    if i == txs.len() {
        assert(txs.take(i) =~= txs);
        lemma_tx_volume_nonneg(txs);
    } else {
        lemma_tx_volume_prefix(txs.drop_last(), i);
        assert(txs.drop_last().take(i) =~= txs.take(i));
    }
}

pub proof fn lemma_tx_volume_nonneg(txs: Seq<Transaction>)
    ensures
        0 <= tx_volume(txs),
    decreases txs.len(),
{
    if txs.len() > 0 {
        lemma_tx_volume_nonneg(txs.drop_last());
    }
}

pub proof fn lemma_transfer_bounds(trs: Seq<Transfer>, cid: u64)
    requires
        transfers_nonnegative(trs),
    ensures
        0 <= transfer_in_of(trs, cid) <= transfer_volume(trs),
        0 <= transfer_out_of(trs, cid) <= transfer_volume(trs),
    decreases trs.len(),
{
    if trs.len() > 0 {
        assert(trs.last().amount >= 0);
        lemma_transfer_bounds(trs.drop_last(), cid);
    }
}

pub proof fn lemma_transfer_volume_prefix(trs: Seq<Transfer>, i: int)
    requires
        transfers_nonnegative(trs),
        0 <= i <= trs.len(),
    ensures
        0 <= transfer_volume(trs.take(i)) <= transfer_volume(trs),
    decreases trs.len(),
{
    if i == trs.len() {
        assert(trs.take(i) =~= trs);
        lemma_transfer_bounds(trs, 0);
    } else {
        assert(trs.last().amount >= 0);
        lemma_transfer_volume_prefix(trs.drop_last(), i);
        assert(trs.drop_last().take(i) =~= trs.take(i));
    }
}

pub proof fn lemma_allocated_bounds(cats: Seq<Category>, k: int)
    requires
        0 <= k < cats.len(),
    ensures
        -allocated_volume(cats) <= cats[k].spec_allocated() <= allocated_volume(cats),
        -allocated_volume(cats) <= allocated_total(cats) <= allocated_volume(cats),
    decreases cats.len(),
{
    lemma_allocated_total_bound(cats);
    if k < cats.len() - 1 {
        lemma_allocated_bounds(cats.drop_last(), k);
    } else {
        lemma_allocated_total_bound(cats.drop_last());
    }
}

pub proof fn lemma_allocated_total_bound(cats: Seq<Category>)
    ensures
        -allocated_volume(cats) <= allocated_total(cats) <= allocated_volume(cats),
    decreases cats.len(),
{
    if cats.len() > 0 {
        lemma_allocated_total_bound(cats.drop_last());
    }
}

pub proof fn lemma_allocated_volume_prefix(cats: Seq<Category>, i: int)
    requires
        0 <= i <= cats.len(),
    ensures
        0 <= allocated_volume(cats.take(i)) <= allocated_volume(cats),
    decreases cats.len(),
{
    if i == cats.len() {
        assert(cats.take(i) =~= cats);
        lemma_allocated_total_bound(cats);
    } else {
        lemma_allocated_volume_prefix(cats.drop_last(), i);
        assert(cats.drop_last().take(i) =~= cats.take(i));
    }
}

} // verus!
