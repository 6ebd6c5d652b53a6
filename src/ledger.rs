use vstd::prelude::*;

use crate::category::{Category, Transfer};
use crate::errors::BudgetingErrors;
use crate::model::CategoryModel;
use crate::sums::{
    allocated_total, allocated_volume, expense_of, income_of, lemma_allocated_bounds,
    lemma_allocated_total_bound, lemma_allocated_volume_prefix, lemma_transfer_bounds,
    lemma_transfer_volume_prefix, lemma_tx_bounds, lemma_tx_volume_prefix, posted_to,
    total_expense_of, total_income_of, transfer_in_of, transfer_out_of, transfer_volume,
    transfers_nonnegative, tx_volume,
};
use crate::transaction::Transaction;

verus! {

/// Name of the pool that holds the funds not yet given to a category.
pub const UNALLOCATED_CATEGORY: &'static str = "Unallocated";

/// Name of the category that receives transactions posted without one.
pub const DEFAULT_CATEGORY: &'static str = "Uncategorized";

/// Index of the unallocated pool among a budget's categories.
pub const UNALLOCATED_ID: u64 = 0;

/// Index of the default category among a budget's categories.
pub const DEFAULT_ID: u64 = 1;

/// Whether some category is called `name`.
pub open spec fn has_named(cats: Seq<Category>, name: Seq<char>) -> bool {
    exists|j: int| 0 <= j < cats.len() && #[trigger] cats[j].spec_name() == name
}

/// No two categories share a name.
pub open spec fn names_unique(cats: Seq<Category>) -> bool {
    forall|i: int, j: int|
        0 <= i < cats.len() && 0 <= j < cats.len() && i != j ==> #[trigger] cats[i].spec_name()
            != #[trigger] cats[j].spec_name()
}

/// What a ledger needs to be coherent: the two distinguished categories in
/// front, ids equal to positions, and every posting pointing at a category.
pub open spec fn ledger_wf(cats: Seq<Category>, txs: Seq<Transaction>, trs: Seq<Transfer>) -> bool {
    &&& cats.len() >= 2
    &&& cats[0].spec_name() == UNALLOCATED_CATEGORY@
    &&& cats[1].spec_name() == DEFAULT_CATEGORY@
    &&& forall|i: int| 0 <= i < cats.len() ==> #[trigger] cats[i].spec_id() == i
    &&& names_unique(cats)
    &&& forall|i: int| 0 <= i < txs.len() ==> #[trigger] txs[i].spec_category_id() < cats.len()
    &&& forall|i: int|
        0 <= i < trs.len() ==> #[trigger] trs[i].from < cats.len() && trs[i].to < cats.len()
    &&& transfers_nonnegative(trs)
}

/// All money a ledger has moved, counted without sign; transfers count on both sides.
pub open spec fn ledger_volume(cats: Seq<Category>, txs: Seq<Transaction>, trs: Seq<Transfer>) -> int {
    allocated_volume(cats) + tx_volume(txs) + 2 * transfer_volume(trs)
}

/// The balance of category `k`: allocated + income + expense + transfers in - transfers out.
pub open spec fn balance_in(
    cats: Seq<Category>,
    txs: Seq<Transaction>,
    trs: Seq<Transfer>,
    k: int,
) -> int {
    cats[k].spec_allocated() as int + income_of(txs, k as u64) + expense_of(txs, k as u64)
        + transfer_in_of(trs, k as u64) - transfer_out_of(trs, k as u64)
}

/// What category `k` lacks to hold its allocated amount.
pub open spec fn shortfall_in(
    cats: Seq<Category>,
    txs: Seq<Transaction>,
    trs: Seq<Transfer>,
    k: int,
) -> int {
    cats[k].spec_allocated() as int - balance_in(cats, txs, trs, k)
}

/// Sum of the balances of the first `n` categories.
pub open spec fn total_balance_upto(
    cats: Seq<Category>,
    txs: Seq<Transaction>,
    trs: Seq<Transfer>,
    n: int,
) -> int
    decreases n,
{
    if n <= 0 {
        0
    } else {
        total_balance_upto(cats, txs, trs, n - 1) + balance_in(cats, txs, trs, n - 1)
    }
}

/// Sum of the balances of all categories.
pub open spec fn total_balance(cats: Seq<Category>, txs: Seq<Transaction>, trs: Seq<Transfer>) -> int {
    total_balance_upto(cats, txs, trs, cats.len() as int)
}

/// The outcome of funding category `k` from the unallocated pool.
pub open spec fn fund_result(
    cats: Seq<Category>,
    txs: Seq<Transaction>,
    trs: Seq<Transfer>,
    k: int,
) -> Result<(), BudgetingErrors> {
    let needed = shortfall_in(cats, txs, trs, k);
    if needed <= 0 {
        Err(BudgetingErrors::AlreadyFunded)
    } else if balance_in(cats, txs, trs, UNALLOCATED_ID as int) < needed {
        Err(BudgetingErrors::OverFundingError)
    } else if k == UNALLOCATED_ID {
        Err(BudgetingErrors::UnallocatedNotFundable)
    } else if ledger_volume(cats, txs, trs) + 2 * needed > i64::MAX {
        Err(BudgetingErrors::LimitExceeded)
    } else {
        Ok(())
    }
}

/// The posting that a successful funding of category `k` appends.
pub open spec fn funding_transfer(
    cats: Seq<Category>,
    txs: Seq<Transaction>,
    trs: Seq<Transfer>,
    k: int,
) -> Transfer {
    Transfer { from: UNALLOCATED_ID, to: k as u64, amount: shortfall_in(cats, txs, trs, k) as i64 }
}

/// Whether a movement of `amount` cents still fits in a ledger of volume `volume`.
pub open spec fn fits(volume: int, amount: int) -> bool {
    amount != i64::MIN && volume + (if amount < 0 { -amount } else { amount }) <= i64::MAX
}

/// The categories, transactions and fund transfers of one budget.
#[derive(Debug)]
pub struct Budget {
    name: String,
    categories: Vec<Category>,
    transactions: Vec<Transaction>,
    transfers: Vec<Transfer>,
    volume: i64,
}

impl Budget {
    pub closed spec fn spec_name(&self) -> Seq<char> {
        self.name@
    }

    pub closed spec fn spec_categories(&self) -> Seq<Category> {
        self.categories@
    }

    pub closed spec fn spec_transactions(&self) -> Seq<Transaction> {
        self.transactions@
    }

    pub closed spec fn spec_transfers(&self) -> Seq<Transfer> {
        self.transfers@
    }

    pub closed spec fn spec_volume_field(&self) -> i64 {
        self.volume
    }

    pub open spec fn spec_volume(&self) -> int {
        ledger_volume(self.spec_categories(), self.spec_transactions(), self.spec_transfers())
    }

    pub open spec fn wf(&self) -> bool {
        &&& ledger_wf(self.spec_categories(), self.spec_transactions(), self.spec_transfers())
        &&& self.spec_volume_field() as int == self.spec_volume()
    }

    pub open spec fn balance_of(&self, k: int) -> int {
        balance_in(self.spec_categories(), self.spec_transactions(), self.spec_transfers(), k)
    }

    proof fn lemma_bounds(&self, k: int)
        requires
            self.wf(),
            0 <= k < self.spec_categories().len(),
        ensures
            ({
                let alloc = self.spec_categories()[k].spec_allocated() as int;
                let inc = income_of(self.spec_transactions(), k as u64);
                let exp = expense_of(self.spec_transactions(), k as u64);
                let tin = transfer_in_of(self.spec_transfers(), k as u64);
                let tout = transfer_out_of(self.spec_transfers(), k as u64);
                &&& 0 <= inc && exp <= 0 && 0 <= tin && 0 <= tout
                &&& (if alloc < 0 { -alloc } else { alloc }) + inc - exp + tin + tout
                    <= self.spec_volume()
            }),
            0 <= self.spec_volume() <= i64::MAX,
            0 <= allocated_volume(self.spec_categories()),
            0 <= tx_volume(self.spec_transactions()),
            0 <= transfer_volume(self.spec_transfers()),
    {
        lemma_allocated_bounds(self.spec_categories(), k);
        lemma_tx_bounds(self.spec_transactions(), k as u64);
        lemma_transfer_bounds(self.spec_transfers(), k as u64);
        lemma_tx_volume_prefix(self.spec_transactions(), 0);
        lemma_transfer_volume_prefix(self.spec_transfers(), 0);
        lemma_allocated_volume_prefix(self.spec_categories(), 0);
    }

    /// `m` is the snapshot of category `k` of `b`.
    pub open spec fn model_of(b: Budget, k: int, m: CategoryModel) -> bool {
        &&& m.spec_category() == b.spec_categories()[k]
        &&& m.spec_transactions() == posted_to(b.spec_transactions(), k as u64)
        &&& m.spec_income() == income_of(b.spec_transactions(), k as u64)
        &&& m.spec_expense() == expense_of(b.spec_transactions(), k as u64)
        &&& m.spec_transfer_in() == transfer_in_of(b.spec_transfers(), k as u64)
        &&& m.spec_transfer_out() == transfer_out_of(b.spec_transfers(), k as u64)
        &&& m.spec_balance() == b.balance_of(k)
    }

    /// `after` is `before` once category `name` was funded with outcome `r`.
    pub open spec fn funded(
        before: Budget,
        after: Budget,
        name: Seq<char>,
        r: Result<(), BudgetingErrors>,
    ) -> bool {
        let cats = before.spec_categories();
        let txs = before.spec_transactions();
        let trs = before.spec_transfers();
        &&& after.spec_name() == before.spec_name()
        &&& after.spec_categories() == cats
        &&& after.spec_transactions() == txs
        &&& (!has_named(cats, name) ==> r == Err::<(), BudgetingErrors>(
            BudgetingErrors::CategoryNotFound,
        ))
        &&& forall|k: int|
            0 <= k < cats.len() && #[trigger] cats[k].spec_name() == name ==> r == fund_result(cats, txs, trs, k) && (r is Ok
                ==> after.spec_transfers() == trs.push(funding_transfer(cats, txs, trs, k)))
        &&& (r is Err ==> after.spec_transfers() == trs)
    }

    pub fn category_count(&self) -> (r: usize)
        ensures
            r == self.spec_categories().len(),
    {
        self.categories.len()
    }

    /// A copy of category `k`.
    pub fn category(&self, k: usize) -> (r: Category)
        requires
            k < self.spec_categories().len(),
        ensures
            r == self.spec_categories()[k as int],
    {
        self.categories[k].duplicate()
    }

    /// Copies of the categories from position `from` on.
    pub fn categories(&self, from: usize) -> (r: Vec<Category>)
        requires
            from <= self.spec_categories().len(),
        ensures
            r@ == self.spec_categories().skip(from as int),
    {
        let mut r: Vec<Category> = Vec::new();
        let mut i: usize = from;
        while i < self.categories.len()
            invariant
                from <= i <= self.categories@.len(),
                r@ == self.categories@.subrange(from as int, i as int),
            decreases self.categories@.len() - i,
        {
            r.push(self.categories[i].duplicate());
            i = i + 1;
            assert(r@ =~= self.categories@.subrange(from as int, i as int));
        }
        assert(self.categories@.subrange(from as int, i as int) =~= self.categories@.skip(from as int));
        r
    }

    /// A fresh budget: the unallocated pool holding `initial_amount`, and the
    /// default category holding nothing.
    pub fn create(name: String, initial_amount: i64) -> (r: Result<Budget, BudgetingErrors>)
        ensures
            initial_amount == i64::MIN ==> r == Err::<Budget, BudgetingErrors>(
                BudgetingErrors::LimitExceeded,
            ),
            initial_amount != i64::MIN ==> r is Ok,
            r matches Ok(b) ==> {
                &&& b.wf()
                &&& b.spec_name() == name@
                &&& b.spec_categories().len() == 2
                &&& b.spec_categories()[0].spec_allocated() == initial_amount
                &&& b.spec_categories()[1].spec_allocated() == 0
                &&& b.spec_transactions().len() == 0
                &&& b.spec_transfers().len() == 0
                &&& b.spec_volume() == if initial_amount < 0 { -initial_amount } else { initial_amount as int }
            },
    {
        if initial_amount == i64::MIN {
            return Err(BudgetingErrors::LimitExceeded);
        }
        let mut categories: Vec<Category> = Vec::new();
        categories.push(Category::record(UNALLOCATED_ID, UNALLOCATED_CATEGORY.to_owned(), initial_amount));
        categories.push(Category::record(DEFAULT_ID, DEFAULT_CATEGORY.to_owned(), 0));
        let volume: i64 = if initial_amount < 0 { -initial_amount } else { initial_amount };
        let b = Budget { name, categories, transactions: Vec::new(), transfers: Vec::new(), volume };
        proof {
            let cats = b.categories@;
            assert(cats.drop_last().drop_last() =~= Seq::<Category>::empty());
            assert(cats.drop_last().last() == cats[0]);
            assert(allocated_volume(cats.drop_last().drop_last()) == 0);
            assert(allocated_volume(cats.drop_last()) == volume);
            assert(cats.last() == cats[1]);
            reveal_strlit("Unallocated");
            reveal_strlit("Uncategorized");
            assert(cats[0].spec_name().len() != cats[1].spec_name().len());
        }
        Ok(b)
    }

    pub fn name(&self) -> (r: String)
        ensures
            r@ == self.spec_name(),
    {
        self.name.clone()
    }

    pub fn has_name(&self, name: &String) -> (r: bool)
        ensures
            r == (self.spec_name() == name@),
    {
        self.name == *name
    }

    /// The position of a category called `name`.
    pub fn category_index(&self, name: &String) -> (r: Option<usize>)
        ensures
            r matches Some(k) ==> k < self.spec_categories().len() && self.spec_categories()[k as int].spec_name()
                == name@,
            r is None <==> !has_named(self.spec_categories(), name@),
    {
        let mut i: usize = 0;
        while i < self.categories.len()
            invariant
                i <= self.categories@.len(),
                forall|j: int| 0 <= j < i ==> #[trigger] self.categories@[j].spec_name() != name@,
            decreases self.categories@.len() - i,
        {
            if self.categories[i].has_name(name) {
                return Some(i);
            }
            i = i + 1;
        }
        None
    }

    /// Income, expense, transfers in and transfers out of category `k`, and
    /// the transactions posted to it.
    fn flows(&self, k: usize) -> (r: (i64, i64, i64, i64, Vec<Transaction>))
        requires
            self.wf(),
            k < self.spec_categories().len(),
        ensures
            r.0 == income_of(self.spec_transactions(), k as u64),
            r.1 == expense_of(self.spec_transactions(), k as u64),
            r.2 == transfer_in_of(self.spec_transfers(), k as u64),
            r.3 == transfer_out_of(self.spec_transfers(), k as u64),
            r.4@ == posted_to(self.spec_transactions(), k as u64),
    {
        let cid = k as u64;
        let ghost txs = self.transactions@;
        let ghost trs = self.transfers@;
        proof {
            self.lemma_bounds(k as int);
        }
        let mut income: i64 = 0;
        let mut expense: i64 = 0;
        let mut posted: Vec<Transaction> = Vec::new();
        let mut i: usize = 0;
        while i < self.transactions.len()
            invariant
                self.wf(),
                txs == self.transactions@,
                i <= txs.len(),
                income == income_of(txs.take(i as int), cid),
                expense == expense_of(txs.take(i as int), cid),
                posted@ == posted_to(txs.take(i as int), cid),
                tx_volume(txs) <= i64::MAX,
            decreases txs.len() - i,
        {
            let t = &self.transactions[i];
            proof {
                assert(txs.take(i + 1).drop_last() =~= txs.take(i as int));
                assert(txs.take(i + 1).last() == txs[i as int]);
                lemma_tx_bounds(txs.take(i + 1), cid);
                lemma_tx_volume_prefix(txs, i + 1);
            }
            if t.category_id() == cid {
                let a = t.get_amount();
                if a > 0 {
                    income = income + a;
                } else if a < 0 {
                    expense = expense + a;
                }
                posted.push(t.duplicate());
            }
            i = i + 1;
        }
        assert(txs.take(i as int) =~= txs);
        let mut transfer_in: i64 = 0;
        let mut transfer_out: i64 = 0;
        let mut j: usize = 0;
        while j < self.transfers.len()
            invariant
                self.wf(),
                trs == self.transfers@,
                j <= trs.len(),
                transfer_in == transfer_in_of(trs.take(j as int), cid),
                transfer_out == transfer_out_of(trs.take(j as int), cid),
                transfer_volume(trs) <= i64::MAX,
            decreases trs.len() - j,
        {
            let t = self.transfers[j];
            proof {
                assert(trs.take(j + 1).drop_last() =~= trs.take(j as int));
                assert(trs.take(j + 1).last() == trs[j as int]);
                assert(transfers_nonnegative(trs.take(j + 1)));
                lemma_transfer_bounds(trs.take(j + 1), cid);
                lemma_transfer_volume_prefix(trs, j + 1);
            }
            if t.to == cid {
                transfer_in = transfer_in + t.amount;
            }
            if t.from == cid {
                transfer_out = transfer_out + t.amount;
            }
            j = j + 1;
        }
        assert(trs.take(j as int) =~= trs);
        (income, expense, transfer_in, transfer_out, posted)
    }

    /// The snapshot of category `k`.
    pub fn category_model(&self, k: usize) -> (r: CategoryModel)
        requires
            self.wf(),
            k < self.spec_categories().len(),
        ensures
            r.spec_category() == self.spec_categories()[k as int],
            r.spec_transactions() == posted_to(self.spec_transactions(), k as u64),
            r.spec_income() == income_of(self.spec_transactions(), k as u64),
            r.spec_expense() == expense_of(self.spec_transactions(), k as u64),
            r.spec_transfer_in() == transfer_in_of(self.spec_transfers(), k as u64),
            r.spec_transfer_out() == transfer_out_of(self.spec_transfers(), k as u64),
            r.spec_balance() == self.balance_of(k as int),
    {
        let (income, expense, transfer_in, transfer_out, posted) = self.flows(k);
        proof {
            self.lemma_bounds(k as int);
        }
        let category = self.categories[k].duplicate();
        let balance = category.allocated() + income + expense + transfer_in - transfer_out;
        CategoryModel::assemble(category, posted, income, expense, transfer_in, transfer_out, balance)
    }

    /// The balance of category `k`.
    pub fn balance(&self, k: usize) -> (r: i64)
        requires
            self.wf(),
            k < self.spec_categories().len(),
        ensures
            r == self.balance_of(k as int),
    {
        self.category_model(k).balance()
    }

    /// Moves the shortfall of the category called `name` out of the
    /// unallocated pool into it. Either both postings are made or none.
    pub fn fund_from_unallocated(&mut self, name: &String) -> (r: Result<(), BudgetingErrors>)
        requires
            old(self).wf(),
        ensures
            final(self).wf(),
            Budget::funded(*old(self), *final(self), name@, r),
            r is Err ==> *final(self) == *old(self),
    {
        let k = match self.category_index(name) {
            None => return Err(BudgetingErrors::CategoryNotFound),
            Some(k) => k,
        };
        let ghost cats = self.categories@;
        let ghost txs = self.transactions@;
        let ghost trs = self.transfers@;
        proof {
            self.lemma_bounds(k as int);
            self.lemma_bounds(0);
            assert forall|j: int| 0 <= j < cats.len() && #[trigger] cats[j].spec_name() == name@ implies j
                == k by {
                if j != k {
                    assert(cats[j].spec_name() != cats[k as int].spec_name());
                }
            }
        }
        let allocated = self.categories[k].allocated();
        let balance = self.balance(k);
        if balance >= allocated {
            return Err(BudgetingErrors::AlreadyFunded);
        }
        let needed = allocated - balance;
        let pool = self.balance(0);
        if pool < needed {
            return Err(BudgetingErrors::OverFundingError);
        }
        if k as u64 == UNALLOCATED_ID {
            return Err(BudgetingErrors::UnallocatedNotFundable);
        }
        let room = i64::MAX - self.volume;
        if needed > room - needed {
            return Err(BudgetingErrors::LimitExceeded);
        }
        self.transfers.push(Transfer { from: UNALLOCATED_ID, to: k as u64, amount: needed });
        self.volume = self.volume + 2 * needed;
        proof {
            let trs2 = self.transfers@;
            assert(trs2.drop_last() =~= trs);
            assert(transfers_nonnegative(trs2));
            assert(ledger_wf(cats, txs, trs2));
        }
        Ok(())
    }

    /// Appends a transaction to category `cid`.
    pub fn post(
        &mut self,
        cid: u64,
        amount: i64,
        payee: String,
        note: String,
        date_created: i64,
    ) -> (r: Result<Transaction, BudgetingErrors>)
        requires
            old(self).wf(),
        ensures
            final(self).wf(),
            final(self).spec_name() == old(self).spec_name(),
            final(self).spec_categories() == old(self).spec_categories(),
            final(self).spec_transfers() == old(self).spec_transfers(),
            cid >= old(self).spec_categories().len() ==> r == Err::<Transaction, BudgetingErrors>(
                BudgetingErrors::InvalidTransaction,
            ),
            cid < old(self).spec_categories().len() && !fits(old(self).spec_volume(), amount as int)
                ==> r == Err::<Transaction, BudgetingErrors>(BudgetingErrors::LimitExceeded),
            cid < old(self).spec_categories().len() && fits(old(self).spec_volume(), amount as int)
                ==> r is Ok,
            r is Err ==> *final(self) == *old(self),
            r matches Ok(t) ==> {
                &&& final(self).spec_transactions() == old(self).spec_transactions().push(t)
                &&& t.spec_id() == old(self).spec_transactions().len()
                &&& t.spec_category_id() == cid
                &&& t.spec_amount() == amount
                &&& t.spec_payee() == payee@
                &&& t.spec_note() == note@
                &&& t.spec_date_created() == date_created
                &&& final(self).spec_volume() == old(self).spec_volume() + if amount < 0 { -amount } else { amount as int }
            },
    {
        if cid >= self.categories.len() as u64 {
            return Err(BudgetingErrors::InvalidTransaction);
        }
        proof {
            self.lemma_bounds(0);
        }
        if amount == i64::MIN {
            return Err(BudgetingErrors::LimitExceeded);
        }
        let size: i64 = if amount < 0 { -amount } else { amount };
        if size > i64::MAX - self.volume {
            return Err(BudgetingErrors::LimitExceeded);
        }
        let ghost txs = self.transactions@;
        let t = Transaction::record(self.transactions.len() as u64, cid, amount, payee, note, date_created);
        self.transactions.push(t.duplicate());
        self.volume = self.volume + size;
        proof {
            assert(self.transactions@.drop_last() =~= txs);
        }
        Ok(t)
    }

    /// Adds a category called `name` with `allocated` cents earmarked for it.
    pub fn add_category(&mut self, name: String, allocated: i64) -> (r: Result<Category, BudgetingErrors>)
        requires
            old(self).wf(),
        ensures
            final(self).wf(),
            final(self).spec_name() == old(self).spec_name(),
            final(self).spec_transactions() == old(self).spec_transactions(),
            final(self).spec_transfers() == old(self).spec_transfers(),
            has_named(old(self).spec_categories(), name@) ==> r == Err::<Category, BudgetingErrors>(
                BudgetingErrors::CategoryAlreadyExists,
            ),
            !has_named(old(self).spec_categories(), name@) && !fits(old(self).spec_volume(), allocated as int)
                ==> r == Err::<Category, BudgetingErrors>(BudgetingErrors::LimitExceeded),
            !has_named(old(self).spec_categories(), name@) && fits(old(self).spec_volume(), allocated as int)
                ==> r is Ok,
            r is Err ==> *final(self) == *old(self),
            r matches Ok(c) ==> {
                &&& final(self).spec_categories() == old(self).spec_categories().push(c)
                &&& c.spec_id() == old(self).spec_categories().len()
                &&& c.spec_name() == name@
                &&& c.spec_allocated() == allocated
            },
    {
        if self.category_index(&name).is_some() {
            return Err(BudgetingErrors::CategoryAlreadyExists);
        }
        proof {
            self.lemma_bounds(0);
        }
        if allocated == i64::MIN {
            return Err(BudgetingErrors::LimitExceeded);
        }
        let size: i64 = if allocated < 0 { -allocated } else { allocated };
        if size > i64::MAX - self.volume {
            return Err(BudgetingErrors::LimitExceeded);
        }
        let ghost cats = self.categories@;
        let c = Category::record(self.categories.len() as u64, name, allocated);
        self.categories.push(c.duplicate());
        self.volume = self.volume + size;
        proof {
            assert(self.categories@.drop_last() =~= cats);
            let cats2 = self.categories@;
            assert forall|i: int, j: int|
                0 <= i < cats2.len() && 0 <= j < cats2.len() && i != j implies #[trigger] cats2[i].spec_name()
                    != #[trigger] cats2[j].spec_name() by {
                if i < cats.len() && j < cats.len() {
                    assert(cats[i] == cats2[i] && cats[j] == cats2[j]);
                } else if i < cats.len() {
                    assert(cats[i].spec_name() != name@);
                } else {
                    assert(cats[j].spec_name() != name@);
                }
            }
        }
        Ok(c)
    }

    /// Sum of all positive amounts and sum of all negative amounts posted.
    pub fn income_and_expense(&self) -> (r: (i64, i64))
        requires
            self.wf(),
        ensures
            r.0 == total_income_of(self.spec_transactions()),
            r.1 == total_expense_of(self.spec_transactions()),
    {
        let ghost txs = self.transactions@;
        proof {
            self.lemma_bounds(0);
        }
        let mut income: i64 = 0;
        let mut expense: i64 = 0;
        let mut i: usize = 0;
        while i < self.transactions.len()
            invariant
                txs == self.transactions@,
                i <= txs.len(),
                income == total_income_of(txs.take(i as int)),
                expense == total_expense_of(txs.take(i as int)),
                tx_volume(txs) <= i64::MAX,
            decreases txs.len() - i,
        {
            let a = self.transactions[i].get_amount();
            proof {
                assert(txs.take(i + 1).drop_last() =~= txs.take(i as int));
                assert(txs.take(i + 1).last() == txs[i as int]);
                lemma_tx_bounds(txs.take(i + 1), 0);
                lemma_tx_volume_prefix(txs, i + 1);
            }
            if a > 0 {
                income = income + a;
            } else if a < 0 {
                expense = expense + a;
            }
            i = i + 1;
        }
        assert(txs.take(i as int) =~= txs);
        (income, expense)
    }

    /// Sum of the allocated amounts of all categories.
    pub fn total_allocated(&self) -> (r: i64)
        requires
            self.wf(),
        ensures
            r == allocated_total(self.spec_categories()),
    {
        let ghost cats = self.categories@;
        proof {
            self.lemma_bounds(0);
        }
        let mut total: i64 = 0;
        let mut i: usize = 0;
        while i < self.categories.len()
            invariant
                cats == self.categories@,
                i <= cats.len(),
                total == allocated_total(cats.take(i as int)),
                allocated_volume(cats) <= i64::MAX,
            decreases cats.len() - i,
        {
            let a = self.categories[i].allocated();
            proof {
                assert(cats.take(i + 1).drop_last() =~= cats.take(i as int));
                assert(cats.take(i + 1).last() == cats[i as int]);
                lemma_allocated_total_bound(cats.take(i + 1));
                lemma_allocated_volume_prefix(cats, i + 1);
            }
            total = total + a;
            i = i + 1;
        }
        assert(cats.take(i as int) =~= cats);
        total
    }

    /// Sum of the balances of all categories.
    pub fn actual_total_balance(&self) -> (r: i128)
        requires
            self.wf(),
        ensures
            r == total_balance(self.spec_categories(), self.spec_transactions(), self.spec_transfers()),
    {
        let ghost cats = self.categories@;
        let ghost txs = self.transactions@;
        let ghost trs = self.transfers@;
        let n = self.categories.len();
        let mut total: i128 = 0;
        let mut i: usize = 0;
        while i < n
            invariant
                self.wf(),
                cats == self.categories@,
                txs == self.transactions@,
                trs == self.transfers@,
                n == cats.len(),
                i <= n,
                total == total_balance_upto(cats, txs, trs, i as int),
                -(i as int) * (i64::MAX as int) <= total <= (i as int) * (i64::MAX as int),
            decreases n - i,
        {
            let b = self.balance(i);
            proof {
                let ii = i as int;
                let m = i64::MAX as int;
                self.lemma_bounds(ii);
                assert(-m <= b <= m);
                assert(ii < 0x1_0000_0000_0000_0000) by {
                    assert(i < usize::MAX);
                }
                assert((ii + 1) * m <= 0x1_0000_0000_0000_0000 * m) by (nonlinear_arith)
                    requires
                        ii + 1 <= 0x1_0000_0000_0000_0000,
                        m > 0,
                ;
                assert((ii + 1) * m == ii * m + m) by (nonlinear_arith);
                assert(-(ii + 1) * m == -ii * m - m) by (nonlinear_arith);
            }
            total = total + b as i128;
            i = i + 1;
        }
        total
    }
}

} // verus!
