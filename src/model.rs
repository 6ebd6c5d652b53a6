use vstd::prelude::*;

use crate::category::Category;
use crate::ledger::DEFAULT_CATEGORY;
use crate::transaction::Transaction;

verus! {

/// A snapshot of one category together with what has been posted to it.
#[derive(Debug)]
pub struct CategoryModel {
    category: Category,
    transactions: Vec<Transaction>,
    income: i64,
    expense: i64,
    transfer_in: i64,
    transfer_out: i64,
    balance: i64,
}

impl CategoryModel {
    #[verifier::type_invariant]
    spec fn consistent(&self) -> bool {
        &&& self.balance == self.category.spec_allocated() + self.income + self.expense
            + self.transfer_in - self.transfer_out
        &&& 0 <= self.income
        &&& -i64::MAX <= self.expense <= 0
        &&& 0 <= self.transfer_in
        &&& 0 <= self.transfer_out
    }

    pub closed spec fn spec_category(&self) -> Category {
        self.category
    }

    pub closed spec fn spec_transactions(&self) -> Seq<Transaction> {
        self.transactions@
    }

    pub closed spec fn spec_income(&self) -> int {
        self.income as int
    }

    pub closed spec fn spec_expense(&self) -> int {
        self.expense as int
    }

    pub closed spec fn spec_transfer_in(&self) -> int {
        self.transfer_in as int
    }

    pub closed spec fn spec_transfer_out(&self) -> int {
        self.transfer_out as int
    }

    pub closed spec fn spec_balance(&self) -> int {
        self.balance as int
    }

    pub(crate) fn assemble(
        category: Category,
        transactions: Vec<Transaction>,
        income: i64,
        expense: i64,
        transfer_in: i64,
        transfer_out: i64,
        balance: i64,
    ) -> (r: CategoryModel)
        requires
            balance == category.spec_allocated() + income + expense + transfer_in - transfer_out,
            0 <= income,
            -i64::MAX <= expense <= 0,
            0 <= transfer_in,
            0 <= transfer_out,
        ensures
            r.spec_category() == category,
            r.spec_transactions() == transactions@,
            r.spec_income() == income,
            r.spec_expense() == expense,
            r.spec_transfer_in() == transfer_in,
            r.spec_transfer_out() == transfer_out,
            r.spec_balance() == balance,
    {
        CategoryModel { category, transactions, income, expense, transfer_in, transfer_out, balance }
    }

    pub fn category(&self) -> (r: Category)
        ensures
            r == self.spec_category(),
    {
        self.category.duplicate()
    }

    pub fn transactions(&self) -> (r: Vec<Transaction>)
        ensures
            r@ == self.spec_transactions(),
    {
        let mut r: Vec<Transaction> = Vec::new();
        let mut i: usize = 0;
        while i < self.transactions.len()
            invariant
                i <= self.transactions@.len(),
                r@ == self.transactions@.take(i as int),
            decreases self.transactions@.len() - i,
        {
            r.push(self.transactions[i].duplicate());
            i = i + 1;
            assert(r@ =~= self.transactions@.take(i as int));
        }
        assert(self.transactions@.take(i as int) =~= self.transactions@);
        r
    }

    pub fn allocated(&self) -> (r: i64)
        ensures
            r == self.spec_category().spec_allocated(),
    {
        self.category.allocated()
    }

    /// Sum of the positive amounts posted to the category.
    pub fn income(&self) -> (r: i64)
        ensures
            r == self.spec_income(),
            r >= 0,
    {
        proof {
            use_type_invariant(self);
        }
        self.income
    }

    /// Sum of the negative amounts posted to the category; never positive.
    pub fn expense(&self) -> (r: i64)
        ensures
            r == self.spec_expense(),
            r <= 0,
    {
        proof {
            use_type_invariant(self);
        }
        self.expense
    }

    pub fn transfer_in(&self) -> (r: i64)
        ensures
            r == self.spec_transfer_in(),
            r >= 0,
    {
        proof {
            use_type_invariant(self);
        }
        self.transfer_in
    }

    pub fn transfer_out(&self) -> (r: i64)
        ensures
            r == self.spec_transfer_out(),
            r >= 0,
    {
        proof {
            use_type_invariant(self);
        }
        self.transfer_out
    }

    /// The expense as a magnitude, for display.
    pub fn total_expense(&self) -> (r: i64)
        ensures
            r == -self.spec_expense(),
    {
        proof {
            use_type_invariant(self);
        }
        -self.expense
    }

    /// Whether funding from the unallocated pool can help this category: it is
    /// not the default category, and its balance is below its allocation.
    pub fn can_be_funded(&self) -> (r: bool)
        ensures
            r == (self.spec_category().spec_name() != DEFAULT_CATEGORY@ && self.spec_balance()
                < self.spec_category().spec_allocated()),
    {
        let default_name = DEFAULT_CATEGORY.to_owned();
        let name = self.category.name();
        name != default_name && self.balance < self.category.allocated()
    }

    /// The category's balance, which always equals
    /// allocated + income + expense + transfers in - transfers out.
    pub fn balance(&self) -> (r: i64)
        ensures
            r == self.spec_balance(),
            r == self.spec_category().spec_allocated() + self.spec_income() + self.spec_expense()
                + self.spec_transfer_in() - self.spec_transfer_out(),
    {
        proof {
            use_type_invariant(self);
        }
        self.balance
    }
}

/// Two snapshots stand for the same category when their ids agree, whatever
/// was posted in between.
impl PartialEq for CategoryModel {
    fn eq(&self, other: &CategoryModel) -> (r: bool)
        ensures
            r == (self.spec_category().spec_id() == other.spec_category().spec_id()),
    {
        self.category.id() == other.category.id()
    }
}

impl vstd::std_specs::cmp::PartialEqSpecImpl for CategoryModel {
    open spec fn obeys_eq_spec() -> bool {
        true
    }

    open spec fn eq_spec(&self, other: &CategoryModel) -> bool {
        self.spec_category().spec_id() == other.spec_category().spec_id()
    }
}

/// A transaction shown together with the category it was posted to.
#[derive(Debug)]
pub struct TransactionModel {
    transaction: Transaction,
    category: Category,
}

impl TransactionModel {
    pub closed spec fn spec_transaction(&self) -> Transaction {
        self.transaction
    }

    pub closed spec fn spec_category(&self) -> Category {
        self.category
    }

    pub(crate) fn assemble(transaction: Transaction, category: Category) -> (r: TransactionModel)
        ensures
            r.spec_transaction() == transaction,
            r.spec_category() == category,
    {
        TransactionModel { transaction, category }
    }

    pub fn transaction(&self) -> (r: Transaction)
        ensures
            r == self.spec_transaction(),
    {
        self.transaction.duplicate()
    }

    pub fn category(&self) -> (r: Category)
        ensures
            r == self.spec_category(),
    {
        self.category.duplicate()
    }

    pub fn category_name(&self) -> (r: String)
        ensures
            r@ == self.spec_category().spec_name(),
    {
        self.category.name()
    }
}

} // verus!
