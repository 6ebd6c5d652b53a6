use vstd::prelude::*;

use crate::category::{Category, Transfer};
use crate::errors::BudgetingErrors;
use crate::ledger::{
    fits, has_named, total_balance, Budget, DEFAULT_ID, UNALLOCATED_ID,
};
use crate::model::{CategoryModel, TransactionModel};
use crate::sums::{allocated_total, total_expense_of, total_income_of};
use crate::transaction::Transaction;

verus! {

/// The set of budgets of one process, one of which is current.
#[derive(Debug)]
pub struct Budgeting {
    current: Option<Budget>,
    others: Vec<Budget>,
}

/// Whether one of `others` or `current` is called `name`.
pub open spec fn budget_exists(current: Option<Budget>, others: Seq<Budget>, name: Seq<char>) -> bool {
    (current matches Some(b) && b.spec_name() == name) || exists|j: int|
        0 <= j < others.len() && #[trigger] others[j].spec_name() == name
}

/// No two budgets share a name.
pub open spec fn budget_names_unique(current: Option<Budget>, others: Seq<Budget>) -> bool {
    &&& forall|i: int, j: int|
        0 <= i < others.len() && 0 <= j < others.len() && i != j ==> #[trigger] others[i].spec_name()
            != #[trigger] others[j].spec_name()
    &&& (current matches Some(c) ==> forall|i: int|
        0 <= i < others.len() ==> #[trigger] others[i].spec_name() != c.spec_name())
}

impl Budgeting {
    pub closed spec fn spec_current(&self) -> Option<Budget> {
        self.current
    }

    pub closed spec fn spec_others(&self) -> Seq<Budget> {
        self.others@
    }

    pub open spec fn wf(&self) -> bool {
        &&& (self.spec_current() matches Some(b) ==> b.wf())
        &&& forall|j: int| 0 <= j < self.spec_others().len() ==> #[trigger] self.spec_others()[j].wf()
        &&& budget_names_unique(self.spec_current(), self.spec_others())
    }

    /// Whether `b` is one of the budgets, current or not.
    pub open spec fn holds_budget(&self, b: Budget) -> bool {
        self.spec_current() == Some(b) || exists|j: int|
            0 <= j < self.spec_others().len() && #[trigger] self.spec_others()[j] == b
    }

    /// Whether a budget called `name` exists.
    pub open spec fn has_budget(&self, name: Seq<char>) -> bool {
        budget_exists(self.spec_current(), self.spec_others(), name)
    }

    /// The categories of the current budget (none without one).
    pub open spec fn current_categories(&self) -> Seq<Category> {
        match self.spec_current() {
            Some(b) => b.spec_categories(),
            None => Seq::empty(),
        }
    }

    /// The transactions of the current budget (none without one).
    pub open spec fn current_transactions(&self) -> Seq<Transaction> {
        match self.spec_current() {
            Some(b) => b.spec_transactions(),
            None => Seq::empty(),
        }
    }

    /// The fund transfers of the current budget (none without one).
    pub open spec fn current_transfers(&self) -> Seq<Transfer> {
        match self.spec_current() {
            Some(b) => b.spec_transfers(),
            None => Seq::empty(),
        }
    }

    /// A set of budgets with none in it.
    pub fn new() -> (r: Budgeting)
        ensures
            r.wf(),
            r.spec_current() is None,
            r.spec_others().len() == 0,
    {
        Budgeting { current: None, others: Vec::new() }
    }

    /// The position among the other budgets of the first one called `name`.
    fn other_index(&self, name: &String) -> (r: Option<usize>)
        ensures
            r matches Some(j) ==> j < self.spec_others().len() && self.spec_others()[j as int].spec_name()
                == name@,
            r is None ==> forall|j: int|
                0 <= j < self.spec_others().len() ==> #[trigger] self.spec_others()[j].spec_name()
                    != name@,
    {
        let mut i: usize = 0;
        while i < self.others.len()
            invariant
                i <= self.others@.len(),
                forall|j: int| 0 <= j < i ==> #[trigger] self.others@[j].spec_name() != name@,
            decreases self.others@.len() - i,
        {
            if self.others[i].has_name(name) {
                return Some(i);
            }
            i = i + 1;
        }
        None
    }

    /// Creates a budget called `name` whose unallocated pool holds
    /// `initial_amount` cents, and makes it current.
    pub fn new_budget(&mut self, name: &str, initial_amount: i64) -> (r: Result<(), BudgetingErrors>)
        requires
            old(self).wf(),
        ensures
            final(self).wf(),
            old(self).has_budget(name@) ==> r == Err::<(), BudgetingErrors>(
                BudgetingErrors::BudgetAlreadyExists,
            ),
            !old(self).has_budget(name@) && initial_amount == i64::MIN ==> r == Err::<(), BudgetingErrors>(
                BudgetingErrors::LimitExceeded,
            ),
            !old(self).has_budget(name@) && initial_amount != i64::MIN ==> r is Ok,
            r is Err ==> *final(self) == *old(self),
            r is Ok ==> {
                &&& final(self).spec_current() matches Some(b)
                &&& b.spec_name() == name@
                &&& b.spec_categories().len() == 2
                &&& b.spec_categories()[UNALLOCATED_ID as int].spec_allocated() == initial_amount
                &&& b.spec_categories()[DEFAULT_ID as int].spec_allocated() == 0
                &&& b.spec_transactions().len() == 0
                &&& b.spec_transfers().len() == 0
                &&& b.spec_volume() == if initial_amount < 0 { -initial_amount } else { initial_amount as int }
                &&& forall|n: Seq<char>| #[trigger]
                    final(self).has_budget(n) <==> (old(self).has_budget(n) || n == name@)
                &&& forall|x: Budget| #[trigger]
                    final(self).holds_budget(x) <==> (old(self).holds_budget(x) || x == b)
            },
    {
        let name = name.to_owned();
        let taken = match &self.current {
            Some(b) => b.has_name(&name),
            None => false,
        };
        if taken || self.other_index(&name).is_some() {
            return Err(BudgetingErrors::BudgetAlreadyExists);
        }
        let fresh = match Budget::create(name, initial_amount) {
            Ok(b) => b,
            Err(e) => return Err(e),
        };
        let ghost old_others = self.others@;
        let ghost old_current = self.current;
        match self.current.take() {
            Some(b) => self.others.push(b),
            None => {},
        }
        self.current = Some(fresh);
        proof {
            assert forall|n: Seq<char>| #[trigger]
                self.has_budget(n) <==> (budget_exists(old_current, old_others, n) || n == name@) by {
                if budget_exists(old_current, old_others, n) && !(old_current matches Some(b)
                    && b.spec_name() == n) {
                    let j = choose|j: int| 0 <= j < old_others.len() && #[trigger] old_others[j].spec_name() == n;
                    assert(self.others@[j].spec_name() == n);
                }
                if old_current matches Some(b) && b.spec_name() == n {
                    assert(self.others@[old_others.len() as int].spec_name() == n);
                }
                if self.has_budget(n) && n != name@ {
                    let j = choose|j: int| 0 <= j < self.others@.len() && #[trigger] self.others@[j].spec_name() == n;
                    if j < old_others.len() {
                        assert(old_others[j].spec_name() == n);
                    }
                }
            }
            let others = self.others@;
            assert(old(self).spec_others() == old_others);
            assert(old(self).spec_current() == old_current);
            assert(self.spec_others() == others);
            assert(self.spec_current() == Some(fresh));
            assert forall|x: Budget| #[trigger]
                self.holds_budget(x) <==> (old(self).holds_budget(x) || x == fresh) by {
                if old(self).holds_budget(x) && old_current != Some(x) {
                    let j = choose|j: int| 0 <= j < old_others.len() && #[trigger] old_others[j] == x;
                    assert(others[j] == x);
                }
                if old_current == Some(x) {
                    assert(others[old_others.len() as int] == x);
                }
                if self.holds_budget(x) && x != fresh {
                    let j = choose|j: int| 0 <= j < others.len() && #[trigger] others[j] == x;
                    if j < old_others.len() {
                        assert(old_others[j] == x);
                    }
                }
            }
            assert forall|i: int, j: int|
                0 <= i < others.len() && 0 <= j < others.len() && i != j implies #[trigger] others[i].spec_name()
                    != #[trigger] others[j].spec_name() by {
                if i < old_others.len() && j < old_others.len() {
                    assert(others[i] == old_others[i] && others[j] == old_others[j]);
                } else if i < old_others.len() {
                    assert(others[i] == old_others[i]);
                } else {
                    assert(others[j] == old_others[j]);
                }
            }
            assert forall|i: int| 0 <= i < others.len() implies #[trigger] others[i].spec_name() != name@ by {
                if i < old_others.len() {
                    assert(others[i] == old_others[i]);
                    assert(old_others[i].spec_name() != name@);
                }
            }
        }
        Ok(())
    }

    /// Makes the budget called `name` current.
    pub fn set_current_budget(&mut self, name: &str) -> (r: Result<(), BudgetingErrors>)
        requires
            old(self).wf(),
        ensures
            final(self).wf(),
            r is Ok <==> old(self).has_budget(name@),
            r is Err ==> r == Err::<(), BudgetingErrors>(BudgetingErrors::BudgetNotFound)
                && *final(self) == *old(self),
            r is Ok ==> {
                &&& final(self).spec_current() matches Some(b)
                &&& b.spec_name() == name@
                &&& old(self).holds_budget(b)
            },
            r is Ok ==> forall|n: Seq<char>| #[trigger] final(self).has_budget(n) <==> old(self).has_budget(n),
            r is Ok ==> forall|x: Budget| #[trigger] final(self).holds_budget(x) <==> old(self).holds_budget(x),
            old(self).spec_current() matches Some(c) && c.spec_name() == name@ ==> *final(self) == *old(self),
    {
        let name = name.to_owned();
        let taken = match &self.current {
            Some(b) => b.has_name(&name),
            None => false,
        };
        if taken {
            return Ok(());
        }
        let j = match self.other_index(&name) {
            None => return Err(BudgetingErrors::BudgetNotFound),
            Some(j) => j,
        };
        let ghost old_others = self.others@;
        let ghost old_current = self.current;
        let chosen = self.others.remove(j);
        match self.current.take() {
            Some(b) => self.others.push(b),
            None => {},
        }
        self.current = Some(chosen);
        proof {
            let ji = j as int;
            let others = self.others@;
            let rest = old_others.remove(ji);
            assert(old_others[ji] == chosen);
            assert(forall|i: int| 0 <= i < ji ==> rest[i] == old_others[i]);
            assert(forall|i: int| ji <= i < rest.len() ==> rest[i] == old_others[i + 1]);
            assert(forall|i: int| 0 <= i < rest.len() ==> others[i] == rest[i]);
            assert forall|i: int| 0 <= i < others.len() implies #[trigger] others[i].wf() by {
                if i < rest.len() {
                    if i >= ji {
                        assert(others[i] == old_others[i + 1]);
                    }
                }
            }
            assert(old(self).spec_others() == old_others);
            assert(old(self).spec_current() == old_current);
            assert(self.spec_others() == others);
            assert(self.spec_current() == Some(chosen));
            assert forall|x: Budget| #[trigger] self.holds_budget(x) <==> old(self).holds_budget(x) by {
                if old(self).holds_budget(x) && old_current != Some(x) && x != chosen {
                    let i = choose|i: int| 0 <= i < old_others.len() && #[trigger] old_others[i] == x;
                    if i < ji {
                        assert(others[i] == x);
                    } else {
                        assert(i != ji);
                        assert(others[i - 1] == x);
                    }
                }
                if old_current == Some(x) {
                    assert(others[rest.len() as int] == x);
                }
                if self.holds_budget(x) && x != chosen {
                    let i = choose|i: int| 0 <= i < others.len() && #[trigger] others[i] == x;
                    if i < rest.len() {
                        if i < ji {
                            assert(old_others[i] == x);
                        } else {
                            assert(old_others[i + 1] == x);
                        }
                    }
                }
            }
            assert forall|n: Seq<char>| #[trigger] self.has_budget(n) <==> old(self).has_budget(n) by {
                if old(self).has_budget(n) {
                    if old_current is Some && old_current.unwrap().spec_name() == n {
                        assert(self.holds_budget(old_current.unwrap()));
                    } else {
                        let i = choose|i: int| 0 <= i < old_others.len() && #[trigger] old_others[i].spec_name() == n;
                        assert(old(self).holds_budget(old_others[i]));
                        assert(self.holds_budget(old_others[i]));
                    }
                }
                if self.has_budget(n) {
                    if self.current is Some && self.current.unwrap().spec_name() == n {
                        assert(old(self).holds_budget(self.current.unwrap()));
                    } else {
                        let i = choose|i: int| 0 <= i < others.len() && #[trigger] others[i].spec_name() == n;
                        assert(self.holds_budget(others[i]));
                        assert(old(self).holds_budget(others[i]));
                    }
                }
            }
            assert forall|a: int, b: int|
                0 <= a < others.len() && 0 <= b < others.len() && a != b implies #[trigger] others[a].spec_name()
                    != #[trigger] others[b].spec_name() by {
                let oa = if a == rest.len() { -1 } else if a < ji { a } else { a + 1 };
                let ob = if b == rest.len() { -1 } else if b < ji { b } else { b + 1 };
                if oa >= 0 && ob >= 0 {
                    assert(others[a] == old_others[oa] && others[b] == old_others[ob]);
                } else if oa >= 0 {
                    assert(others[a] == old_others[oa]);
                } else {
                    assert(others[b] == old_others[ob]);
                }
            }
            assert forall|i: int| 0 <= i < others.len() implies #[trigger] others[i].spec_name() != chosen.spec_name() by {
                if i < rest.len() {
                    let oi = if i < ji { i } else { i + 1 };
                    assert(others[i] == old_others[oi]);
                    assert(old_others[oi].spec_name() != old_others[ji].spec_name());
                } else {
                    assert(old_current matches Some(c) && others[i] == c);
                }
            }
        }
        Ok(())
    }

    /// Adds a category to the current budget.
    pub fn new_category(&mut self, name: &str, allocated: i64) -> (r: Result<Category, BudgetingErrors>)
        requires
            old(self).wf(),
        ensures
            final(self).wf(),
            final(self).spec_others() == old(self).spec_others(),
            old(self).spec_current() is None ==> r == Err::<Category, BudgetingErrors>(
                BudgetingErrors::BudgetNotFound,
            ),
            r is Err ==> *final(self) == *old(self),
            old(self).spec_current() is Some ==> final(self).spec_current() is Some,
            old(self).spec_current() matches Some(b) ==> {
                let a = final(self).spec_current().unwrap();
                &&& a.spec_name() == b.spec_name()
                &&& a.spec_transactions() == b.spec_transactions()
                &&& a.spec_transfers() == b.spec_transfers()
                &&& (has_named(b.spec_categories(), name@) ==> r == Err::<Category, BudgetingErrors>(
                    BudgetingErrors::CategoryAlreadyExists,
                ))
                &&& (!has_named(b.spec_categories(), name@) && !fits(b.spec_volume(), allocated as int)
                    ==> r == Err::<Category, BudgetingErrors>(BudgetingErrors::LimitExceeded))
                &&& (!has_named(b.spec_categories(), name@) && fits(b.spec_volume(), allocated as int)
                    ==> r is Ok)
                &&& (r is Err ==> a.spec_categories() == b.spec_categories())
                &&& (r matches Ok(c) ==> {
                    &&& a.spec_categories() == b.spec_categories().push(c)
                    &&& c.spec_id() == b.spec_categories().len()
                    &&& c.spec_name() == name@
                    &&& c.spec_allocated() == allocated
                })
            },
    {
        let mut b = match self.current.take() {
            Some(b) => b,
            None => return Err(BudgetingErrors::BudgetNotFound),
        };
        let r = b.add_category(name.to_owned(), allocated);
        self.current = Some(b);
        assert(self.spec_others() == old(self).spec_others());
        r
    }

    /// Copies of all categories of the current budget, in order of creation.
    pub fn all_categories(&self) -> (r: Vec<Category>)
        ensures
            r@ == self.current_categories(),
    {
        match &self.current {
            Some(b) => b.categories(0),
            None => Vec::new(),
        }
    }

    /// Copies of the categories of the current budget that transactions can be
    /// posted to: all but the unallocated pool, in order of creation.
    pub fn categories(&self) -> (r: Vec<Category>)
        requires
            self.wf(),
        ensures
            self.spec_current() matches Some(b) ==> r@ == b.spec_categories().skip(1),
            self.spec_current() is None ==> r@.len() == 0,
    {
        match &self.current {
            Some(b) => b.categories(1),
            None => Vec::new(),
        }
    }

    /// The snapshot of the category with id `id` of the current budget.
    pub fn get_category_model_by_id(&self, id: u64) -> (r: Result<CategoryModel, BudgetingErrors>)
        requires
            self.wf(),
        ensures
            r is Err <==> id >= self.current_categories().len(),
            r is Err ==> r == Err::<CategoryModel, BudgetingErrors>(BudgetingErrors::CategoryNotFound),
            r matches Ok(m) ==> self.spec_current() matches Some(b) && m.spec_category()
                == b.spec_categories()[id as int] && m.spec_balance() == b.balance_of(id as int)
                && Budget::model_of(b, id as int, m),
    {
        match &self.current {
            Some(b) => {
                if id < b.category_count() as u64 {
                    Ok(b.category_model(id as usize))
                } else {
                    Err(BudgetingErrors::CategoryNotFound)
                }
            },
            None => Err(BudgetingErrors::CategoryNotFound),
        }
    }

    /// The snapshot of `category` as it stands in the current budget.
    pub fn category_model(&self, category: &Category) -> (r: Result<CategoryModel, BudgetingErrors>)
        requires
            self.wf(),
        ensures
            r is Err <==> category.spec_id() >= self.current_categories().len(),
            r is Err ==> r == Err::<CategoryModel, BudgetingErrors>(BudgetingErrors::CategoryNotFound),
            r matches Ok(m) ==> self.spec_current() matches Some(b) && Budget::model_of(
                b,
                category.spec_id() as int,
                m,
            ),
    {
        self.get_category_model_by_id(category.id())
    }

    /// `transaction` together with the category of the current budget it names.
    pub fn transaction_model(&self, transaction: Transaction) -> (r: Result<TransactionModel, BudgetingErrors>)
        requires
            self.wf(),
        ensures
            r is Err <==> transaction.spec_category_id() >= self.current_categories().len(),
            r is Err ==> r == Err::<TransactionModel, BudgetingErrors>(BudgetingErrors::CategoryNotFound),
            r matches Ok(m) ==> m.spec_transaction() == transaction && m.spec_category()
                == self.current_categories()[transaction.spec_category_id() as int],
    {
        match &self.current {
            Some(b) => {
                let cid = transaction.category_id();
                if cid < b.category_count() as u64 {
                    let c = b.category(cid as usize);
                    Ok(TransactionModel::assemble(transaction, c))
                } else {
                    Err(BudgetingErrors::CategoryNotFound)
                }
            },
            None => Err(BudgetingErrors::CategoryNotFound),
        }
    }

    /// Tops up the category of the current budget called
    /// `category_name` to its allocated amount out of the unallocated pool.
    pub fn fund_from_unallocated(&mut self, category_name: &str) -> (r: Result<(), BudgetingErrors>)
        requires
            old(self).wf(),
        ensures
            final(self).wf(),
            final(self).spec_others() == old(self).spec_others(),
            old(self).spec_current() is None ==> r == Err::<(), BudgetingErrors>(
                BudgetingErrors::CategoryNotFound,
            ) && *final(self) == *old(self),
            old(self).spec_current() is Some ==> final(self).spec_current() is Some,
            old(self).spec_current() matches Some(b) ==> Budget::funded(
                b,
                final(self).spec_current().unwrap(),
                category_name@,
                r,
            ),
    {
        let mut b = match self.current.take() {
            Some(b) => b,
            None => return Err(BudgetingErrors::CategoryNotFound),
        };
        let r = b.fund_from_unallocated(&category_name.to_owned());
        self.current = Some(b);
        assert(self.spec_others() == old(self).spec_others());
        r
    }

    /// Sum of the balances of all categories of the current budget.
    pub fn actual_total_balance(&self) -> (r: i128)
        requires
            self.wf(),
        ensures
            r == total_balance(self.current_categories(), self.current_transactions(), self.current_transfers()),
    {
        match &self.current {
            Some(b) => b.actual_total_balance(),
            None => 0,
        }
    }

    /// The balance of the default category of the current budget; zero without one.
    pub fn uncategorized_balance(&self) -> (r: i64)
        requires
            self.wf(),
        ensures
            self.spec_current() matches Some(b) ==> r == b.balance_of(DEFAULT_ID as int),
            self.spec_current() is None ==> r == 0,
    {
        match &self.current {
            Some(b) => b.balance(DEFAULT_ID as usize),
            None => 0,
        }
    }

    /// Sum of the allocated amounts of all categories of the current budget.
    pub fn total_allocated(&self) -> (r: i64)
        requires
            self.wf(),
        ensures
            r == allocated_total(self.current_categories()),
    {
        match &self.current {
            Some(b) => b.total_allocated(),
            None => 0,
        }
    }

    /// Sum of all positive amounts posted in the current budget.
    pub fn total_income(&self) -> (r: i64)
        requires
            self.wf(),
        ensures
            r == total_income_of(self.current_transactions()),
    {
        match &self.current {
            Some(b) => b.income_and_expense().0,
            None => 0,
        }
    }

    /// Sum of all negative amounts posted in the current budget; never positive.
    pub fn total_expense(&self) -> (r: i64)
        requires
            self.wf(),
        ensures
            r == total_expense_of(self.current_transactions()),
    {
        match &self.current {
            Some(b) => b.income_and_expense().1,
            None => 0,
        }
    }

    /// Starts a transaction for the category of the current budget called
    /// `category_name`, or for the default category when there is none so called.
    pub fn new_transaction_to_category(&self, category_name: &str) -> (r: TransactionBuilder)
        requires
            self.wf(),
        ensures
            self.spec_current() is None ==> r.spec_category_id() is None,
            self.spec_current() matches Some(b) ==> r.spec_category_id() matches Some(c) && if has_named(
                b.spec_categories(),
                category_name@,
            ) {
                c < b.spec_categories().len() && b.spec_categories()[c as int].spec_name() == category_name@
            } else {
                c == DEFAULT_ID
            },
            r.spec_amount() is None,
            !r.spec_amount_set_twice(),
            r.spec_payee() == Seq::<char>::empty(),
            r.spec_note() == Seq::<char>::empty(),
            r.spec_date_created() is None,
    {
        let category_id = match &self.current {
            None => None,
            Some(b) => match b.category_index(&category_name.to_owned()) {
                Some(k) => Some(k as u64),
                None => Some(DEFAULT_ID),
            },
        };
        TransactionBuilder::start(category_id)
    }
}

/// Collects the fields of a transaction; `done` checks them and posts it.
#[derive(Debug)]
pub struct TransactionBuilder {
    category_id: Option<u64>,
    amount: Option<(bool, i64)>,
    amount_set_twice: bool,
    payee: String,
    note: String,
    date_created: Option<i64>,
}

impl TransactionBuilder {
    pub closed spec fn spec_category_id(&self) -> Option<u64> {
        self.category_id
    }

    /// Whether the amount is income, and its magnitude, as last set.
    pub closed spec fn spec_amount(&self) -> Option<(bool, i64)> {
        self.amount
    }

    pub closed spec fn spec_amount_set_twice(&self) -> bool {
        self.amount_set_twice
    }

    pub closed spec fn spec_payee(&self) -> Seq<char> {
        self.payee@
    }

    pub closed spec fn spec_note(&self) -> Seq<char> {
        self.note@
    }

    pub closed spec fn spec_date_created(&self) -> Option<i64> {
        self.date_created
    }

    /// The signed amount the transaction will carry, if the amount was set
    /// exactly once and to a magnitude that is not negative.
    pub open spec fn signed_amount(&self) -> Option<i64> {
        match self.spec_amount() {
            Some((is_income, m)) => if self.spec_amount_set_twice() || m < 0 {
                None
            } else if is_income {
                Some(m)
            } else {
                Some((-m) as i64)
            },
            None => None,
        }
    }

    fn start(category_id: Option<u64>) -> (r: TransactionBuilder)
        ensures
            r.spec_category_id() == category_id,
            r.spec_amount() is None,
            !r.spec_amount_set_twice(),
            r.spec_payee() == Seq::<char>::empty(),
            r.spec_note() == Seq::<char>::empty(),
            r.spec_date_created() is None,
    {
        TransactionBuilder {
            category_id,
            amount: None,
            amount_set_twice: false,
            payee: String::new(),
            note: String::new(),
            date_created: None,
        }
    }

    /// Makes the transaction income of `amount` cents.
    pub fn income(self, amount: i64) -> (r: TransactionBuilder)
        ensures
            r.spec_amount() == Some((true, amount)),
            r.spec_amount_set_twice() == (self.spec_amount_set_twice() || self.spec_amount() is Some),
            r.spec_category_id() == self.spec_category_id(),
            r.spec_payee() == self.spec_payee(),
            r.spec_note() == self.spec_note(),
            r.spec_date_created() == self.spec_date_created(),
    {
        let twice = self.amount_set_twice || self.amount.is_some();
        TransactionBuilder { amount: Some((true, amount)), amount_set_twice: twice, ..self }
    }

    /// Makes the transaction an expense of `amount` cents.
    pub fn expense(self, amount: i64) -> (r: TransactionBuilder)
        ensures
            r.spec_amount() == Some((false, amount)),
            r.spec_amount_set_twice() == (self.spec_amount_set_twice() || self.spec_amount() is Some),
            r.spec_category_id() == self.spec_category_id(),
            r.spec_payee() == self.spec_payee(),
            r.spec_note() == self.spec_note(),
            r.spec_date_created() == self.spec_date_created(),
    {
        let twice = self.amount_set_twice || self.amount.is_some();
        TransactionBuilder { amount: Some((false, amount)), amount_set_twice: twice, ..self }
    }

    pub fn payee(self, payee: &str) -> (r: TransactionBuilder)
        ensures
            r.spec_payee() == payee@,
            r.spec_amount() == self.spec_amount(),
            r.spec_amount_set_twice() == self.spec_amount_set_twice(),
            r.spec_category_id() == self.spec_category_id(),
            r.spec_note() == self.spec_note(),
            r.spec_date_created() == self.spec_date_created(),
    {
        TransactionBuilder { payee: payee.to_owned(), ..self }
    }

    pub fn note(self, note: &str) -> (r: TransactionBuilder)
        ensures
            r.spec_note() == note@,
            r.spec_amount() == self.spec_amount(),
            r.spec_amount_set_twice() == self.spec_amount_set_twice(),
            r.spec_category_id() == self.spec_category_id(),
            r.spec_payee() == self.spec_payee(),
            r.spec_date_created() == self.spec_date_created(),
    {
        TransactionBuilder { note: note.to_owned(), ..self }
    }

    /// Dates the transaction at `date` seconds since the Unix epoch instead of now.
    pub fn date_created(self, date: i64) -> (r: TransactionBuilder)
        ensures
            r.spec_date_created() == Some(date),
            r.spec_amount() == self.spec_amount(),
            r.spec_amount_set_twice() == self.spec_amount_set_twice(),
            r.spec_category_id() == self.spec_category_id(),
            r.spec_payee() == self.spec_payee(),
            r.spec_note() == self.spec_note(),
    {
        TransactionBuilder { date_created: Some(date), ..self }
    }

    /// Whether `done` on `budgeting` finds the amount and the category valid.
    pub open spec fn postable(&self, budgeting: &Budgeting) -> bool {
        &&& self.signed_amount() is Some
        &&& self.spec_category_id() matches Some(cid)
        &&& cid < budgeting.current_categories().len()
        &&& budgeting.spec_current() is Some
    }

    /// Posts the transaction to the current budget of `budgeting`. Without a
    /// date of its own it is dated `now`, in seconds since the Unix epoch.
    pub fn done(self, budgeting: &mut Budgeting, now: i64) -> (r: Result<Transaction, BudgetingErrors>)
        requires
            old(budgeting).wf(),
        ensures
            final(budgeting).wf(),
            !self.postable(old(budgeting)) ==> r == Err::<Transaction, BudgetingErrors>(
                BudgetingErrors::InvalidTransaction,
            ),
            self.postable(old(budgeting)) && !fits(
                old(budgeting).spec_current().unwrap().spec_volume(),
                self.signed_amount().unwrap() as int,
            ) ==> r == Err::<Transaction, BudgetingErrors>(BudgetingErrors::LimitExceeded),
            self.postable(old(budgeting)) && fits(
                old(budgeting).spec_current().unwrap().spec_volume(),
                self.signed_amount().unwrap() as int,
            ) ==> r is Ok,
            r is Err ==> *final(budgeting) == *old(budgeting),
            r matches Ok(t) ==> {
                let before = old(budgeting).spec_current().unwrap();
                let after = final(budgeting).spec_current().unwrap();
                &&& final(budgeting).spec_current() is Some
                &&& final(budgeting).spec_others() == old(budgeting).spec_others()
                &&& after.spec_name() == before.spec_name()
                &&& after.spec_categories() == before.spec_categories()
                &&& after.spec_transfers() == before.spec_transfers()
                &&& after.spec_transactions() == before.spec_transactions().push(t)
                &&& t.spec_id() == before.spec_transactions().len()
                &&& Some(t.spec_category_id()) == self.spec_category_id()
                &&& Some(t.spec_amount()) == self.signed_amount()
                &&& t.spec_payee() == self.spec_payee()
                &&& t.spec_note() == self.spec_note()
                &&& (self.spec_date_created() matches Some(d) ==> t.spec_date_created() == d)
                &&& (self.spec_date_created() is None ==> t.spec_date_created() == now)
                &&& after.spec_volume() == before.spec_volume() + if t.spec_amount() < 0 {
                    -t.spec_amount()
                } else {
                    t.spec_amount() as int
                }
            },
    {
        let amount = match self.amount {
            Some((is_income, m)) => {
                if self.amount_set_twice || m < 0 {
                    return Err(BudgetingErrors::InvalidTransaction);
                }
                if is_income {
                    m
                } else {
                    -m
                }
            },
            None => return Err(BudgetingErrors::InvalidTransaction),
        };
        let cid = match self.category_id {
            Some(c) => c,
            None => return Err(BudgetingErrors::InvalidTransaction),
        };
        let valid = match &budgeting.current {
            Some(b) => cid < b.category_count() as u64,
            None => false,
        };
        if !valid {
            return Err(BudgetingErrors::InvalidTransaction);
        }
        let date = match self.date_created {
            Some(d) => d,
            None => now,
        };
        let mut b = budgeting.current.take().unwrap();
        let r = b.post(cid, amount, self.payee, self.note, date);
        budgeting.current = Some(b);
        assert(budgeting.spec_others() == old(budgeting).spec_others());
        r
    }
}

} // verus!
