use vstd::prelude::*;

verus! {

/// One movement of money: positive amounts are income, negative ones expense.
#[derive(Debug, Clone)]
pub struct Transaction {
    id: u64,
    category_id: u64,
    amount: i64,
    payee: String,
    note: String,
    date_created: i64,
}

impl Transaction {
    pub closed spec fn spec_id(&self) -> u64 {
        self.id
    }

    pub closed spec fn spec_category_id(&self) -> u64 {
        self.category_id
    }

    pub closed spec fn spec_amount(&self) -> i64 {
        self.amount
    }

    pub closed spec fn spec_payee(&self) -> Seq<char> {
        self.payee@
    }

    pub closed spec fn spec_note(&self) -> Seq<char> {
        self.note@
    }

    pub closed spec fn spec_date_created(&self) -> i64 {
        self.date_created
    }

    /// A transaction not yet posted anywhere: no payee, id, category or date.
    pub fn new(note: &str, amount: i64) -> (r: Transaction)
        ensures
            r.spec_note() == note@,
            r.spec_amount() == amount,
            r.spec_payee() == Seq::<char>::empty(),
            r.spec_id() == 0,
            r.spec_category_id() == 0,
            r.spec_date_created() == 0,
    {
        Transaction {
            id: 0,
            category_id: 0,
            amount,
            payee: String::new(),
            note: note.to_owned(),
            date_created: 0,
        }
    }

    /// A transaction with every field given.
    pub(crate) fn record(
        id: u64,
        category_id: u64,
        amount: i64,
        payee: String,
        note: String,
        date_created: i64,
    ) -> (r: Transaction)
        ensures
            r.spec_id() == id,
            r.spec_category_id() == category_id,
            r.spec_amount() == amount,
            r.spec_payee() == payee@,
            r.spec_note() == note@,
            r.spec_date_created() == date_created,
    {
        Transaction { id, category_id, amount, payee, note, date_created }
    }

    /// A copy with every field equal.
    pub fn duplicate(&self) -> (r: Transaction)
        ensures
            r == *self,
    {
        Transaction {
            id: self.id,
            category_id: self.category_id,
            amount: self.amount,
            payee: self.payee.clone(),
            note: self.note.clone(),
            date_created: self.date_created,
        }
    }

    pub fn id(&self) -> (r: u64)
        ensures
            r == self.spec_id(),
    {
        self.id
    }

    pub fn category_id(&self) -> (r: u64)
        ensures
            r == self.spec_category_id(),
    {
        self.category_id
    }

    pub fn get_amount(&self) -> (r: i64)
        ensures
            r == self.spec_amount(),
    {
        self.amount
    }

    pub fn get_note(&self) -> (r: String)
        ensures
            r@ == self.spec_note(),
    {
        self.note.clone()
    }

    pub fn payee(&self) -> (r: String)
        ensures
            r@ == self.spec_payee(),
    {
        self.payee.clone()
    }

    pub fn date_created(&self) -> (r: i64)
        ensures
            r == self.spec_date_created(),
    {
        self.date_created
    }

    pub fn set_amount(&mut self, amount: i64)
        ensures
            final(self).spec_amount() == amount,
            final(self).spec_id() == old(self).spec_id(),
            final(self).spec_category_id() == old(self).spec_category_id(),
            final(self).spec_payee() == old(self).spec_payee(),
            final(self).spec_note() == old(self).spec_note(),
            final(self).spec_date_created() == old(self).spec_date_created(),
    {
        self.amount = amount;
    }

    pub fn set_note(&mut self, note: String)
        ensures
            final(self).spec_note() == note@,
            final(self).spec_amount() == old(self).spec_amount(),
            final(self).spec_id() == old(self).spec_id(),
            final(self).spec_category_id() == old(self).spec_category_id(),
            final(self).spec_payee() == old(self).spec_payee(),
            final(self).spec_date_created() == old(self).spec_date_created(),
    {
        self.note = note;
    }
}

/// Two transactions are equal when every field is.
impl PartialEq for Transaction {
    fn eq(&self, other: &Transaction) -> (r: bool)
        ensures
            r == (self.spec_id() == other.spec_id() && self.spec_category_id() == other.spec_category_id()
                && self.spec_amount() == other.spec_amount() && self.spec_payee() == other.spec_payee()
                && self.spec_note() == other.spec_note() && self.spec_date_created()
                == other.spec_date_created()),
    {
        self.id == other.id && self.category_id == other.category_id && self.amount == other.amount
            && self.payee == other.payee && self.note == other.note && self.date_created
            == other.date_created
    }
}

impl vstd::std_specs::cmp::PartialEqSpecImpl for Transaction {
    open spec fn obeys_eq_spec() -> bool {
        true
    }

    open spec fn eq_spec(&self, other: &Transaction) -> bool {
        self.spec_id() == other.spec_id() && self.spec_category_id() == other.spec_category_id()
            && self.spec_amount() == other.spec_amount() && self.spec_payee() == other.spec_payee()
            && self.spec_note() == other.spec_note() && self.spec_date_created() == other.spec_date_created()
    }
}

impl Default for Transaction {
    /// An empty transaction: zero amount, no note, payee, id, category or date.
    fn default() -> (r: Transaction)
        ensures
            r.spec_id() == 0,
            r.spec_category_id() == 0,
            r.spec_amount() == 0,
            r.spec_payee() == Seq::<char>::empty(),
            r.spec_note() == Seq::<char>::empty(),
            r.spec_date_created() == 0,
    {
        Transaction {
            id: 0,
            category_id: 0,
            amount: 0,
            payee: String::new(),
            note: String::new(),
            date_created: 0,
        }
    }
}

} // verus!
