use vstd::prelude::*;

verus! {

/// The ways a ledger operation can be refused. None of them leaves a change behind.
#[derive(Debug, Clone, Copy, PartialEq, Eq, Structural)]
pub enum BudgetingErrors {
    /// No budget of that name exists.
    BudgetNotFound,
    /// A budget of that name exists already.
    BudgetAlreadyExists,
    /// No category of that name or id exists in the current budget.
    CategoryNotFound,
    /// A category of that name exists already in the current budget.
    CategoryAlreadyExists,
    /// The category holds at least its allocated amount.
    AlreadyFunded,
    /// The unallocated pool cannot cover the shortfall.
    OverFundingError,
    /// The unallocated pool was named as the category to fund: it is the source
    /// of every funding, never its target.
    UnallocatedNotFundable,
    /// The amount was set neither or twice, is negative, or the category is unresolved.
    InvalidTransaction,
    /// The budget cannot record the movement: its volume would pass `i64::MAX` cents.
    LimitExceeded,
}

} // verus!
