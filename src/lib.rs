//! An envelope-budgeting ledger: budgets made of categories, transactions
//! posted to them, and transfers out of the unallocated pool. Money is held
//! as a whole number of cents.

pub mod budgeting;
pub mod category;
pub mod errors;
pub mod laws;
pub mod ledger;
pub mod model;
pub mod money;
pub mod sums;
pub mod transaction;
