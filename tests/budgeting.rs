use budget_manager::budgeting::Budgeting;
use budget_manager::errors::BudgetingErrors;
use budget_manager::ledger::{DEFAULT_CATEGORY, DEFAULT_ID, UNALLOCATED_CATEGORY, UNALLOCATED_ID};
use budget_manager::money::{split_cents, split_total_cents};
use budget_manager::transaction::Transaction;

const NOW: i64 = 1_700_000_000;

fn budget(initial: i64) -> Budgeting {
    let mut b = Budgeting::new();
    b.new_budget("main", initial).unwrap();
    b
}

fn balance(b: &Budgeting, id: u64) -> i64 {
    b.get_category_model_by_id(id).unwrap().balance()
}

fn spend(b: &mut Budgeting, category: &str, cents: i64) {
    b.new_transaction_to_category(category).expense(cents).done(b, NOW).unwrap();
}

#[test]
fn balance_is_the_sum_of_its_parts() {
    let mut b = budget(10_000);
    let g = b.new_category("Groceries", 5_000).unwrap();
    b.new_transaction_to_category("Groceries").income(700).done(&mut b, NOW).unwrap();
    spend(&mut b, "Groceries", 6_000);
    b.fund_from_unallocated("Groceries").unwrap();
    for id in 0..3u64 {
        let m = b.get_category_model_by_id(id).unwrap();
        assert_eq!(
            m.balance(),
            m.allocated() + m.income() + m.expense() + m.transfer_in() - m.transfer_out()
        );
    }
    let m = b.get_category_model_by_id(g.id()).unwrap();
    assert_eq!(m.income(), 700);
    assert_eq!(m.expense(), -6_000);
    assert_eq!(m.total_expense(), 6_000);
    assert_eq!(m.transfer_in(), 5_300);
    assert_eq!(m.balance(), 5_000);
    let pool = b.get_category_model_by_id(UNALLOCATED_ID).unwrap();
    assert_eq!(pool.transfer_out(), 5_300);
    assert_eq!(pool.balance(), 4_700);
}

#[test]
fn funding_a_funded_category_is_refused() {
    let mut b = budget(10_000);
    b.new_category("Rent", 3_000).unwrap();
    let before: Vec<i64> = (0..3u64).map(|i| balance(&b, i)).collect();
    assert_eq!(b.fund_from_unallocated("Rent"), Err(BudgetingErrors::AlreadyFunded));
    let after: Vec<i64> = (0..3u64).map(|i| balance(&b, i)).collect();
    assert_eq!(before, after);
}

#[test]
fn funding_beyond_the_pool_is_refused() {
    let mut b = budget(1_000);
    b.new_category("Rent", 3_000).unwrap();
    spend(&mut b, "Rent", 3_000);
    let before: Vec<i64> = (0..3u64).map(|i| balance(&b, i)).collect();
    assert_eq!(b.fund_from_unallocated("Rent"), Err(BudgetingErrors::OverFundingError));
    let after: Vec<i64> = (0..3u64).map(|i| balance(&b, i)).collect();
    assert_eq!(before, after);
}

#[test]
fn funding_moves_the_shortfall() {
    let mut b = budget(10_000);
    let rent = b.new_category("Rent", 3_000).unwrap();
    spend(&mut b, "Rent", 1_200);
    let total = b.actual_total_balance();
    let tin = b.get_category_model_by_id(rent.id()).unwrap().transfer_in();
    let pool = balance(&b, UNALLOCATED_ID);
    let before = balance(&b, rent.id());
    assert_eq!(b.fund_from_unallocated("Rent"), Ok(()));
    let m = b.get_category_model_by_id(rent.id()).unwrap();
    assert_eq!(m.transfer_in(), tin + (3_000 - before));
    assert_eq!(m.balance(), 3_000);
    assert_eq!(balance(&b, UNALLOCATED_ID), pool - 1_200);
    assert_eq!(b.actual_total_balance(), total);
}

#[test]
fn done_without_an_amount_is_invalid() {
    let mut b = budget(0);
    let r = b.new_transaction_to_category(DEFAULT_CATEGORY).payee("Bob").done(&mut b, NOW);
    assert_eq!(r.unwrap_err(), BudgetingErrors::InvalidTransaction);
    assert_eq!(b.get_category_model_by_id(DEFAULT_ID).unwrap().transactions().len(), 0);
}

#[test]
fn income_and_expense_together_are_invalid() {
    let mut b = budget(0);
    let r = b.new_transaction_to_category(DEFAULT_CATEGORY).income(100).expense(100).done(&mut b, NOW);
    assert_eq!(r.unwrap_err(), BudgetingErrors::InvalidTransaction);
    let r = b.new_transaction_to_category(DEFAULT_CATEGORY).income(100).income(200).done(&mut b, NOW);
    assert_eq!(r.unwrap_err(), BudgetingErrors::InvalidTransaction);
    assert_eq!(b.total_income(), 0);
}

#[test]
fn negative_magnitude_is_invalid() {
    let mut b = budget(0);
    let r = b.new_transaction_to_category(DEFAULT_CATEGORY).expense(-5).done(&mut b, NOW);
    assert_eq!(r.unwrap_err(), BudgetingErrors::InvalidTransaction);
}

#[test]
fn builder_round_trip() {
    let mut b = budget(0);
    let t = b
        .new_transaction_to_category(DEFAULT_CATEGORY)
        .payee("Alice")
        .note("lunch")
        .expense(1_250)
        .done(&mut b, NOW)
        .unwrap();
    assert_eq!(t.get_amount(), -1_250);
    assert_eq!(t.payee(), "Alice");
    assert_eq!(t.get_note(), "lunch");
    assert_eq!(t.category_id(), DEFAULT_ID);
    let listed = b.get_category_model_by_id(DEFAULT_ID).unwrap().transactions();
    assert_eq!(listed.iter().filter(|x| x.id() == t.id()).count(), 1);
    assert_eq!(listed[0].get_amount(), -1_250);
}

#[test]
fn groceries_scenario() {
    let mut b = budget(0);
    b.new_category("Groceries", 5_000).unwrap();
    spend(&mut b, "Groceries", 5_000);
    assert_eq!(b.fund_from_unallocated("Groceries"), Err(BudgetingErrors::OverFundingError));

    let mut b = budget(10_000);
    let g = b.new_category("Groceries", 5_000).unwrap();
    spend(&mut b, "Groceries", 5_000);
    assert_eq!(b.fund_from_unallocated("Groceries"), Ok(()));
    assert_eq!(balance(&b, g.id()), 5_000);
    assert_eq!(balance(&b, UNALLOCATED_ID), 5_000);
}

#[test]
fn two_incomes_to_uncategorized() {
    let mut b = budget(0);
    b.new_transaction_to_category(DEFAULT_CATEGORY).income(2_000).done(&mut b, NOW).unwrap();
    b.new_transaction_to_category(DEFAULT_CATEGORY).income(3_000).done(&mut b, NOW).unwrap();
    assert_eq!(b.uncategorized_balance(), 5_000);
    assert_eq!(b.total_income(), 5_000);
    assert_eq!(b.total_expense(), 0);
}

#[test]
fn aggregates_over_the_budget() {
    let mut b = budget(10_000);
    b.new_category("Rent", 3_000).unwrap();
    b.new_transaction_to_category("Rent").income(500).done(&mut b, NOW).unwrap();
    spend(&mut b, "Rent", 800);
    spend(&mut b, DEFAULT_CATEGORY, 200);
    assert_eq!(b.total_income(), 500);
    assert_eq!(b.total_expense(), -1_000);
    assert_eq!(b.total_allocated(), 13_000);
    assert_eq!(b.uncategorized_balance(), -200);
    assert_eq!(b.actual_total_balance(), 12_500);
}

#[test]
fn unknown_category_name_falls_back_to_default() {
    let mut b = budget(0);
    let t = b.new_transaction_to_category("Nowhere").income(10).done(&mut b, NOW).unwrap();
    assert_eq!(t.category_id(), DEFAULT_ID);
    assert_eq!(b.uncategorized_balance(), 10);
}

#[test]
fn date_is_kept_or_taken_from_the_clock() {
    let mut b = budget(0);
    let t = b.new_transaction_to_category(DEFAULT_CATEGORY).income(1).date_created(86_400).done(&mut b, NOW).unwrap();
    assert_eq!(t.date_created(), 86_400);
    let t = b.new_transaction_to_category(DEFAULT_CATEGORY).income(1).done(&mut b, NOW).unwrap();
    assert_eq!(t.date_created(), NOW);
    assert_eq!(t.id(), 1);
}

#[test]
fn budgets_are_created_and_switched() {
    let mut b = Budgeting::new();
    assert_eq!(b.set_current_budget("main"), Err(BudgetingErrors::BudgetNotFound));
    assert_eq!(b.new_budget("main", 100), Ok(()));
    assert_eq!(b.new_budget("main", 5), Err(BudgetingErrors::BudgetAlreadyExists));
    b.new_category("Rent", 50).unwrap();
    assert_eq!(b.new_budget("side", 7), Ok(()));
    assert_eq!(b.all_categories().len(), 2);
    assert_eq!(b.total_allocated(), 7);
    assert_eq!(b.set_current_budget("main"), Ok(()));
    assert_eq!(b.total_allocated(), 150);
    assert_eq!(b.all_categories()[2].name(), "Rent");
    assert_eq!(b.set_current_budget("side"), Ok(()));
    assert_eq!(b.total_allocated(), 7);
    assert_eq!(b.set_current_budget("gone"), Err(BudgetingErrors::BudgetNotFound));
}

#[test]
fn categories_are_listed_in_order() {
    let mut b = budget(0);
    b.new_category("Rent", 1).unwrap();
    b.new_category("Food", 2).unwrap();
    let all: Vec<String> = b.all_categories().iter().map(|c| c.name()).collect();
    assert_eq!(all, vec![UNALLOCATED_CATEGORY, DEFAULT_CATEGORY, "Rent", "Food"]);
    let postable: Vec<String> = b.categories().iter().map(|c| c.name()).collect();
    assert_eq!(postable, vec![DEFAULT_CATEGORY, "Rent", "Food"]);
    assert_eq!(b.all_categories()[3].id(), 3);
}

#[test]
fn category_errors() {
    let mut b = Budgeting::new();
    assert_eq!(b.new_category("Rent", 1).unwrap_err(), BudgetingErrors::BudgetNotFound);
    assert_eq!(b.fund_from_unallocated("Rent"), Err(BudgetingErrors::CategoryNotFound));
    assert_eq!(b.get_category_model_by_id(0).unwrap_err(), BudgetingErrors::CategoryNotFound);
    b.new_budget("main", 0).unwrap();
    b.new_category("Rent", 1).unwrap();
    assert_eq!(b.new_category("Rent", 2).unwrap_err(), BudgetingErrors::CategoryAlreadyExists);
    assert_eq!(b.fund_from_unallocated("Food"), Err(BudgetingErrors::CategoryNotFound));
    assert_eq!(b.get_category_model_by_id(3).unwrap_err(), BudgetingErrors::CategoryNotFound);
}

#[test]
fn limits_are_refused() {
    let mut b = Budgeting::new();
    assert_eq!(b.new_budget("main", i64::MIN), Err(BudgetingErrors::LimitExceeded));
    b.new_budget("main", i64::MAX - 10).unwrap();
    assert_eq!(b.new_category("Rent", 11).unwrap_err(), BudgetingErrors::LimitExceeded);
    let r = b.new_transaction_to_category(DEFAULT_CATEGORY).income(11).done(&mut b, NOW);
    assert_eq!(r.unwrap_err(), BudgetingErrors::LimitExceeded);
    let r = b.new_transaction_to_category(DEFAULT_CATEGORY).income(10).done(&mut b, NOW);
    assert!(r.is_ok());
}

#[test]
fn no_budget_no_transaction() {
    let mut b = Budgeting::new();
    let r = b.new_transaction_to_category(DEFAULT_CATEGORY).income(1).done(&mut b, NOW);
    assert_eq!(r.unwrap_err(), BudgetingErrors::InvalidTransaction);
    assert_eq!(b.total_income(), 0);
    assert_eq!(b.actual_total_balance(), 0);
}

#[test]
fn models_name_their_records() {
    let mut b = budget(0);
    let c = b.new_category("Rent", 40).unwrap();
    let t = b.new_transaction_to_category("Rent").expense(15).done(&mut b, NOW).unwrap();
    let tm = b.transaction_model(t).unwrap();
    assert_eq!(tm.category_name(), "Rent");
    assert_eq!(tm.transaction().get_amount(), -15);
    let cm = b.category_model(&c).unwrap();
    assert_eq!(cm.category().name(), "Rent");
    assert_eq!(cm.balance(), 25);
    let stray = Transaction::new("x", 1);
    assert!(b.transaction_model(stray).is_ok());
}

#[test]
fn transaction_fields_can_be_replaced() {
    let mut t = Transaction::new("coffee", -300);
    assert_eq!(t.get_amount(), -300);
    assert_eq!(t.get_note(), "coffee");
    t.set_amount(450);
    t.set_note("refund".to_string());
    assert_eq!(t.get_amount(), 450);
    assert_eq!(t.get_note(), "refund");
    assert_eq!(t.payee(), "");
}

#[test]
fn cents_are_split_for_display() {
    assert_eq!(split_cents(1_250), (false, 12, 50));
    assert_eq!(split_cents(-305), (true, 3, 5));
    assert_eq!(split_cents(0), (false, 0, 0));
    assert_eq!(split_cents(i64::MIN), (true, 92_233_720_368_547_758, 8));
}

#[test]
fn category_models_compare_by_id() {
    let mut b = budget(0);
    let before = b.get_category_model_by_id(DEFAULT_ID).unwrap();
    b.new_transaction_to_category(DEFAULT_CATEGORY).income(10).done(&mut b, NOW).unwrap();
    let after = b.get_category_model_by_id(DEFAULT_ID).unwrap();
    assert!(before == after);
    assert_ne!(before.balance(), after.balance());
    let pool = b.get_category_model_by_id(UNALLOCATED_ID).unwrap();
    assert!(pool != after);
}

#[test]
fn the_pool_is_never_funded_from_itself() {
    let mut b = budget(1_000);
    spend(&mut b, UNALLOCATED_CATEGORY, 400);
    assert_eq!(b.fund_from_unallocated(UNALLOCATED_CATEGORY), Err(BudgetingErrors::UnallocatedNotFundable));
    assert_eq!(balance(&b, UNALLOCATED_ID), 600);
    assert_eq!(b.get_category_model_by_id(UNALLOCATED_ID).unwrap().transfer_out(), 0);
    let mut b = budget(1_000);
    spend(&mut b, UNALLOCATED_CATEGORY, 700);
    assert_eq!(b.fund_from_unallocated(UNALLOCATED_CATEGORY), Err(BudgetingErrors::OverFundingError));
}

#[test]
fn startup_twice_changes_nothing() {
    let mut b = Budgeting::new();
    if b.set_current_budget("main").is_err() {
        b.new_budget("main", 0).unwrap();
    }
    b.new_category("Rent", 10).unwrap();
    b.new_budget("side", 5).unwrap();
    b.set_current_budget("main").unwrap();
    assert_eq!(b.set_current_budget("main"), Ok(()));
    assert_eq!(b.all_categories().len(), 3);
    assert_eq!(b.set_current_budget("side"), Ok(()));
    assert_eq!(b.total_allocated(), 5);
    assert_eq!(b.new_budget("main", 0), Err(BudgetingErrors::BudgetAlreadyExists));
}

#[test]
fn transactions_compare_by_fields() {
    let a = Transaction::new("tea", 5);
    let mut c = Transaction::new("tea", 5);
    assert!(a == c);
    c.set_amount(6);
    assert!(a != c);
    let d = Transaction::default();
    assert_eq!(d.get_amount(), 0);
    assert_eq!(d.get_note(), "");
}

#[test]
fn totals_are_split_for_display() {
    assert_eq!(split_total_cents(-12_345), (true, 123, 45));
    assert_eq!(split_total_cents(i128::MIN), (true, 1_701_411_834_604_692_317_316_873_037_158_841_057, 28));
}

#[test]
fn only_short_categories_other_than_the_default_can_be_funded() {
    let mut b = budget(1_000);
    b.new_category("Rent", 300).unwrap();
    assert!(!b.get_category_model_by_id(2).unwrap().can_be_funded());
    spend(&mut b, "Rent", 100);
    assert!(b.get_category_model_by_id(2).unwrap().can_be_funded());
    spend(&mut b, DEFAULT_CATEGORY, 100);
    let d = b.get_category_model_by_id(DEFAULT_ID).unwrap();
    assert!(d.balance() < d.allocated());
    assert!(!d.can_be_funded());
    b.fund_from_unallocated("Rent").unwrap();
    assert!(!b.get_category_model_by_id(2).unwrap().can_be_funded());
}
