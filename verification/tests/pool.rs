use invoice_lending::pool::{Error, LendingPool, LoanStatus};

const ADMIN: u64 = 1;
const TOKEN: u64 = 2;
const BORROWER: u64 = 7;
const NOW: u64 = 1_000_000;

fn initialized_pool() -> LendingPool {
    let mut pool = LendingPool::new();
    assert_eq!(pool.init(ADMIN, TOKEN), Ok(()));
    pool
}

#[test]
fn test_initialization() {
    let mut pool = LendingPool::new();
    pool.init(ADMIN, TOKEN).unwrap();
    assert!(!pool.is_paused());
}

#[test]
fn test_double_initialization() {
    let mut pool = LendingPool::new();
    pool.init(ADMIN, TOKEN).unwrap();
    let r = pool.init(ADMIN + 10, TOKEN + 10);
    assert_eq!(r, Err(Error::AlreadyInitialized));
    // The first configuration stands.
    assert_eq!(pool.admin, Some(ADMIN));
    assert_eq!(pool.token_address, Some(TOKEN));
}

#[test]
fn test_pause_functionality() {
    let mut pool = initialized_pool();

    // Test pausing
    assert_eq!(pool.set_paused(ADMIN, true), Ok(()));
    assert!(pool.is_paused());

    // Test unpausing
    assert_eq!(pool.set_paused(ADMIN, false), Ok(()));
    assert!(!pool.is_paused());
}

#[test]
fn test_set_paused_requires_admin() {
    let mut pool = initialized_pool();
    assert_eq!(pool.set_paused(ADMIN + 1, true), Err(Error::Unauthorized));
    assert!(!pool.is_paused());

    let mut fresh = LendingPool::new();
    assert_eq!(fresh.set_paused(ADMIN, true), Err(Error::NotInitialized));
}

#[test]
fn test_deposit_when_paused() {
    let mut pool = initialized_pool();
    pool.set_paused(ADMIN, true).unwrap();

    let user = 9;
    assert_eq!(pool.deposit(user, user, 1000), Err(Error::ContractPaused));
}

#[test]
fn test_borrow_when_paused() {
    let mut pool = initialized_pool();
    pool.set_paused(ADMIN, true).unwrap();

    assert_eq!(
        pool.borrow(BORROWER, BORROWER, 1000, 5000),
        Err(Error::ContractPaused)
    );
}

#[test]
fn test_pause_gates_loan_lifecycle() {
    let mut pool = initialized_pool();
    let loan_id = pool
        .create_loan(BORROWER, BORROWER, 1, 1000, NOW + 86400, NOW)
        .unwrap();
    pool.set_paused(ADMIN, true).unwrap();

    assert_eq!(
        pool.create_loan(BORROWER, BORROWER, 2, 1000, NOW + 86400, NOW),
        Err(Error::ContractPaused)
    );
    assert_eq!(
        pool.repay_loan(BORROWER, loan_id, 10_000, NOW),
        Err(Error::ContractPaused)
    );
    assert_eq!(
        pool.liquidate(loan_id, NOW + 200_000),
        Err(Error::ContractPaused)
    );
    // Nothing changed while paused.
    let loan = pool.get_loan(loan_id).unwrap();
    assert!(!loan.is_repaid);
    assert!(!loan.is_defaulted);
}

#[test]
fn test_deposit_requires_self_authorization() {
    let pool = initialized_pool();
    assert_eq!(pool.deposit(BORROWER, BORROWER + 1, 1000), Err(Error::Unauthorized));
    assert_eq!(pool.deposit(BORROWER, BORROWER, 1000), Ok(()));
}

#[test]
fn test_borrow_insufficient_liquidity() {
    let pool = initialized_pool();
    assert_eq!(
        pool.borrow(BORROWER, BORROWER, 6000, 5000),
        Err(Error::InsufficientLiquidity)
    );
    assert_eq!(pool.borrow(BORROWER, BORROWER, 5000, 5000), Ok(()));
}

#[test]
fn test_create_loan() {
    let mut pool = initialized_pool();

    let due_date = NOW + 86400;
    let loan_id = pool
        .create_loan(BORROWER, BORROWER, 1, 1000, due_date, NOW)
        .unwrap();

    let loan = pool.get_loan(loan_id).unwrap();
    assert_eq!(loan.borrower, BORROWER);
    assert_eq!(loan.principal, 1000);
    assert_eq!(loan.invoice_id, 1);
    assert!(!loan.is_repaid);
    assert!(!loan.is_defaulted);
    assert_eq!(loan.status(), LoanStatus::Active);
}

#[test]
fn test_repay_loan() {
    let mut pool = initialized_pool();

    let due_date = NOW + 86400;
    let loan_id = pool
        .create_loan(BORROWER, BORROWER, 1, 1000, due_date, NOW)
        .unwrap();

    // Repaid the moment it was taken: no time has passed, so the total owed
    // is the bare principal.
    let total = pool.repay_loan(BORROWER, loan_id, 10_000, NOW).unwrap();
    assert_eq!(total, 1000);

    let loan = pool.get_loan(loan_id).unwrap();
    assert!(loan.is_repaid);
    assert_eq!(loan.status(), LoanStatus::Repaid);
}

#[test]
fn test_repay_already_repaid_loan() {
    let mut pool = initialized_pool();

    let due_date = NOW + 86400;
    let loan_id = pool
        .create_loan(BORROWER, BORROWER, 1, 1000, due_date, NOW)
        .unwrap();

    pool.repay_loan(BORROWER, loan_id, 10_000, NOW).unwrap();
    assert_eq!(
        pool.repay_loan(BORROWER, loan_id, 10_000, NOW),
        Err(Error::LoanAlreadyRepaid)
    );
}

#[test]
fn test_repay_loan_recomputes_interest() {
    let mut pool = initialized_pool();
    let start = 0;
    let due_date = 31_536_000;
    let loan_id = pool
        .create_loan(BORROWER, BORROWER, 1, 1000, due_date, start)
        .unwrap();

    // A full year has passed: 5% of 1000 comes due on top of the principal.
    let total = pool
        .repay_loan(BORROWER, loan_id, 10_000, 31_536_000)
        .unwrap();
    assert_eq!(total, 1050);
}

#[test]
fn test_repay_loan_insufficient_balance() {
    let mut pool = initialized_pool();
    let loan_id = pool
        .create_loan(BORROWER, BORROWER, 1, 1000, NOW + 86400, NOW)
        .unwrap();

    assert_eq!(
        pool.repay_loan(BORROWER, loan_id, 999, NOW),
        Err(Error::InsufficientBalance)
    );
    assert!(!pool.get_loan(loan_id).unwrap().is_repaid);
}

#[test]
fn test_repay_loan_requires_borrower() {
    let mut pool = initialized_pool();
    let loan_id = pool
        .create_loan(BORROWER, BORROWER, 1, 1000, NOW + 86400, NOW)
        .unwrap();
    assert_eq!(
        pool.repay_loan(BORROWER + 1, loan_id, 10_000, NOW),
        Err(Error::Unauthorized)
    );
}

#[test]
fn test_repay_loan_not_found() {
    let mut pool = initialized_pool();
    assert_eq!(
        pool.repay_loan(BORROWER, 42, 10_000, NOW),
        Err(Error::LoanNotFound)
    );
}

#[test]
fn test_liquidate_loan() {
    let mut pool = initialized_pool();

    let past_date = NOW - 86400; // Past due date
    let loan_id = pool
        .create_loan(BORROWER, BORROWER, 1, 1000, past_date, NOW)
        .unwrap();

    let seized = pool.liquidate(loan_id, NOW).unwrap();
    assert_eq!(seized, 1000);

    let loan = pool.get_loan(loan_id).unwrap();
    assert!(loan.is_defaulted);
    assert_eq!(loan.status(), LoanStatus::Defaulted);
}

#[test]
fn test_liquidate_healthy_loan() {
    let mut pool = initialized_pool();

    let future_date = NOW + 86400; // Future due date
    let loan_id = pool
        .create_loan(BORROWER, BORROWER, 1, 1000, future_date, NOW)
        .unwrap();

    assert_eq!(
        pool.liquidate(loan_id, NOW),
        Err(Error::CannotLiquidateHealthyLoan)
    );
    // Exactly at the due date the loan is still healthy.
    assert_eq!(
        pool.liquidate(loan_id, future_date),
        Err(Error::CannotLiquidateHealthyLoan)
    );
    assert!(!pool.get_loan(loan_id).unwrap().is_defaulted);
}

#[test]
fn test_liquidated_loan_is_terminal() {
    let mut pool = initialized_pool();
    let loan_id = pool
        .create_loan(BORROWER, BORROWER, 1, 1000, NOW - 86400, NOW)
        .unwrap();
    pool.liquidate(loan_id, NOW).unwrap();

    assert_eq!(pool.liquidate(loan_id, NOW), Err(Error::LoanDefaulted));
    assert_eq!(
        pool.repay_loan(BORROWER, loan_id, 10_000, NOW),
        Err(Error::LoanDefaulted)
    );
}

#[test]
fn test_interest_calculation() {
    let mut pool = initialized_pool();

    let one_year_later = NOW + 31_536_000; // 1 year
    let loan_id = pool
        .create_loan(BORROWER, BORROWER, 1, 1000, one_year_later, NOW)
        .unwrap();

    let loan = pool.get_loan(loan_id).unwrap();
    // 5% of 1000 = 50 interest for 1 year
    assert_eq!(loan.interest, 50);
}

#[test]
fn test_calculate_interest_formula() {
    assert_eq!(LendingPool::calculate_interest(1000, 0, 31_536_000), 50);
    assert_eq!(LendingPool::calculate_interest(1000, 0, 15_768_000), 25);
    // Truncating division: a year of 5% on 999 is 49.95, so 49.
    assert_eq!(LendingPool::calculate_interest(999, 0, 31_536_000), 49);
    // Non-positive durations accrue nothing.
    assert_eq!(LendingPool::calculate_interest(1000, 10, 10), 0);
    assert_eq!(LendingPool::calculate_interest(1000, 20, 10), 0);
    // Nothing lent, nothing owed.
    assert_eq!(LendingPool::calculate_interest(0, 0, 31_536_000), 0);
}

#[test]
fn test_loan_ids_are_sequential_from_one() {
    let mut pool = initialized_pool();
    for expected in 1..=3u64 {
        let id = pool
            .create_loan(BORROWER, BORROWER, expected, 1000, NOW + 86400, NOW)
            .unwrap();
        assert_eq!(id, expected);
        assert_eq!(pool.get_loan(id).unwrap().id, expected);
    }
    assert!(pool.get_loan(4).is_none());
}

#[test]
fn test_create_loan_requires_borrower() {
    let mut pool = initialized_pool();
    let r = pool.create_loan(BORROWER + 1, BORROWER, 1, 1000, NOW + 86400, NOW);
    assert_eq!(r, Err(Error::Unauthorized));
    assert!(pool.get_loan(1).is_none());
}

#[test]
fn test_pool_backend_pubkey_requires_admin() {
    let mut pool = initialized_pool();
    assert_eq!(
        pool.set_backend_pubkey(ADMIN + 1, vec![1u8; 32]),
        Err(Error::Unauthorized)
    );
    assert_eq!(pool.set_backend_pubkey(ADMIN, vec![1u8; 32]), Ok(()));

    let mut fresh = LendingPool::new();
    assert_eq!(
        fresh.set_backend_pubkey(ADMIN, vec![1u8; 32]),
        Err(Error::NotInitialized)
    );
}
