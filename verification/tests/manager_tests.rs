use micro_lending::credit_scoring::CreditScoringMini;
use micro_lending::loan_manager::{LoanManagerMicro, LoanStatus};
use micro_lending::mock_usdc::MockUSDC;
use micro_lending::errors::Error;

const SCORING_ADDR: u64 = 12;
const TOKEN_ADDR: u64 = 11;
const MANAGER_ADDR: u64 = 13;
const OWNER: u64 = 1;
const ADMIN: u64 = 2;
const BORROWER: u64 = 3;
const OTHER: u64 = 4;

fn fresh_system() -> (LoanManagerMicro, CreditScoringMini, MockUSDC) {
    let scoring = CreditScoringMini::initialize(SCORING_ADDR, OWNER);
    let token = MockUSDC::initialize(
        TOKEN_ADDR,
        ADMIN,
        String::from("Mock USDC"),
        String::from("USDC"),
        6,
    )
    .unwrap();
    let manager = LoanManagerMicro::initialize(MANAGER_ADDR, SCORING_ADDR, TOKEN_ADDR, 500);
    (manager, scoring, token)
}

#[test]
fn test_loan_manager_init() {
    let (_manager, _scoring, _token) = fresh_system();
}

#[test]
fn amortization_for_three_payments_is_exact() {
    let (mut manager, mut scoring, mut token) = fresh_system();
    scoring.initialize_user(BORROWER).unwrap();
    let id = manager
        .request_loan(&scoring, &mut token, BORROWER, BORROWER, 1_000_000, 3, 0)
        .unwrap();
    let loan = manager.get_loan(id).unwrap();
    assert_eq!(loan.total_amount - loan.amount, 50_000);
    assert_eq!(loan.total_amount, 1_050_000);
    assert_eq!(loan.payment_amount, 350_000);
    assert_eq!(3 * 350_000, loan.total_amount);
    // the principal was minted straight to the borrower
    assert_eq!(token.balance(BORROWER), 1_000_000);
}

#[test]
fn amortization_for_four_payments_is_exact() {
    let (mut manager, mut scoring, mut token) = fresh_system();
    scoring.initialize_user(BORROWER).unwrap();
    let id = manager
        .request_loan(&scoring, &mut token, BORROWER, BORROWER, 1_000_000, 4, 0)
        .unwrap();
    let loan = manager.get_loan(id).unwrap();
    assert_eq!(loan.total_amount, 1_050_000);
    assert_eq!(loan.payment_amount, 262_500);
    assert_eq!(4 * 262_500, loan.total_amount);
}

#[test]
fn truncating_amortization_never_collects_more_than_the_total() {
    let (mut manager, mut scoring, mut token) = fresh_system();
    scoring.initialize_user(BORROWER).unwrap();
    let id = manager
        .request_loan(&scoring, &mut token, BORROWER, BORROWER, 999_999, 3, 0)
        .unwrap();
    let loan = manager.get_loan(id).unwrap();
    // interest floors: 999_999 * 500 / 10_000 = 49_999
    assert_eq!(loan.total_amount, 1_049_998);
    assert_eq!(loan.payment_amount, 349_999);
    assert!(loan.payment_amount * (loan.num_payments as i128) < loan.total_amount);
}

#[test]
fn request_loan_validates_input_and_credit() {
    let (mut manager, mut scoring, mut token) = fresh_system();
    assert_eq!(
        manager.request_loan(&scoring, &mut token, OTHER, BORROWER, 1_000, 3, 0),
        Err(Error::Unauthorized)
    );
    assert_eq!(
        manager.request_loan(&scoring, &mut token, BORROWER, BORROWER, 0, 3, 0),
        Err(Error::InvalidInput)
    );
    assert_eq!(
        manager.request_loan(&scoring, &mut token, BORROWER, BORROWER, 1_000, 0, 0),
        Err(Error::InvalidInput)
    );
    assert_eq!(
        manager.request_loan(&scoring, &mut token, BORROWER, BORROWER, 1_000, 13, 0),
        Err(Error::InvalidInput)
    );
    // no credit score yet
    assert_eq!(
        manager.request_loan(&scoring, &mut token, BORROWER, BORROWER, 1_000, 3, 0),
        Err(Error::NoScore)
    );
    scoring.initialize_user(BORROWER).unwrap();
    assert_eq!(
        manager.request_loan(&scoring, &mut token, BORROWER, BORROWER, 999_999_901, 3, 0),
        Err(Error::ExceedsLimit)
    );
    // nothing was recorded by the failures
    assert_eq!(manager.get_loan_id(BORROWER), None);
    assert_eq!(manager.get_loan(0), Err(Error::NotFound));
}

#[test]
fn borrower_index_keeps_only_the_most_recent_loan() {
    let (mut manager, mut scoring, mut token) = fresh_system();
    scoring.initialize_user(BORROWER).unwrap();
    let first = manager
        .request_loan(&scoring, &mut token, BORROWER, BORROWER, 10_000, 2, 7)
        .unwrap();
    let second = manager
        .request_loan(&scoring, &mut token, BORROWER, BORROWER, 20_000, 2, 8)
        .unwrap();
    assert_eq!(first, 0);
    assert_eq!(second, 1);
    assert_eq!(manager.get_loan_id(BORROWER), Some(second));
    // the earlier loan record itself is still addressable by id
    assert_eq!(manager.get_loan(first).unwrap().amount, 10_000);
    assert_eq!(manager.get_loan(second).unwrap().created_at, 8);
}

#[test]
fn pay_installment_rejects_wrong_loans() {
    let (mut manager, mut scoring, mut token) = fresh_system();
    scoring.initialize_user(BORROWER).unwrap();
    let id = manager
        .request_loan(&scoring, &mut token, BORROWER, BORROWER, 1_000_000, 3, 0)
        .unwrap();
    assert_eq!(
        manager.pay_installment(&mut scoring, &mut token, BORROWER, BORROWER, 99),
        Err(Error::NotFound)
    );
    assert_eq!(
        manager.pay_installment(&mut scoring, &mut token, OTHER, BORROWER, id),
        Err(Error::Unauthorized)
    );
    assert_eq!(
        manager.pay_installment(&mut scoring, &mut token, OTHER, OTHER, id),
        Err(Error::NotOwner)
    );
    let loan = manager.get_loan(id).unwrap();
    assert_eq!(loan.paid_payments, 0);
    assert_eq!(loan.status, LoanStatus::Active);
}

#[test]
fn full_repayment_sets_repaid_and_rewards_exactly_once() {
    let (mut manager, mut scoring, mut token) = fresh_system();
    scoring.initialize_user(BORROWER).unwrap();
    let id = manager
        .request_loan(&scoring, &mut token, BORROWER, BORROWER, 1_000_000, 3, 0)
        .unwrap();
    // the minted principal does not cover the interest; top up from the faucet
    token.faucet(BORROWER).unwrap();
    let score_before = scoring.get_score_value(BORROWER).unwrap();

    manager.pay_installment(&mut scoring, &mut token, BORROWER, BORROWER, id).unwrap();
    assert_eq!(manager.get_loan(id).unwrap().paid_payments, 1);
    assert_eq!(manager.get_loan(id).unwrap().status, LoanStatus::Active);
    assert_eq!(scoring.get_score_value(BORROWER).unwrap(), score_before);

    manager.pay_installment(&mut scoring, &mut token, BORROWER, BORROWER, id).unwrap();
    assert_eq!(scoring.get_score_value(BORROWER).unwrap(), score_before);

    manager.pay_installment(&mut scoring, &mut token, BORROWER, BORROWER, id).unwrap();
    let loan = manager.get_loan(id).unwrap();
    assert_eq!(loan.paid_payments, 3);
    assert_eq!(loan.status, LoanStatus::Repaid);
    // rewarded exactly once, by exactly 10 points
    assert_eq!(scoring.get_score_value(BORROWER).unwrap(), score_before + 10);
    // the three installments sit in the manager's holding account
    assert_eq!(token.balance(MANAGER_ADDR), 1_050_000);

    // a repaid loan takes no further installments, and no further reward
    assert_eq!(
        manager.pay_installment(&mut scoring, &mut token, BORROWER, BORROWER, id),
        Err(Error::NotActive)
    );
    assert_eq!(scoring.get_score_value(BORROWER).unwrap(), score_before + 10);
}

#[test]
fn installment_fails_without_funds_and_leaves_state_alone() {
    let (mut manager, mut scoring, mut token) = fresh_system();
    scoring.initialize_user(BORROWER).unwrap();
    let id = manager
        .request_loan(&scoring, &mut token, BORROWER, BORROWER, 1_000_000, 2, 0)
        .unwrap();
    // drain the borrower below one installment (of 525_000)
    token.transfer(BORROWER, BORROWER, OTHER, 999_000).unwrap();
    assert_eq!(
        manager.pay_installment(&mut scoring, &mut token, BORROWER, BORROWER, id),
        Err(Error::InsufficientBalance)
    );
    let loan = manager.get_loan(id).unwrap();
    assert_eq!(loan.paid_payments, 0);
    assert_eq!(loan.status, LoanStatus::Active);
    assert_eq!(token.balance(BORROWER), 1_000);
}
