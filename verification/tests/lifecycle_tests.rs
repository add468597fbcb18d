use micro_lending::credit_scoring::CreditScoringMini;
use micro_lending::loan_manager::LoanManagerMicro;
use micro_lending::mock_usdc::MockUSDC;
use micro_lending::errors::Error;

const SCORING_ADDR: u64 = 12;
const TOKEN_ADDR: u64 = 11;
const MANAGER_ADDR: u64 = 13;
const OWNER: u64 = 1;
const ADMIN: u64 = 2;
const BORROWER: u64 = 3;

#[test]
fn end_to_end_blacklisting_bars_origination() {
    let mut scoring = CreditScoringMini::initialize(SCORING_ADDR, OWNER);
    let mut token = MockUSDC::initialize(
        TOKEN_ADDR,
        ADMIN,
        String::from("Mock USDC"),
        String::from("USDC"),
        6,
    )
    .unwrap();
    let mut manager = LoanManagerMicro::initialize(MANAGER_ADDR, SCORING_ADDR, TOKEN_ADDR, 500);

    scoring.initialize_user(BORROWER).unwrap();
    let profile = scoring.get_score(BORROWER).unwrap();
    assert_eq!(profile.score, 300);
    assert_eq!(profile.max_loan_amount, 999_999_900);

    scoring.penalize_user(OWNER, BORROWER, 400).unwrap();
    let profile = scoring.get_score(BORROWER).unwrap();
    assert_eq!(profile.score, 0);
    assert!(profile.blacklisted);
    assert_eq!(scoring.max_loan(BORROWER), 0);

    assert_eq!(
        manager.request_loan(&scoring, &mut token, BORROWER, BORROWER, 1_000, 3, 0),
        Err(Error::Blacklisted)
    );
    // no loan, no minted principal
    assert_eq!(manager.get_loan_id(BORROWER), None);
    assert_eq!(token.balance(BORROWER), 0);
}

#[test]
fn repayment_raises_the_credit_limit_for_the_next_loan() {
    let mut scoring = CreditScoringMini::initialize(SCORING_ADDR, OWNER);
    let mut token = MockUSDC::initialize(
        TOKEN_ADDR,
        ADMIN,
        String::from("Mock USDC"),
        String::from("USDC"),
        6,
    )
    .unwrap();
    let mut manager = LoanManagerMicro::initialize(MANAGER_ADDR, SCORING_ADDR, TOKEN_ADDR, 500);

    scoring.initialize_user(BORROWER).unwrap();
    let id = manager
        .request_loan(&scoring, &mut token, BORROWER, BORROWER, 100_000, 1, 0)
        .unwrap();
    // a single installment of the whole total
    assert_eq!(manager.get_loan(id).unwrap().payment_amount, 105_000);
    token.faucet(BORROWER).unwrap();
    manager.pay_installment(&mut scoring, &mut token, BORROWER, BORROWER, id).unwrap();

    let profile = scoring.get_score(BORROWER).unwrap();
    assert_eq!(profile.score, 310);
    assert_eq!(profile.max_loan_amount, 310 * 3_333_333);
    // with the higher limit a larger loan now passes
    let next = manager
        .request_loan(&scoring, &mut token, BORROWER, BORROWER, 1_033_333_230, 12, 1)
        .unwrap();
    assert_eq!(manager.get_loan_id(BORROWER), Some(next));
}
