use micro_lending::mock_usdc::MockUSDC;
use micro_lending::errors::Error;

const TOKEN_ADDR: u64 = 11;
const ADMIN: u64 = 2;
const USER: u64 = 3;
const OTHER: u64 = 4;

fn fresh_token() -> MockUSDC {
    MockUSDC::initialize(
        TOKEN_ADDR,
        ADMIN,
        String::from("Mock USDC"),
        String::from("USDC"),
        6,
    )
    .unwrap()
}

#[test]
fn test_mock_usdc() {
    let mut client = fresh_token();
    assert_eq!(client.name().as_str(), "Mock USDC");
    assert_eq!(client.symbol().as_str(), "USDC");
    assert_eq!(client.decimals(), 6);

    let decimals: u32 = 6;
    let expected_supply = 1_000_000i128 * 10i128.pow(decimals);
    assert_eq!(client.total_supply(), expected_supply);
    assert_eq!(client.balance(ADMIN), expected_supply);

    client.faucet(USER).unwrap();
    let faucet_amount = 1_000i128 * 10i128.pow(decimals);
    assert_eq!(client.balance(USER), faucet_amount);
}

#[test]
fn transfer_moves_funds_and_validates() {
    let mut token = fresh_token();
    let supply = token.total_supply();
    assert_eq!(token.transfer(USER, ADMIN, USER, 100), Err(Error::Unauthorized));
    assert_eq!(token.transfer(ADMIN, ADMIN, USER, 0), Err(Error::InvalidInput));
    assert_eq!(token.transfer(USER, USER, ADMIN, 1), Err(Error::InsufficientBalance));
    token.transfer(ADMIN, ADMIN, USER, 2_500).unwrap();
    assert_eq!(token.balance(USER), 2_500);
    assert_eq!(token.balance(ADMIN), supply - 2_500);
    assert_eq!(token.total_supply(), supply);
}

#[test]
fn mint_and_burn_are_admin_only_and_track_supply() {
    let mut token = fresh_token();
    let supply = token.total_supply();
    assert_eq!(token.mint(USER, USER, 10), Err(Error::Unauthorized));
    token.mint(ADMIN, USER, 10).unwrap();
    assert_eq!(token.balance(USER), 10);
    assert_eq!(token.total_supply(), supply + 10);

    assert_eq!(token.burn(USER, USER, 5), Err(Error::Unauthorized));
    assert_eq!(token.burn(ADMIN, USER, 11), Err(Error::InsufficientBalance));
    token.burn(ADMIN, USER, 4).unwrap();
    assert_eq!(token.balance(USER), 6);
    assert_eq!(token.total_supply(), supply + 6);
}

#[test]
fn mint_loan_is_open_but_checked() {
    let mut token = fresh_token();
    let supply = token.total_supply();
    assert_eq!(token.mint_loan(USER, 0), Err(Error::InvalidInput));
    token.mint_loan(USER, 750).unwrap();
    assert_eq!(token.balance(USER), 750);
    assert_eq!(token.total_supply(), supply + 750);
    // a second mint on top of a balance near the ceiling overflows
    assert_eq!(token.mint_loan(USER, i128::MAX), Err(Error::Overflow));
    assert_eq!(token.balance(USER), 750);
    assert_eq!(token.total_supply(), supply + 750);
}

#[test]
fn allowance_cycle_approve_spend_and_refuse() {
    let mut token = fresh_token();
    assert_eq!(token.approve(OTHER, ADMIN, USER, 10), Err(Error::Unauthorized));
    assert_eq!(token.approve(ADMIN, ADMIN, USER, -1), Err(Error::InvalidInput));
    assert_eq!(token.allowance(ADMIN, USER), 0);

    token.approve(ADMIN, ADMIN, USER, 1_000).unwrap();
    assert_eq!(token.allowance(ADMIN, USER), 1_000);

    assert_eq!(
        token.transfer_from(USER, USER, ADMIN, OTHER, 1_001),
        Err(Error::InsufficientAllowance)
    );
    token.transfer_from(USER, USER, ADMIN, OTHER, 400).unwrap();
    assert_eq!(token.allowance(ADMIN, USER), 600);
    assert_eq!(token.balance(OTHER), 400);

    // approving zero revokes
    token.approve(ADMIN, ADMIN, USER, 0).unwrap();
    assert_eq!(token.allowance(ADMIN, USER), 0);
}

#[test]
fn initialize_refuses_an_unrepresentable_supply() {
    let r = MockUSDC::initialize(TOKEN_ADDR, ADMIN, String::from("Huge"), String::from("HUG"), 40);
    assert!(matches!(r, Err(Error::Overflow)));
}
