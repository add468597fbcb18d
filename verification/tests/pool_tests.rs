use micro_lending::lending_pool::LendingPoolMini;
use micro_lending::mock_usdc::MockUSDC;
use micro_lending::errors::Error;

const POOL_ADDR: u64 = 10;
const TOKEN_ADDR: u64 = 11;
const MANAGER_ADDR: u64 = 13;
const ADMIN: u64 = 2;
const OWNER: u64 = 1;
const USER: u64 = 3;
const OTHER: u64 = 4;

fn fresh_pool_and_token() -> (LendingPoolMini, MockUSDC) {
    let mut token = MockUSDC::initialize(
        TOKEN_ADDR,
        ADMIN,
        String::from("Mock USDC"),
        String::from("USDC"),
        6,
    )
    .unwrap();
    // give the depositor spending money
    token.transfer(ADMIN, ADMIN, USER, 1_000_000).unwrap();
    let pool = LendingPoolMini::initialize(POOL_ADDR, OWNER, TOKEN_ADDR);
    (pool, token)
}

#[test]
fn test_lending_pool_init() {
    let (pool, _token) = fresh_pool_and_token();
    assert_eq!(pool.get_total_liquidity(), 0);
}

#[test]
fn deposit_then_withdraw_restores_pre_deposit_state() {
    let (mut pool, mut token) = fresh_pool_and_token();
    let user_tokens = token.balance(USER);
    pool.deposit(&mut token, USER, USER, 300_000).unwrap();
    assert_eq!(pool.get_balance(USER), 300_000);
    assert_eq!(pool.get_total_liquidity(), 300_000);
    assert_eq!(token.balance(USER), user_tokens - 300_000);
    assert_eq!(token.balance(POOL_ADDR), 300_000);

    pool.withdraw(&mut token, USER, USER, 300_000).unwrap();
    assert_eq!(pool.get_balance(USER), 0);
    assert_eq!(pool.get_total_liquidity(), 0);
    assert_eq!(token.balance(USER), user_tokens);
    assert_eq!(token.balance(POOL_ADDR), 0);
}

#[test]
fn withdraw_beyond_balance_fails_without_state_change() {
    let (mut pool, mut token) = fresh_pool_and_token();
    pool.deposit(&mut token, USER, USER, 200_000).unwrap();
    let pool_tokens = token.balance(POOL_ADDR);
    let user_tokens = token.balance(USER);
    assert_eq!(
        pool.withdraw(&mut token, USER, USER, 200_001),
        Err(Error::InsufficientBalance)
    );
    assert_eq!(pool.get_balance(USER), 200_000);
    assert_eq!(pool.get_total_liquidity(), 200_000);
    assert_eq!(token.balance(POOL_ADDR), pool_tokens);
    assert_eq!(token.balance(USER), user_tokens);
}

#[test]
fn deposit_validates_caller_and_amount() {
    let (mut pool, mut token) = fresh_pool_and_token();
    assert_eq!(pool.deposit(&mut token, OTHER, USER, 100), Err(Error::Unauthorized));
    assert_eq!(pool.deposit(&mut token, USER, USER, 0), Err(Error::InvalidInput));
    assert_eq!(pool.deposit(&mut token, OTHER, OTHER, 100), Err(Error::InsufficientBalance));
    assert_eq!(pool.get_total_liquidity(), 0);
}

#[test]
fn disburse_needs_a_manager_and_liquidity() {
    let (mut pool, mut token) = fresh_pool_and_token();
    pool.deposit(&mut token, USER, USER, 100_000).unwrap();

    // no manager configured yet
    assert_eq!(pool.disburse(&mut token, OTHER, 50_000), Err(Error::NotInitialized));

    assert_eq!(pool.set_loan_manager(OTHER, MANAGER_ADDR), Err(Error::Unauthorized));
    pool.set_loan_manager(OWNER, MANAGER_ADDR).unwrap();
    assert_eq!(pool.get_loan_manager(), Some(MANAGER_ADDR));

    // more than the liquidity: refused, nothing changes
    let pool_tokens = token.balance(POOL_ADDR);
    assert_eq!(
        pool.disburse(&mut token, OTHER, 100_001),
        Err(Error::InsufficientLiquidity)
    );
    assert_eq!(pool.get_total_liquidity(), 100_000);
    assert_eq!(token.balance(POOL_ADDR), pool_tokens);

    pool.disburse(&mut token, OTHER, 60_000).unwrap();
    assert_eq!(pool.get_total_liquidity(), 40_000);
    assert_eq!(token.balance(OTHER), 60_000);
    // depositor balances are untouched by a disbursement
    assert_eq!(pool.get_balance(USER), 100_000);
}

#[test]
fn reg_repay_raises_liquidity() {
    let (mut pool, mut token) = fresh_pool_and_token();
    assert_eq!(pool.reg_repay(&mut token, USER, 1_000), Err(Error::NotInitialized));
    pool.set_loan_manager(OWNER, MANAGER_ADDR).unwrap();
    pool.reg_repay(&mut token, USER, 1_000).unwrap();
    assert_eq!(pool.get_total_liquidity(), 1_000);
    assert_eq!(token.balance(POOL_ADDR), 1_000);
}

#[test]
fn platform_fund_reconciles_only_covered_amounts() {
    let (mut pool, mut token) = fresh_pool_and_token();
    assert_eq!(pool.platform_fund(&token, OTHER, 1_000), Err(Error::Unauthorized));
    assert_eq!(pool.platform_fund(&token, OWNER, 0), Err(Error::InvalidInput));
    // nothing was pre-funded: the pool's live token balance cannot cover it
    assert_eq!(pool.platform_fund(&token, OWNER, 1_000), Err(Error::InsufficientTokens));
    assert_eq!(pool.get_total_liquidity(), 0);

    // out-of-band pre-funding, then reconciliation
    token.transfer(ADMIN, ADMIN, POOL_ADDR, 5_000).unwrap();
    pool.platform_fund(&token, OWNER, 5_000).unwrap();
    assert_eq!(pool.get_total_liquidity(), 5_000);
}
