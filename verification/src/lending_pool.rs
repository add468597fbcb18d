//! Liquidity pool: custodies pooled funds, tracks per-depositor balances and
//! aggregate liquidity, and gates disbursement and repayment on a configured
//! loan manager.
//!
//! Token movements run through the token ledger inside the same operation;
//! every operation validates first and mutates only when the whole of it is
//! known to succeed, so a failure leaves pool and token ledger untouched.

use vstd::prelude::*;
use std::collections::HashMap;
use crate::errors::Error;
use crate::mock_usdc::MockUSDC;
use crate::mock_usdc::transfer_effect;

verus! {

broadcast use vstd::std_specs::hash::group_hash_axioms;

/// The balance a depositor holds in the pool's books; 0 when never seen.
pub open spec fn pool_bal(balances: Map<u64, i128>, u: u64) -> int {
    if balances.contains_key(u) {
        balances[u] as int
    } else {
        0
    }
}

/// The liquidity pool. `address` is the pool's own principal, the custodial
/// account that holds the pooled tokens on the token ledger; `token_address`
/// names the token ledger the pool settles in.
pub struct LendingPoolMini {
    pub address: u64,
    pub owner: u64,
    pub token_address: u64,
    pub loan_manager: Option<u64>,
    pub balances: HashMap<u64, i128>,
    pub total_liquidity: i128,
}

impl LendingPoolMini {
    /// Every depositor balance on record is nonnegative. The aggregate
    /// liquidity may run negative: disbursements draw on it without being
    /// tied to a depositor's balance.
    pub open spec fn wf(self) -> bool {
        forall|u: u64| #[trigger] self.balances@.contains_key(u) ==> 0 <= self.balances@[u]
    }

    /// The balance of depositor `u`; 0 when never seen.
    pub open spec fn bal(self, u: u64) -> int {
        pool_bal(self.balances@, u)
    }

    /// The pool's configuration: everything but balances and liquidity.
    pub open spec fn same_config(self, other: Self) -> bool {
        &&& self.address == other.address
        &&& self.owner == other.owner
        &&& self.token_address == other.token_address
        &&& self.loan_manager == other.loan_manager
    }

    /// Create the pool at its own address, with its owner and the token
    /// ledger it settles in; no depositors, no liquidity, no loan manager.
    pub fn initialize(address: u64, owner: u64, token_address: u64) -> (r: Self)
        ensures
            r.wf(),
            r.address == address,
            r.owner == owner,
            r.token_address == token_address,
            r.loan_manager is None,
            r.balances@ == Map::<u64, i128>::empty(),
            r.total_liquidity == 0,
    {
        LendingPoolMini {
            address,
            owner,
            token_address,
            loan_manager: None,
            balances: HashMap::new(),
            total_liquidity: 0,
        }
    }

    /// The pool's owner.
    pub fn get_owner(&self) -> (r: u64)
        ensures
            r == self.owner,
    {
        self.owner
    }

    /// Configure the loan manager allowed to disburse and register
    /// repayments. Owner-only.
    pub fn set_loan_manager(&mut self, caller: u64, loan_manager: u64) -> (r: Result<(), Error>)
        requires
            old(self).wf(),
        ensures
            final(self).wf(),
            caller != old(self).owner ==> r == Err::<(), Error>(Error::Unauthorized)
                && *final(self) == *old(self),
            caller == old(self).owner ==> r == Ok::<(), Error>(())
                && final(self).loan_manager == Some(loan_manager)
                && final(self).balances@ == old(self).balances@
                && final(self).total_liquidity == old(self).total_liquidity
                && final(self).address == old(self).address
                && final(self).owner == old(self).owner
                && final(self).token_address == old(self).token_address,
    {
        if caller != self.owner {
            return Err(Error::Unauthorized);
        }
        self.loan_manager = Some(loan_manager);
        Ok(())
    }

    /// The configured loan manager, if any.
    pub fn get_loan_manager(&self) -> (r: Option<u64>)
        ensures
            r == self.loan_manager,
    {
        self.loan_manager
    }

    /// The balance of depositor `user`; 0 when never seen.
    pub fn get_balance(&self, user: u64) -> (r: i128)
        ensures
            r == self.bal(user),
    {
        match self.balances.get(&user) {
            Some(v) => *v,
            None => 0,
        }
    }

    /// The aggregate liquidity available for disbursement.
    pub fn get_total_liquidity(&self) -> (r: i128)
        ensures
            r == self.total_liquidity,
    {
        self.total_liquidity
    }

    /// The error `deposit` answers, checked in order; `None` means success.
    pub open spec fn deposit_error(self, token: MockUSDC, caller: u64, user: u64, amount: i128) -> Option<Error> {
        if caller != user {
            Some(Error::Unauthorized)
        } else if amount <= 0 {
            Some(Error::InvalidInput)
        } else if self.bal(user) + amount > i128::MAX {
            Some(Error::Overflow)
        } else if self.total_liquidity + amount > i128::MAX {
            Some(Error::Overflow)
        } else {
            token.transfer_error(user, user, self.address, amount)
        }
    }

    /// Deposit `amount` into the pool: the token ledger moves it from `user`
    /// to the pool's account, and the pool credits `user`'s balance and the
    /// aggregate liquidity. `caller` must be `user`.
    pub fn deposit(&mut self, token: &mut MockUSDC, caller: u64, user: u64, amount: i128) -> (r: Result<(), Error>)
        requires
            old(self).wf(),
            old(token).wf(),
            old(token).address == old(self).token_address,
        ensures
            final(self).wf(),
            final(token).wf(),
            r == (match old(self).deposit_error(*old(token), caller, user, amount) {
                Some(e) => Err::<(), Error>(e),
                None => Ok::<(), Error>(()),
            }),
            r is Err ==> *final(self) == *old(self) && *final(token) == *old(token),
            r is Ok ==> {
                &&& transfer_effect(*old(token), *final(token), user, old(self).address, amount)
                &&& final(self).balances@ == old(self).balances@
                    .insert(user, (old(self).bal(user) + amount) as i128)
                &&& final(self).total_liquidity == old(self).total_liquidity + amount
                &&& old(self).same_config(*final(self))
            },
    {
        if caller != user {
            return Err(Error::Unauthorized);
        }
        if amount <= 0 {
            return Err(Error::InvalidInput);
        }
        let current = self.get_balance(user);
        let new_balance = match current.checked_add(amount) {
            Some(v) => v,
            None => {
                return Err(Error::Overflow);
            },
        };
        let new_total = match self.total_liquidity.checked_add(amount) {
            Some(v) => v,
            None => {
                return Err(Error::Overflow);
            },
        };
        match token.transfer(user, user, self.address, amount) {
            Ok(()) => {},
            Err(e) => {
                return Err(e);
            },
        }
        self.balances.insert(user, new_balance);
        self.total_liquidity = new_total;
        Ok(())
    }

    /// The error `withdraw` answers, checked in order; `None` means success.
    pub open spec fn withdraw_error(self, token: MockUSDC, caller: u64, user: u64, amount: i128) -> Option<Error> {
        if caller != user {
            Some(Error::Unauthorized)
        } else if amount <= 0 {
            Some(Error::InvalidInput)
        } else if self.bal(user) < amount {
            Some(Error::InsufficientBalance)
        } else if self.total_liquidity - amount < i128::MIN {
            Some(Error::Overflow)
        } else {
            token.transfer_error(self.address, self.address, user, amount)
        }
    }

    /// Withdraw `amount` from the pool: fails `InsufficientBalance` beyond
    /// `user`'s booked balance; otherwise the token ledger moves the amount
    /// from the pool's account back to `user`, and the pool debits `user`'s
    /// balance and the aggregate liquidity. `caller` must be `user`.
    pub fn withdraw(&mut self, token: &mut MockUSDC, caller: u64, user: u64, amount: i128) -> (r: Result<(), Error>)
        requires
            old(self).wf(),
            old(token).wf(),
            old(token).address == old(self).token_address,
        ensures
            final(self).wf(),
            final(token).wf(),
            r == (match old(self).withdraw_error(*old(token), caller, user, amount) {
                Some(e) => Err::<(), Error>(e),
                None => Ok::<(), Error>(()),
            }),
            r is Err ==> *final(self) == *old(self) && *final(token) == *old(token),
            r is Ok ==> {
                &&& transfer_effect(*old(token), *final(token), old(self).address, user, amount)
                &&& final(self).balances@ == old(self).balances@
                    .insert(user, (old(self).bal(user) - amount) as i128)
                &&& final(self).total_liquidity == old(self).total_liquidity - amount
                &&& old(self).same_config(*final(self))
            },
    {
        if caller != user {
            return Err(Error::Unauthorized);
        }
        if amount <= 0 {
            return Err(Error::InvalidInput);
        }
        let current = self.get_balance(user);
        if current < amount {
            return Err(Error::InsufficientBalance);
        }
        let new_total = match self.total_liquidity.checked_sub(amount) {
            Some(v) => v,
            None => {
                return Err(Error::Overflow);
            },
        };
        let pool_address = self.address;
        match token.transfer(pool_address, pool_address, user, amount) {
            Ok(()) => {},
            Err(e) => {
                return Err(e);
            },
        }
        self.balances.insert(user, current - amount);
        self.total_liquidity = new_total;
        Ok(())
    }

    /// The error `disburse` answers, checked in order; `None` means success.
    pub open spec fn disburse_error(self, token: MockUSDC, borrower: u64, amount: i128) -> Option<Error> {
        if self.loan_manager is None {
            Some(Error::NotInitialized)
        } else if amount <= 0 {
            Some(Error::InvalidInput)
        } else if self.total_liquidity < amount {
            Some(Error::InsufficientLiquidity)
        } else {
            token.transfer_error(self.address, self.address, borrower, amount)
        }
    }

    /// Disburse `amount` of pooled funds to `borrower`, drawing down the
    /// aggregate liquidity. Gated only on a loan manager being configured:
    /// the caller's identity is not verified against that address, and the
    /// configured loan manager is trusted to be the one asking.
    pub fn disburse(&mut self, token: &mut MockUSDC, borrower: u64, amount: i128) -> (r: Result<(), Error>)
        requires
            old(self).wf(),
            old(token).wf(),
            old(token).address == old(self).token_address,
        ensures
            final(self).wf(),
            final(token).wf(),
            r == (match old(self).disburse_error(*old(token), borrower, amount) {
                Some(e) => Err::<(), Error>(e),
                None => Ok::<(), Error>(()),
            }),
            r is Err ==> *final(self) == *old(self) && *final(token) == *old(token),
            r is Ok ==> {
                &&& transfer_effect(*old(token), *final(token), old(self).address, borrower, amount)
                &&& final(self).balances@ == old(self).balances@
                &&& final(self).total_liquidity == old(self).total_liquidity - amount
                &&& old(self).same_config(*final(self))
            },
    {
        if self.loan_manager.is_none() {
            return Err(Error::NotInitialized);
        }
        if amount <= 0 {
            return Err(Error::InvalidInput);
        }
        if self.total_liquidity < amount {
            return Err(Error::InsufficientLiquidity);
        }
        let pool_address = self.address;
        match token.transfer(pool_address, pool_address, borrower, amount) {
            Ok(()) => {},
            Err(e) => {
                return Err(e);
            },
        }
        self.total_liquidity = self.total_liquidity - amount;
        Ok(())
    }

    /// The error `reg_repay` answers, checked in order; `None` means success.
    pub open spec fn reg_repay_error(self, token: MockUSDC, borrower: u64, amount: i128) -> Option<Error> {
        if self.loan_manager is None {
            Some(Error::NotInitialized)
        } else if amount <= 0 {
            Some(Error::InvalidInput)
        } else if self.total_liquidity + amount > i128::MAX {
            Some(Error::Overflow)
        } else {
            token.transfer_error(borrower, borrower, self.address, amount)
        }
    }

    /// Register a loan repayment: the token ledger moves `amount` from the
    /// borrower, acting with the borrower's authorization, into the pool's
    /// account, and the aggregate liquidity rises. Gated like `disburse`.
    pub fn reg_repay(&mut self, token: &mut MockUSDC, borrower: u64, amount: i128) -> (r: Result<(), Error>)
        requires
            old(self).wf(),
            old(token).wf(),
            old(token).address == old(self).token_address,
        ensures
            final(self).wf(),
            final(token).wf(),
            r == (match old(self).reg_repay_error(*old(token), borrower, amount) {
                Some(e) => Err::<(), Error>(e),
                None => Ok::<(), Error>(()),
            }),
            r is Err ==> *final(self) == *old(self) && *final(token) == *old(token),
            r is Ok ==> {
                &&& transfer_effect(*old(token), *final(token), borrower, old(self).address, amount)
                &&& final(self).balances@ == old(self).balances@
                &&& final(self).total_liquidity == old(self).total_liquidity + amount
                &&& old(self).same_config(*final(self))
            },
    {
        if self.loan_manager.is_none() {
            return Err(Error::NotInitialized);
        }
        if amount <= 0 {
            return Err(Error::InvalidInput);
        }
        let new_total = match self.total_liquidity.checked_add(amount) {
            Some(v) => v,
            None => {
                return Err(Error::Overflow);
            },
        };
        let pool_address = self.address;
        match token.transfer(borrower, borrower, pool_address, amount) {
            Ok(()) => {},
            Err(e) => {
                return Err(e);
            },
        }
        self.total_liquidity = new_total;
        Ok(())
    }

    /// The error `platform_fund` answers, checked in order; `None` means
    /// success.
    pub open spec fn platform_fund_error(self, token: MockUSDC, caller: u64, amount: i128) -> Option<Error> {
        if caller != self.owner {
            Some(Error::Unauthorized)
        } else if amount <= 0 {
            Some(Error::InvalidInput)
        } else if self.total_liquidity + amount > i128::MAX {
            Some(Error::Overflow)
        } else if token.bal(self.address) < self.total_liquidity + amount {
            Some(Error::InsufficientTokens)
        } else {
            None
        }
    }

    /// Reconcile out-of-band pre-funding: after the owner has moved tokens to
    /// the pool's account directly, raise the aggregate liquidity by
    /// `amount`, provided the pool's live token balance covers the new
    /// total. Owner-only; the token ledger is only read.
    pub fn platform_fund(&mut self, token: &MockUSDC, caller: u64, amount: i128) -> (r: Result<(), Error>)
        requires
            old(self).wf(),
            token.wf(),
            token.address == old(self).token_address,
        ensures
            final(self).wf(),
            r == (match old(self).platform_fund_error(*token, caller, amount) {
                Some(e) => Err::<(), Error>(e),
                None => Ok::<(), Error>(()),
            }),
            r is Err ==> *final(self) == *old(self),
            r is Ok ==> {
                &&& final(self).balances@ == old(self).balances@
                &&& final(self).total_liquidity == old(self).total_liquidity + amount
                &&& old(self).same_config(*final(self))
            },
    {
        if caller != self.owner {
            return Err(Error::Unauthorized);
        }
        if amount <= 0 {
            return Err(Error::InvalidInput);
        }
        let new_total = match self.total_liquidity.checked_add(amount) {
            Some(v) => v,
            None => {
                return Err(Error::Overflow);
            },
        };
        let contract_balance = token.balance(self.address);
        if contract_balance < new_total {
            return Err(Error::InsufficientTokens);
        }
        self.total_liquidity = new_total;
        Ok(())
    }
}

/// Law: a deposit of `amount` for `user` followed by a withdrawal of the
/// same amount restores every depositor's observed balance and the aggregate
/// liquidity to their pre-deposit values. The two map updates below are
/// exactly the ones `deposit` and `withdraw` ensure on the pool's books.
pub proof fn lemma_pool_round_trip(balances: Map<u64, i128>, total_liquidity: i128, user: u64, amount: i128)
    requires
        0 < amount,
        pool_bal(balances, user) + amount <= i128::MAX,
        total_liquidity + amount <= i128::MAX,
    ensures
        ({
            let after_deposit = balances.insert(user, (pool_bal(balances, user) + amount) as i128);
            let after_withdraw = after_deposit.insert(
                user,
                (pool_bal(after_deposit, user) - amount) as i128,
            );
            forall|v: u64| pool_bal(after_withdraw, v) == pool_bal(balances, v)
        }),
        (total_liquidity + amount) - amount == total_liquidity,
{
    let after_deposit = balances.insert(user, (pool_bal(balances, user) + amount) as i128);
    let after_withdraw = after_deposit.insert(
        user,
        (pool_bal(after_deposit, user) - amount) as i128,
    );
    assert forall|v: u64| pool_bal(after_withdraw, v) == pool_bal(balances, v) by {
        if v == user {
            assert(pool_bal(after_deposit, user) == pool_bal(balances, user) + amount);
            assert(pool_bal(after_withdraw, user) == pool_bal(balances, user));
        } else {
            assert(after_withdraw.contains_key(v) == balances.contains_key(v));
        }
    }
}

} // verus!
