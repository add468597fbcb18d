//! Token ledger: balances, allowances, mint, burn and transfer primitives,
//! consumed as a service by the liquidity pool and the loan manager.
//!
//! Monetary values are integers in the smallest unit. Every arithmetic step
//! on balances and supply is checked and fails with `Overflow` rather than
//! wrapping; every failing operation leaves the ledger untouched.

use vstd::prelude::*;
use std::collections::HashMap;
use crate::errors::Error;

verus! {

broadcast use vstd::std_specs::hash::group_hash_axioms;

/// Ten to the `e`-th power, the scale factor of a token with `e` decimals.
pub open spec fn pow10(e: nat) -> int
    decreases e,
{
    if e == 0 {
        1
    } else {
        10 * pow10((e - 1) as nat)
    }
}

proof fn lemma_pow10_positive(e: nat)
    ensures
        1 <= pow10(e),
    decreases e,
{
    if e != 0 {
        lemma_pow10_positive((e - 1) as nat);
    }
}

proof fn lemma_pow10_monotone(a: nat, b: nat)
    requires
        a <= b,
    ensures
        pow10(a) <= pow10(b),
    decreases b,
{
    if a < b {
        lemma_pow10_monotone(a, (b - 1) as nat);
        lemma_pow10_positive((b - 1) as nat);
    }
}

/// `10^e` as an `i128`, or `None` when that power does not fit.
fn checked_pow10(e: u32) -> (r: Option<i128>)
    ensures
        pow10(e as nat) <= i128::MAX ==> r == Some((pow10(e as nat)) as i128),
        pow10(e as nat) > i128::MAX ==> r is None,
{
    let mut result: i128 = 1;
    let mut i: u32 = 0;
    while i < e
        invariant
            i <= e,
            1 <= result,
            result == pow10(i as nat),
        decreases e - i,
    {
        result = match result.checked_mul(10) {
            Some(v) => v,
            None => {
                proof {
                    lemma_pow10_monotone((i + 1) as nat, e as nat);
                }
                return None;
            },
        };
        i = i + 1;
    }
    Some(result)
}

/// The mock USDC token ledger. `address` is the ledger's own principal, the
/// account that custodial transfers name; balances and allowances are keyed
/// by account addresses.
pub struct MockUSDC {
    pub address: u64,
    pub admin: u64,
    pub name: String,
    pub symbol: String,
    pub decimals: u32,
    pub balances: HashMap<u64, i128>,
    pub allowances: HashMap<u128, i128>,
    pub total_supply: i128,
}

/// The two ledgers agree on everything but balances, allowances and supply.
pub open spec fn same_config(a: MockUSDC, b: MockUSDC) -> bool {
    &&& a.address == b.address
    &&& a.admin == b.admin
    &&& a.name == b.name
    &&& a.symbol == b.symbol
    &&& a.decimals == b.decimals
}

/// `new_t` is `old_t` after moving `amount` from `from` to `to`: the balance
/// of `from` is read and lowered, then the balance of `to` is read (before
/// any write) and raised.
pub open spec fn transfer_effect(old_t: MockUSDC, new_t: MockUSDC, from: u64, to: u64, amount: i128) -> bool {
    &&& new_t.balances@ == old_t.balances@
        .insert(from, (old_t.bal(from) - amount) as i128)
        .insert(to, (old_t.bal(to) + amount) as i128)
    &&& new_t.allowances@ == old_t.allowances@
    &&& new_t.total_supply == old_t.total_supply
    &&& same_config(old_t, new_t)
}

/// `new_t` is `old_t` after minting `amount` fresh units to `to`.
pub open spec fn mint_effect(old_t: MockUSDC, new_t: MockUSDC, to: u64, amount: i128) -> bool {
    &&& new_t.balances@ == old_t.balances@.insert(to, (old_t.bal(to) + amount) as i128)
    &&& new_t.allowances@ == old_t.allowances@
    &&& new_t.total_supply == old_t.total_supply + amount
    &&& same_config(old_t, new_t)
}

impl MockUSDC {
    /// Balances and allowances on record are nonnegative, and the decimal
    /// scale leaves room for the fixed initial supply.
    pub open spec fn wf(self) -> bool {
        &&& forall|a: u64| #[trigger] self.balances@.contains_key(a) ==> 0 <= self.balances@[a]
        &&& forall|k: u128| #[trigger] self.allowances@.contains_key(k) ==> 0 <= self.allowances@[k]
        &&& 1_000_000 * pow10(self.decimals as nat) <= i128::MAX
    }

    /// The balance of account `a`; an account never seen holds 0.
    pub open spec fn bal(self, a: u64) -> int {
        if self.balances@.contains_key(a) {
            self.balances@[a] as int
        } else {
            0
        }
    }

    /// The storage key of the allowance granted by `from` to `spender`.
    pub open spec fn allowance_key(from: u64, spender: u64) -> u128 {
        (((from as int) * 0x1_0000_0000_0000_0000) + (spender as int)) as u128
    }

    /// The allowance granted by `from` to `spender`; 0 when never approved.
    pub open spec fn allowance_of(self, from: u64, spender: u64) -> int {
        if self.allowances@.contains_key(Self::allowance_key(from, spender)) {
            self.allowances@[Self::allowance_key(from, spender)] as int
        } else {
            0
        }
    }

    /// The supply minted at initialization: one million whole tokens.
    pub open spec fn initial_supply_of(decimals: u32) -> int {
        1_000_000 * pow10(decimals as nat)
    }

    /// Create the ledger at its own address and mint the initial supply of
    /// one million whole tokens to the admin. Fails `Overflow` when that
    /// supply does not fit the smallest-unit representation.
    pub fn initialize(address: u64, admin: u64, name: String, symbol: String, decimals: u32) -> (r: Result<Self, Error>)
        ensures
            Self::initial_supply_of(decimals) > i128::MAX ==> r == Err::<Self, Error>(Error::Overflow),
            Self::initial_supply_of(decimals) <= i128::MAX ==> r is Ok,
            r matches Ok(t) ==> {
                &&& t.wf()
                &&& t.address == address
                &&& t.admin == admin
                &&& t.name == name
                &&& t.symbol == symbol
                &&& t.decimals == decimals
                &&& t.balances@ == Map::<u64, i128>::empty()
                    .insert(admin, (Self::initial_supply_of(decimals)) as i128)
                &&& t.allowances@ == Map::<u128, i128>::empty()
                &&& t.total_supply == Self::initial_supply_of(decimals)
            },
    {
        proof {
            lemma_pow10_positive(decimals as nat);
        }
        let scale = match checked_pow10(decimals) {
            Some(v) => v,
            None => {
                return Err(Error::Overflow);
            },
        };
        let initial_supply = match (1_000_000i128).checked_mul(scale) {
            Some(v) => v,
            None => {
                return Err(Error::Overflow);
            },
        };
        let mut balances: HashMap<u64, i128> = HashMap::new();
        balances.insert(admin, initial_supply);
        Ok(MockUSDC {
            address,
            admin,
            name,
            symbol,
            decimals,
            balances,
            allowances: HashMap::new(),
            total_supply: initial_supply,
        })
    }

    /// The token's name.
    pub fn name(&self) -> (r: &String)
        ensures
            r@ == self.name@,
    {
        &self.name
    }

    /// The token's symbol.
    pub fn symbol(&self) -> (r: &String)
        ensures
            r@ == self.symbol@,
    {
        &self.symbol
    }

    /// The token's decimal scale.
    pub fn decimals(&self) -> (r: u32)
        ensures
            r == self.decimals,
    {
        self.decimals
    }

    /// The balance of `address`; 0 for an account never seen.
    pub fn balance(&self, address: u64) -> (r: i128)
        ensures
            r == self.bal(address),
    {
        match self.balances.get(&address) {
            Some(v) => *v,
            None => 0,
        }
    }

    /// The total supply on issue.
    pub fn total_supply(&self) -> (r: i128)
        ensures
            r == self.total_supply,
    {
        self.total_supply
    }

    /// The error `mint` answers, checked in order; `None` means success.
    pub open spec fn mint_error(self, caller: u64, to: u64, amount: i128) -> Option<Error> {
        if caller != self.admin {
            Some(Error::Unauthorized)
        } else if amount <= 0 {
            Some(Error::InvalidInput)
        } else if self.bal(to) + amount > i128::MAX {
            Some(Error::Overflow)
        } else if self.total_supply + amount > i128::MAX {
            Some(Error::Overflow)
        } else {
            None
        }
    }

    /// Mint `amount` fresh units to `to`. Admin-only.
    pub fn mint(&mut self, caller: u64, to: u64, amount: i128) -> (r: Result<(), Error>)
        requires
            old(self).wf(),
        ensures
            final(self).wf(),
            r == (match old(self).mint_error(caller, to, amount) {
                Some(e) => Err::<(), Error>(e),
                None => Ok::<(), Error>(()),
            }),
            r is Err ==> *final(self) == *old(self),
            r is Ok ==> mint_effect(*old(self), *final(self), to, amount),
    {
        if caller != self.admin {
            return Err(Error::Unauthorized);
        }
        if amount <= 0 {
            return Err(Error::InvalidInput);
        }
        self.mint_unchecked_auth(to, amount)
    }

    /// The error `mint_loan` answers, checked in order; `None` means success.
    pub open spec fn mint_loan_error(self, to: u64, amount: i128) -> Option<Error> {
        if amount <= 0 {
            Some(Error::InvalidInput)
        } else if self.bal(to) + amount > i128::MAX {
            Some(Error::Overflow)
        } else if self.total_supply + amount > i128::MAX {
            Some(Error::Overflow)
        } else {
            None
        }
    }

    /// Mint `amount` fresh units to `to` for a loan disbursement. Open to
    /// any caller: the platform mints for approved loans, and the loan
    /// manager is trusted to be the one asking.
    pub fn mint_loan(&mut self, to: u64, amount: i128) -> (r: Result<(), Error>)
        requires
            old(self).wf(),
        ensures
            final(self).wf(),
            r == (match old(self).mint_loan_error(to, amount) {
                Some(e) => Err::<(), Error>(e),
                None => Ok::<(), Error>(()),
            }),
            r is Err ==> *final(self) == *old(self),
            r is Ok ==> mint_effect(*old(self), *final(self), to, amount),
    {
        if amount <= 0 {
            return Err(Error::InvalidInput);
        }
        self.mint_unchecked_auth(to, amount)
    }

    /// Credit `amount` to `to` and raise the supply; shared tail of the two
    /// mint entry points, after their authorization and input checks.
    fn mint_unchecked_auth(&mut self, to: u64, amount: i128) -> (r: Result<(), Error>)
        requires
            old(self).wf(),
            amount > 0,
        ensures
            final(self).wf(),
            r == (if old(self).bal(to) + amount > i128::MAX || old(self).total_supply + amount > i128::MAX {
                Err::<(), Error>(Error::Overflow)
            } else {
                Ok::<(), Error>(())
            }),
            r is Err ==> *final(self) == *old(self),
            r is Ok ==> mint_effect(*old(self), *final(self), to, amount),
    {
        let current = self.balance(to);
        let new_balance = match current.checked_add(amount) {
            Some(v) => v,
            None => {
                return Err(Error::Overflow);
            },
        };
        let new_supply = match self.total_supply.checked_add(amount) {
            Some(v) => v,
            None => {
                return Err(Error::Overflow);
            },
        };
        self.balances.insert(to, new_balance);
        self.total_supply = new_supply;
        Ok(())
    }

    /// The error `burn` answers, checked in order; `None` means success.
    pub open spec fn burn_error(self, caller: u64, from: u64, amount: i128) -> Option<Error> {
        if caller != self.admin {
            Some(Error::Unauthorized)
        } else if amount <= 0 {
            Some(Error::InvalidInput)
        } else if self.bal(from) < amount {
            Some(Error::InsufficientBalance)
        } else if self.total_supply - amount < i128::MIN {
            Some(Error::Overflow)
        } else {
            None
        }
    }

    /// Destroy `amount` units held by `from` and lower the supply. Admin-only.
    pub fn burn(&mut self, caller: u64, from: u64, amount: i128) -> (r: Result<(), Error>)
        requires
            old(self).wf(),
        ensures
            final(self).wf(),
            r == (match old(self).burn_error(caller, from, amount) {
                Some(e) => Err::<(), Error>(e),
                None => Ok::<(), Error>(()),
            }),
            r is Err ==> *final(self) == *old(self),
            r is Ok ==> {
                &&& final(self).balances@ == old(self).balances@
                    .insert(from, (old(self).bal(from) - amount) as i128)
                &&& final(self).allowances@ == old(self).allowances@
                &&& final(self).total_supply == old(self).total_supply - amount
                &&& same_config(*old(self), *final(self))
            },
    {
        if caller != self.admin {
            return Err(Error::Unauthorized);
        }
        if amount <= 0 {
            return Err(Error::InvalidInput);
        }
        let current = self.balance(from);
        if current < amount {
            return Err(Error::InsufficientBalance);
        }
        let new_supply = match self.total_supply.checked_sub(amount) {
            Some(v) => v,
            None => {
                return Err(Error::Overflow);
            },
        };
        self.balances.insert(from, current - amount);
        self.total_supply = new_supply;
        Ok(())
    }

    /// The error `transfer` answers, checked in order; `None` means success.
    pub open spec fn transfer_error(self, caller: u64, from: u64, to: u64, amount: i128) -> Option<Error> {
        if caller != from {
            Some(Error::Unauthorized)
        } else if amount <= 0 {
            Some(Error::InvalidInput)
        } else if self.bal(from) < amount {
            Some(Error::InsufficientBalance)
        } else if self.bal(to) + amount > i128::MAX {
            Some(Error::Overflow)
        } else {
            None
        }
    }

    /// Move `amount` from `from` to `to`; `caller` must be `from` itself.
    /// Both balances are read before either is written, so a transfer to
    /// oneself nets to a credit, as the underlying storage order dictates.
    pub fn transfer(&mut self, caller: u64, from: u64, to: u64, amount: i128) -> (r: Result<(), Error>)
        requires
            old(self).wf(),
        ensures
            final(self).wf(),
            r == (match old(self).transfer_error(caller, from, to, amount) {
                Some(e) => Err::<(), Error>(e),
                None => Ok::<(), Error>(()),
            }),
            r is Err ==> *final(self) == *old(self),
            r is Ok ==> transfer_effect(*old(self), *final(self), from, to, amount),
    {
        if caller != from {
            return Err(Error::Unauthorized);
        }
        if amount <= 0 {
            return Err(Error::InvalidInput);
        }
        let from_balance = self.balance(from);
        if from_balance < amount {
            return Err(Error::InsufficientBalance);
        }
        let to_balance = self.balance(to);
        let new_to = match to_balance.checked_add(amount) {
            Some(v) => v,
            None => {
                return Err(Error::Overflow);
            },
        };
        self.balances.insert(from, from_balance - amount);
        self.balances.insert(to, new_to);
        Ok(())
    }

    /// The error `approve` answers, checked in order; `None` means success.
    pub open spec fn approve_error(self, caller: u64, from: u64, amount: i128) -> Option<Error> {
        if caller != from {
            Some(Error::Unauthorized)
        } else if amount < 0 {
            Some(Error::InvalidInput)
        } else {
            None
        }
    }

    /// Let `spender` spend up to `amount` of `from`'s balance; `caller` must
    /// be `from`. An amount of 0 is allowed and revokes the allowance.
    pub fn approve(&mut self, caller: u64, from: u64, spender: u64, amount: i128) -> (r: Result<(), Error>)
        requires
            old(self).wf(),
        ensures
            final(self).wf(),
            r == (match old(self).approve_error(caller, from, amount) {
                Some(e) => Err::<(), Error>(e),
                None => Ok::<(), Error>(()),
            }),
            r is Err ==> *final(self) == *old(self),
            r is Ok ==> {
                &&& final(self).allowances@ == old(self).allowances@
                    .insert(Self::allowance_key(from, spender), amount)
                &&& final(self).balances@ == old(self).balances@
                &&& final(self).total_supply == old(self).total_supply
                &&& same_config(*old(self), *final(self))
            },
    {
        if caller != from {
            return Err(Error::Unauthorized);
        }
        if amount < 0 {
            return Err(Error::InvalidInput);
        }
        let key = Self::allowance_key_exec(from, spender);
        self.allowances.insert(key, amount);
        Ok(())
    }

    /// The allowance granted by `from` to `spender`; 0 when never approved.
    pub fn allowance(&self, from: u64, spender: u64) -> (r: i128)
        ensures
            r == self.allowance_of(from, spender),
    {
        let key = Self::allowance_key_exec(from, spender);
        match self.allowances.get(&key) {
            Some(v) => *v,
            None => 0,
        }
    }

    /// The error `transfer_from` answers, checked in order; `None` means
    /// success.
    pub open spec fn transfer_from_error(self, caller: u64, spender: u64, from: u64, to: u64, amount: i128) -> Option<Error> {
        if caller != spender {
            Some(Error::Unauthorized)
        } else if amount <= 0 {
            Some(Error::InvalidInput)
        } else if self.allowance_of(from, spender) < amount {
            Some(Error::InsufficientAllowance)
        } else if self.bal(from) < amount {
            Some(Error::InsufficientBalance)
        } else if self.bal(to) + amount > i128::MAX {
            Some(Error::Overflow)
        } else {
            None
        }
    }

    /// Move `amount` from `from` to `to` on behalf of `spender`, consuming
    /// that much of the allowance `from` granted to `spender`.
    pub fn transfer_from(&mut self, caller: u64, spender: u64, from: u64, to: u64, amount: i128) -> (r: Result<(), Error>)
        requires
            old(self).wf(),
        ensures
            final(self).wf(),
            r == (match old(self).transfer_from_error(caller, spender, from, to, amount) {
                Some(e) => Err::<(), Error>(e),
                None => Ok::<(), Error>(()),
            }),
            r is Err ==> *final(self) == *old(self),
            r is Ok ==> {
                &&& final(self).balances@ == old(self).balances@
                    .insert(from, (old(self).bal(from) - amount) as i128)
                    .insert(to, (old(self).bal(to) + amount) as i128)
                &&& final(self).allowances@ == old(self).allowances@
                    .insert(Self::allowance_key(from, spender),
                        (old(self).allowance_of(from, spender) - amount) as i128)
                &&& final(self).total_supply == old(self).total_supply
                &&& same_config(*old(self), *final(self))
            },
    {
        if caller != spender {
            return Err(Error::Unauthorized);
        }
        if amount <= 0 {
            return Err(Error::InvalidInput);
        }
        let allowance_amount = self.allowance(from, spender);
        if allowance_amount < amount {
            return Err(Error::InsufficientAllowance);
        }
        let from_balance = self.balance(from);
        if from_balance < amount {
            return Err(Error::InsufficientBalance);
        }
        let to_balance = self.balance(to);
        let new_to = match to_balance.checked_add(amount) {
            Some(v) => v,
            None => {
                return Err(Error::Overflow);
            },
        };
        let key = Self::allowance_key_exec(from, spender);
        self.balances.insert(from, from_balance - amount);
        self.balances.insert(to, new_to);
        self.allowances.insert(key, allowance_amount - amount);
        Ok(())
    }

    /// The amount the faucet hands out: a thousand whole tokens.
    pub open spec fn faucet_amount_of(decimals: u32) -> int {
        1_000 * pow10(decimals as nat)
    }

    /// The error `faucet` answers; `None` means success.
    pub open spec fn faucet_error(self, to: u64) -> Option<Error> {
        if self.bal(to) + Self::faucet_amount_of(self.decimals) > i128::MAX {
            Some(Error::Overflow)
        } else if self.total_supply + Self::faucet_amount_of(self.decimals) > i128::MAX {
            Some(Error::Overflow)
        } else {
            None
        }
    }

    /// Mint a fixed thousand whole tokens to `to`; open to any caller.
    pub fn faucet(&mut self, to: u64) -> (r: Result<(), Error>)
        requires
            old(self).wf(),
        ensures
            final(self).wf(),
            r == (match old(self).faucet_error(to) {
                Some(e) => Err::<(), Error>(e),
                None => Ok::<(), Error>(()),
            }),
            r is Err ==> *final(self) == *old(self),
            r is Ok ==> mint_effect(*old(self), *final(self), to,
                (Self::faucet_amount_of(old(self).decimals)) as i128),
    {
        proof {
            lemma_pow10_positive(self.decimals as nat);
        }
        let scale = match checked_pow10(self.decimals) {
            Some(v) => v,
            None => {
                proof {
                    // well-formedness leaves the scale itself in range
                    assert(false);
                }
                return Err(Error::Overflow);
            },
        };
        let faucet_amount: i128 = 1_000 * scale;
        let current = self.balance(to);
        let new_balance = match current.checked_add(faucet_amount) {
            Some(v) => v,
            None => {
                return Err(Error::Overflow);
            },
        };
        let new_supply = match self.total_supply.checked_add(faucet_amount) {
            Some(v) => v,
            None => {
                return Err(Error::Overflow);
            },
        };
        self.balances.insert(to, new_balance);
        self.total_supply = new_supply;
        Ok(())
    }

    /// The allowance key, computed in executable code.
    fn allowance_key_exec(from: u64, spender: u64) -> (r: u128)
        ensures
            r == Self::allowance_key(from, spender),
    {
        (from as u128) * 0x1_0000_0000_0000_0000u128 + (spender as u128)
    }
}

} // verus!
