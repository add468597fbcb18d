//! Loan manager: originates loans against the credit score ledger and the
//! token ledger, and amortizes them in fixed installments.
//!
//! A loan moves `Active -> Repaid`, reaching `Repaid` exactly when the last
//! installment is paid; `Defaulted` is representable but no transition sets
//! it. Installments use floor division, so the sum of the installments never
//! exceeds the total owed — the lender absorbs the rounding loss.

use vstd::prelude::*;
use std::collections::HashMap;
use crate::errors::Error;
use crate::credit_scoring::CreditScoringMini;
use crate::credit_scoring::CreditScore;
use crate::credit_scoring::SCORE_TO_AMOUNT_RATIO;
use crate::mock_usdc::MockUSDC;
use crate::mock_usdc::transfer_effect;
use crate::mock_usdc::mint_effect;

verus! {

broadcast use vstd::std_specs::hash::group_hash_axioms;

/// Basis points in one whole: interest is `amount * rate / 10000`, floored.
pub const BPS_DENOMINATOR: i128 = 10_000;

/// Score points rewarded when a loan is fully repaid, exactly once per loan.
pub const REPAYMENT_REWARD: i128 = 10;

/// The lifecycle of a loan. `Defaulted` is declared but unreachable: no
/// operation transitions into it.
#[derive(Clone, Copy, Debug, PartialEq, Eq, Structural)]
pub enum LoanStatus {
    Active,
    Repaid,
    Defaulted,
}

/// One originated loan.
#[derive(Clone, Copy, Debug, PartialEq, Eq, Structural)]
pub struct Loan {
    pub borrower: u64,
    pub amount: i128,
    pub total_amount: i128,
    pub interest_rate: i128,
    pub num_payments: u32,
    pub paid_payments: u32,
    pub payment_amount: i128,
    pub created_at: i128,
    pub status: LoanStatus,
}

/// The interest owed on `amount` at `rate` basis points, floored.
pub open spec fn interest_of(amount: i128, rate: i128) -> int {
    (amount * rate) / (BPS_DENOMINATOR as int)
}

/// The per-installment amount: the whole total for a single payment, else
/// the floored quotient — truncation may leave a shortfall that is never
/// collected.
pub open spec fn payment_of(total: int, num_payments: u32) -> int {
    if num_payments == 1 {
        total
    } else {
        total / (num_payments as int)
    }
}

/// A loan record is internally consistent: positive principal, a payment
/// count between 1 and 12, progress within bounds, `Repaid` exactly at the
/// last installment, `Defaulted` never, and amounts tied to the origination
/// formulas with the installments never summing beyond the total owed.
pub open spec fn loan_wf(loan: Loan) -> bool {
    &&& 0 < loan.amount
    &&& 0 <= loan.interest_rate
    &&& 1 <= loan.num_payments <= 12
    &&& loan.paid_payments <= loan.num_payments
    &&& (loan.status is Repaid <==> loan.paid_payments == loan.num_payments)
    &&& !(loan.status is Defaulted)
    &&& loan.total_amount == loan.amount + interest_of(loan.amount, loan.interest_rate)
    &&& loan.payment_amount == payment_of(loan.total_amount as int, loan.num_payments)
    &&& loan.payment_amount * loan.num_payments <= loan.total_amount
}

/// The loan manager. `address` is its own principal, the holding account
/// installments are paid into; `credit_scoring` and `token_address` name the
/// ledgers it calls; loans are keyed by a monotonically increasing id, and
/// the borrower index keeps only each borrower's most recent loan id.
pub struct LoanManagerMicro {
    pub address: u64,
    pub credit_scoring: u64,
    pub token_address: u64,
    pub interest_rate: i128,
    pub next_loan_id: u32,
    pub loans: HashMap<u32, Loan>,
    pub borrower_index: HashMap<u64, u32>,
}

impl LoanManagerMicro {
    /// Every loan on record is consistent and has an id below the counter;
    /// the borrower index points at an existing loan of that borrower.
    pub open spec fn wf(self) -> bool {
        &&& 0 <= self.interest_rate
        &&& forall|id: u32| #[trigger] self.loans@.contains_key(id)
            ==> loan_wf(self.loans@[id]) && id < self.next_loan_id
        &&& forall|b: u64| #[trigger] self.borrower_index@.contains_key(b)
            ==> self.loans@.contains_key(self.borrower_index@[b])
                && self.loans@[self.borrower_index@[b]].borrower == b
    }

    /// The manager's configuration: everything but loans and the counter.
    pub open spec fn same_config(self, other: Self) -> bool {
        &&& self.address == other.address
        &&& self.credit_scoring == other.credit_scoring
        &&& self.token_address == other.token_address
        &&& self.interest_rate == other.interest_rate
    }

    /// Create the manager at its own address, wired to the credit scoring
    /// ledger and token ledger it calls, with the default interest rate in
    /// basis points. No loans yet; ids start at 0.
    pub fn initialize(address: u64, credit_scoring: u64, token_address: u64, default_interest_rate: i128) -> (r: Self)
        requires
            0 <= default_interest_rate,
        ensures
            r.wf(),
            r.address == address,
            r.credit_scoring == credit_scoring,
            r.token_address == token_address,
            r.interest_rate == default_interest_rate,
            r.next_loan_id == 0,
            r.loans@ == Map::<u32, Loan>::empty(),
            r.borrower_index@ == Map::<u64, u32>::empty(),
    {
        LoanManagerMicro {
            address,
            credit_scoring,
            token_address,
            interest_rate: default_interest_rate,
            next_loan_id: 0,
            loans: HashMap::new(),
            borrower_index: HashMap::new(),
        }
    }

    /// The error `request_loan` answers, checked in order; `None` means
    /// success.
    pub open spec fn request_loan_error(
        self,
        scoring: CreditScoringMini,
        token: MockUSDC,
        caller: u64,
        borrower: u64,
        amount: i128,
        num_payments: u32,
    ) -> Option<Error> {
        if caller != borrower {
            Some(Error::Unauthorized)
        } else if amount <= 0 {
            Some(Error::InvalidInput)
        } else if num_payments == 0 || num_payments > 12 {
            Some(Error::InvalidInput)
        } else if scoring.spec_is_blk(borrower) {
            Some(Error::Blacklisted)
        } else if scoring.spec_max_loan(borrower) == 0 {
            Some(Error::NoScore)
        } else if amount > scoring.spec_max_loan(borrower) {
            Some(Error::ExceedsLimit)
        } else if amount * self.interest_rate > i128::MAX {
            Some(Error::Overflow)
        } else if amount + interest_of(amount, self.interest_rate) > i128::MAX {
            Some(Error::Overflow)
        } else if self.next_loan_id == u32::MAX {
            Some(Error::Overflow)
        } else {
            token.mint_loan_error(borrower, amount)
        }
    }

    /// The loan `request_loan` records when it succeeds.
    pub open spec fn requested_loan(self, borrower: u64, amount: i128, num_payments: u32, now: i128) -> Loan {
        let total = amount + interest_of(amount, self.interest_rate);
        Loan {
            borrower,
            amount,
            total_amount: total as i128,
            interest_rate: self.interest_rate,
            num_payments,
            paid_payments: 0,
            payment_amount: (payment_of(total, num_payments)) as i128,
            created_at: now,
            status: LoanStatus::Active,
        }
    }

    /// Originate a loan: the borrower must be authorized, not blacklisted,
    /// scored, and within the credit limit; the amount must be positive and
    /// the payment count between 1 and 12. Interest is floored basis points;
    /// the principal is minted to the borrower before the loan is recorded,
    /// and a minting failure leaves no trace — not even a consumed id. The
    /// borrower's index entry is overwritten with the new id, discarding any
    /// prior reference. `now` is the ledger timestamp the host supplies.
    pub fn request_loan(
        &mut self,
        scoring: &CreditScoringMini,
        token: &mut MockUSDC,
        caller: u64,
        borrower: u64,
        amount: i128,
        num_payments: u32,
        now: i128,
    ) -> (r: Result<u32, Error>)
        requires
            old(self).wf(),
            scoring.wf(),
            old(token).wf(),
            scoring.address == old(self).credit_scoring,
            old(token).address == old(self).token_address,
        ensures
            final(self).wf(),
            final(token).wf(),
            r == (match old(self).request_loan_error(*scoring, *old(token), caller, borrower, amount, num_payments) {
                Some(e) => Err::<u32, Error>(e),
                None => Ok::<u32, Error>(old(self).next_loan_id),
            }),
            r is Err ==> *final(self) == *old(self) && *final(token) == *old(token),
            r is Ok ==> {
                let loan = old(self).requested_loan(borrower, amount, num_payments, now);
                &&& final(self).loans@ == old(self).loans@.insert(old(self).next_loan_id, loan)
                &&& final(self).borrower_index@ == old(self).borrower_index@
                    .insert(borrower, old(self).next_loan_id)
                &&& final(self).next_loan_id == old(self).next_loan_id + 1
                &&& old(self).same_config(*final(self))
                &&& mint_effect(*old(token), *final(token), borrower, amount)
                // the installments never sum beyond the total owed
                &&& loan.payment_amount * loan.num_payments <= loan.total_amount
            },
    {
        if caller != borrower {
            return Err(Error::Unauthorized);
        }
        if amount <= 0 {
            return Err(Error::InvalidInput);
        }
        if num_payments == 0 || num_payments > 12 {
            return Err(Error::InvalidInput);
        }
        if scoring.is_blk(borrower) {
            return Err(Error::Blacklisted);
        }
        let max_loan = scoring.max_loan(borrower);
        if max_loan == 0 {
            return Err(Error::NoScore);
        }
        if amount > max_loan {
            return Err(Error::ExceedsLimit);
        }
        proof {
            vstd::arithmetic::mul::lemma_mul_nonnegative(amount as int, self.interest_rate as int);
        }
        let scaled = match amount.checked_mul(self.interest_rate) {
            Some(v) => v,
            None => {
                return Err(Error::Overflow);
            },
        };
        proof {
            vstd::arithmetic::div_mod::lemma_div_pos_is_pos(scaled as int, BPS_DENOMINATOR as int);
        }
        let interest = scaled / BPS_DENOMINATOR;
        let total_amount = match amount.checked_add(interest) {
            Some(v) => v,
            None => {
                return Err(Error::Overflow);
            },
        };
        proof {
            lemma_payment_within_total(total_amount as int, num_payments as int);
        }
        let payment_amount = if num_payments == 1 {
            total_amount
        } else {
            total_amount / (num_payments as i128)
        };
        let loan_id = self.next_loan_id;
        let next_id = match loan_id.checked_add(1) {
            Some(v) => v,
            None => {
                return Err(Error::Overflow);
            },
        };
        match token.mint_loan(borrower, amount) {
            Ok(()) => {},
            Err(e) => {
                return Err(e);
            },
        }
        let loan = Loan {
            borrower,
            amount,
            total_amount,
            interest_rate: self.interest_rate,
            num_payments,
            paid_payments: 0,
            payment_amount,
            created_at: now,
            status: LoanStatus::Active,
        };
        self.loans.insert(loan_id, loan);
        self.borrower_index.insert(borrower, loan_id);
        self.next_loan_id = next_id;
        Ok(loan_id)
    }

    /// The error `pay_installment` answers, checked in order; `None` means
    /// success. Token ledger refusals come before the final-installment
    /// reward's, as the transfer precedes the reward.
    pub open spec fn pay_installment_error(
        self,
        scoring: CreditScoringMini,
        token: MockUSDC,
        caller: u64,
        borrower: u64,
        loan_id: u32,
    ) -> Option<Error> {
        if caller != borrower {
            Some(Error::Unauthorized)
        } else if !self.loans@.contains_key(loan_id) {
            Some(Error::NotFound)
        } else {
            let loan = self.loans@[loan_id];
            if loan.borrower != borrower {
                Some(Error::NotOwner)
            } else if !(loan.status is Active) {
                Some(Error::NotActive)
            } else if loan.paid_payments >= loan.num_payments {
                Some(Error::AlreadyPaid)
            } else {
                match token.transfer_error(borrower, borrower, self.address, loan.payment_amount) {
                    Some(e) => Some(e),
                    None => if loan.paid_payments + 1 == loan.num_payments {
                        scoring.reward_error(scoring.owner, borrower, REPAYMENT_REWARD)
                    } else {
                        None
                    },
                }
            }
        }
    }

    /// The loan record after one further installment on `loan`.
    pub open spec fn paid_loan(loan: Loan) -> Loan {
        Loan {
            borrower: loan.borrower,
            amount: loan.amount,
            total_amount: loan.total_amount,
            interest_rate: loan.interest_rate,
            num_payments: loan.num_payments,
            paid_payments: (loan.paid_payments + 1) as u32,
            payment_amount: loan.payment_amount,
            created_at: loan.created_at,
            status: if loan.paid_payments + 1 == loan.num_payments {
                LoanStatus::Repaid
            } else {
                LoanStatus::Active
            },
        }
    }

    /// Pay one installment of the borrower's loan: the token ledger moves
    /// the installment to the manager's holding account, progress advances,
    /// and the final installment sets the loan `Repaid` and rewards the
    /// borrower's score through the credit score ledger — with the ledger
    /// owner's standing, as its trusted caller — exactly once per loan. Any
    /// failure, including one of that reward, leaves every ledger untouched.
    pub fn pay_installment(
        &mut self,
        scoring: &mut CreditScoringMini,
        token: &mut MockUSDC,
        caller: u64,
        borrower: u64,
        loan_id: u32,
    ) -> (r: Result<(), Error>)
        requires
            old(self).wf(),
            old(scoring).wf(),
            old(token).wf(),
            old(scoring).address == old(self).credit_scoring,
            old(token).address == old(self).token_address,
        ensures
            final(self).wf(),
            final(scoring).wf(),
            final(token).wf(),
            r == (match old(self).pay_installment_error(*old(scoring), *old(token), caller, borrower, loan_id) {
                Some(e) => Err::<(), Error>(e),
                None => Ok::<(), Error>(()),
            }),
            r is Err ==> *final(self) == *old(self) && *final(scoring) == *old(scoring)
                && *final(token) == *old(token),
            r is Ok ==> {
                let loan = old(self).loans@[loan_id];
                let finishing = loan.paid_payments + 1 == loan.num_payments;
                &&& final(self).loans@ == old(self).loans@.insert(loan_id, Self::paid_loan(loan))
                &&& final(self).borrower_index@ == old(self).borrower_index@
                &&& final(self).next_loan_id == old(self).next_loan_id
                &&& old(self).same_config(*final(self))
                &&& transfer_effect(*old(token), *final(token), borrower, old(self).address, loan.payment_amount)
                &&& (final(self).loans@[loan_id].status is Repaid <==> finishing)
                &&& if finishing {
                    // the borrower's score rises by exactly the fixed reward
                    final(scoring).profiles@ == old(scoring).profiles@.insert(borrower, (CreditScore {
                        score: (old(scoring).profiles@[borrower].score + REPAYMENT_REWARD) as i128,
                        max_loan_amount: ((old(scoring).profiles@[borrower].score + REPAYMENT_REWARD)
                            * SCORE_TO_AMOUNT_RATIO) as i128,
                        blacklisted: old(scoring).profiles@[borrower].blacklisted,
                    })) && final(scoring).owner == old(scoring).owner
                        && final(scoring).address == old(scoring).address
                } else {
                    *final(scoring) == *old(scoring)
                }
            },
    {
        if caller != borrower {
            return Err(Error::Unauthorized);
        }
        let loan = match self.loans.get(&loan_id) {
            Some(l) => *l,
            None => {
                return Err(Error::NotFound);
            },
        };
        if loan.borrower != borrower {
            return Err(Error::NotOwner);
        }
        if loan.status != LoanStatus::Active {
            return Err(Error::NotActive);
        }
        if loan.paid_payments >= loan.num_payments {
            return Err(Error::AlreadyPaid);
        }
        let finishing = loan.paid_payments + 1 == loan.num_payments;
        // the transfer's own checks, before anything is mutated
        if loan.payment_amount <= 0 {
            return Err(Error::InvalidInput);
        }
        if token.balance(borrower) < loan.payment_amount {
            return Err(Error::InsufficientBalance);
        }
        let holding_balance = token.balance(self.address);
        match holding_balance.checked_add(loan.payment_amount) {
            Some(_) => {},
            None => {
                return Err(Error::Overflow);
            },
        }
        // the final installment's reward checks, before anything is mutated
        if finishing {
            let profile = match scoring.get_score(borrower) {
                Ok(p) => p,
                Err(_) => {
                    return Err(Error::NotFound);
                },
            };
            let rewarded = match profile.score.checked_add(REPAYMENT_REWARD) {
                Some(v) => v,
                None => {
                    return Err(Error::Overflow);
                },
            };
            match rewarded.checked_mul(SCORE_TO_AMOUNT_RATIO) {
                Some(_) => {},
                None => {
                    return Err(Error::Overflow);
                },
            }
        }
        // from here on nothing can fail
        let manager_address = self.address;
        let transferred = token.transfer(borrower, borrower, manager_address, loan.payment_amount);
        proof {
            assert(transferred is Ok);
        }
        let updated = Loan {
            borrower: loan.borrower,
            amount: loan.amount,
            total_amount: loan.total_amount,
            interest_rate: loan.interest_rate,
            num_payments: loan.num_payments,
            paid_payments: loan.paid_payments + 1,
            payment_amount: loan.payment_amount,
            created_at: loan.created_at,
            status: if finishing {
                LoanStatus::Repaid
            } else {
                LoanStatus::Active
            },
        };
        self.loans.insert(loan_id, updated);
        if finishing {
            let scoring_owner = scoring.get_owner();
            let rewarded = scoring.reward(scoring_owner, borrower, REPAYMENT_REWARD);
            proof {
                assert(rewarded is Ok);
            }
        }
        Ok(())
    }

    /// The loan recorded under `loan_id`; fails `NotFound` if absent.
    pub fn get_loan(&self, loan_id: u32) -> (r: Result<Loan, Error>)
        ensures
            self.loans@.contains_key(loan_id) ==> r == Ok::<Loan, Error>(self.loans@[loan_id]),
            !self.loans@.contains_key(loan_id) ==> r == Err::<Loan, Error>(Error::NotFound),
    {
        match self.loans.get(&loan_id) {
            Some(l) => Ok(*l),
            None => Err(Error::NotFound),
        }
    }

    /// The most recent loan id of `borrower`, if any — earlier ids were
    /// overwritten when later loans were requested.
    pub fn get_loan_id(&self, borrower: u64) -> (r: Option<u32>)
        ensures
            self.borrower_index@.contains_key(borrower)
                ==> r == Some(self.borrower_index@[borrower]),
            !self.borrower_index@.contains_key(borrower) ==> r is None,
    {
        match self.borrower_index.get(&borrower) {
            Some(id) => Some(*id),
            None => None,
        }
    }
}

/// Law: with a positive total and at least one installment, the floored
/// per-installment amount times the number of installments never exceeds
/// the total owed — the truncation remainder stays with the lender.
pub proof fn lemma_payment_within_total(total: int, num_payments: int)
    requires
        0 <= total,
        1 <= num_payments,
    ensures
        0 <= total / num_payments,
        (total / num_payments) * num_payments <= total,
        num_payments == 1 ==> total / num_payments == total,
    {
        vstd::arithmetic::div_mod::lemma_fundamental_div_mod(total, num_payments);
        vstd::arithmetic::div_mod::lemma_mod_bound(total, num_payments);
        vstd::arithmetic::div_mod::lemma_div_pos_is_pos(total, num_payments);
        vstd::arithmetic::mul::lemma_mul_is_commutative(num_payments, total / num_payments);
    }

} // verus!
