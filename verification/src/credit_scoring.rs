//! Credit score ledger: each borrower's score, derived credit limit, and
//! blacklist flag.
//!
//! Invariant (`wf`): immediately after any mutation every profile has
//! `score >= 0` and `max_loan_amount == score * SCORE_TO_AMOUNT_RATIO`.
//! The blacklist flag is permanent: once set, no operation ever clears it.

use vstd::prelude::*;
use std::collections::HashMap;
use crate::errors::Error;

verus! {

broadcast use vstd::std_specs::hash::group_hash_axioms;

/// Score a newly initialized borrower starts with.
pub const INITIAL_SCORE: i128 = 300;

/// Conversion factor from score points to the smallest monetary unit:
/// one score point is worth 3.333333 units of a six-decimal token, so a
/// starting score of 300 grants a limit of 999,999,900 smallest units.
pub const SCORE_TO_AMOUNT_RATIO: i128 = 3_333_333;

/// One borrower's credit standing.
#[derive(Clone, Copy, Debug, PartialEq, Eq, Structural)]
pub struct CreditScore {
    pub score: i128,
    pub max_loan_amount: i128,
    pub blacklisted: bool,
}

/// The credit score ledger: a singleton owner and one profile per borrower,
/// looked up by the borrower's address. `address` is the ledger's own
/// principal, the one the loan manager is configured with.
pub struct CreditScoringMini {
    pub address: u64,
    pub owner: u64,
    pub profiles: HashMap<u64, CreditScore>,
}

impl CreditScoringMini {
    /// Every profile on record is internally consistent: the score is
    /// nonnegative and the credit limit is derived from it by the fixed ratio.
    pub open spec fn wf(self) -> bool {
        forall|u: u64| #[trigger] self.profiles@.contains_key(u) ==> {
            let p = self.profiles@[u];
            0 <= p.score && p.max_loan_amount == p.score * SCORE_TO_AMOUNT_RATIO
        }
    }

    /// Whether a profile exists for `user`.
    pub open spec fn spec_has_score(self, user: u64) -> bool {
        self.profiles@.contains_key(user)
    }

    /// The credit limit reported for `user`: the profile's limit, or 0 when
    /// no profile exists.
    pub open spec fn spec_max_loan(self, user: u64) -> int {
        if self.profiles@.contains_key(user) {
            self.profiles@[user].max_loan_amount as int
        } else {
            0
        }
    }

    /// Whether `user` is blacklisted; an uninitialized user is not.
    pub open spec fn spec_is_blk(self, user: u64) -> bool {
        self.profiles@.contains_key(user) && self.profiles@[user].blacklisted
    }

    /// The error `reward` answers, checked in order; `None` means success.
    pub open spec fn reward_error(self, caller: u64, user: u64, points: i128) -> Option<Error> {
        if caller != self.owner {
            Some(Error::Unauthorized)
        } else if points <= 0 {
            Some(Error::InvalidInput)
        } else if !self.profiles@.contains_key(user) {
            Some(Error::NotFound)
        } else if self.profiles@[user].score + points > i128::MAX
            || (self.profiles@[user].score + points) * SCORE_TO_AMOUNT_RATIO > i128::MAX {
            Some(Error::Overflow)
        } else {
            None
        }
    }

    /// The error `penalize_user` answers, checked in order; `None` means
    /// success. Penalizing never overflows: the score only shrinks.
    pub open spec fn penalize_error(self, caller: u64, user: u64, points: i128) -> Option<Error> {
        if caller != self.owner {
            Some(Error::Unauthorized)
        } else if points <= 0 {
            Some(Error::InvalidInput)
        } else if !self.profiles@.contains_key(user) {
            Some(Error::NotFound)
        } else {
            None
        }
    }

    /// Create the ledger at its own address, with its singleton owner and no
    /// profiles.
    pub fn initialize(address: u64, owner: u64) -> (r: Self)
        ensures
            r.wf(),
            r.address == address,
            r.owner == owner,
            r.profiles@ == Map::<u64, CreditScore>::empty(),
    {
        CreditScoringMini { address, owner, profiles: HashMap::new() }
    }

    /// The singleton owner.
    pub fn get_owner(&self) -> (r: u64)
        ensures
            r == self.owner,
    {
        self.owner
    }

    /// Create the starting profile for a new user: score 300, the derived
    /// limit, not blacklisted. Fails `AlreadyExists` if the user already has
    /// one; a profile is created at most once and never deleted.
    pub fn initialize_user(&mut self, user: u64) -> (r: Result<(), Error>)
        requires
            old(self).wf(),
        ensures
            final(self).wf(),
            final(self).address == old(self).address,
            final(self).owner == old(self).owner,
            r is Err <==> old(self).profiles@.contains_key(user),
            r is Err ==> r == Err::<(), Error>(Error::AlreadyExists) && *final(self) == *old(self),
            r is Ok ==> final(self).profiles@ == old(self).profiles@.insert(user, (CreditScore {
                score: INITIAL_SCORE,
                max_loan_amount: (INITIAL_SCORE * SCORE_TO_AMOUNT_RATIO) as i128,
                blacklisted: false,
            })),
    {
        if self.profiles.contains_key(&user) {
            return Err(Error::AlreadyExists);
        }
        let max_loan_amount = INITIAL_SCORE * SCORE_TO_AMOUNT_RATIO;
        let score = CreditScore { score: INITIAL_SCORE, max_loan_amount, blacklisted: false };
        self.profiles.insert(user, score);
        Ok(())
    }

    /// Whether `user` has a credit score on record.
    pub fn has_score(&self, user: u64) -> (r: bool)
        ensures
            r == self.spec_has_score(user),
    {
        self.profiles.contains_key(&user)
    }

    /// The full profile of `user`; fails `NotFound` if absent.
    pub fn get_score(&self, user: u64) -> (r: Result<CreditScore, Error>)
        ensures
            self.spec_has_score(user) ==> r == Ok::<CreditScore, Error>(self.profiles@[user]),
            !self.spec_has_score(user) ==> r == Err::<CreditScore, Error>(Error::NotFound),
    {
        match self.profiles.get(&user) {
            Some(p) => Ok(*p),
            None => Err(Error::NotFound),
        }
    }

    /// The score of `user`; fails `NotFound` if absent.
    pub fn get_score_value(&self, user: u64) -> (r: Result<i128, Error>)
        ensures
            self.spec_has_score(user) ==> r == Ok::<i128, Error>(self.profiles@[user].score),
            !self.spec_has_score(user) ==> r == Err::<i128, Error>(Error::NotFound),
    {
        match self.profiles.get(&user) {
            Some(p) => Ok(p.score),
            None => Err(Error::NotFound),
        }
    }

    /// The credit limit of `user`, or 0 (not an error) if uninitialized.
    pub fn max_loan(&self, user: u64) -> (r: i128)
        ensures
            r == self.spec_max_loan(user),
    {
        match self.profiles.get(&user) {
            Some(p) => p.max_loan_amount,
            None => 0,
        }
    }

    /// Whether `user` is blacklisted; `false` (not an error) if uninitialized.
    pub fn is_blk(&self, user: u64) -> (r: bool)
        ensures
            r == self.spec_is_blk(user),
    {
        match self.profiles.get(&user) {
            Some(p) => p.blacklisted,
            None => false,
        }
    }

    /// Increase `user`'s score by `points` and rederive the credit limit.
    /// Owner-only; `points` must be positive; the blacklist flag is carried
    /// over unchanged — a reward never clears it.
    pub fn reward(&mut self, caller: u64, user: u64, points: i128) -> (r: Result<(), Error>)
        requires
            old(self).wf(),
        ensures
            final(self).wf(),
            final(self).address == old(self).address,
            final(self).owner == old(self).owner,
            r == (match old(self).reward_error(caller, user, points) {
                Some(e) => Err::<(), Error>(e),
                None => Ok::<(), Error>(()),
            }),
            r is Err ==> *final(self) == *old(self),
            r is Ok ==> final(self).profiles@ == old(self).profiles@.insert(user, (CreditScore {
                score: (old(self).profiles@[user].score + points) as i128,
                max_loan_amount:
                    ((old(self).profiles@[user].score + points) * SCORE_TO_AMOUNT_RATIO) as i128,
                blacklisted: old(self).profiles@[user].blacklisted,
            })),
            // a blacklisted profile stays blacklisted
            forall|u: u64| #[trigger] old(self).profiles@.contains_key(u)
                && old(self).profiles@[u].blacklisted
                ==> final(self).profiles@.contains_key(u) && final(self).profiles@[u].blacklisted,
    {
        if caller != self.owner {
            return Err(Error::Unauthorized);
        }
        if points <= 0 {
            return Err(Error::InvalidInput);
        }
        let p = match self.profiles.get(&user) {
            Some(p) => *p,
            None => {
                return Err(Error::NotFound);
            },
        };
        let new_score = match p.score.checked_add(points) {
            Some(v) => v,
            None => {
                return Err(Error::Overflow);
            },
        };
        let new_max = match new_score.checked_mul(SCORE_TO_AMOUNT_RATIO) {
            Some(v) => v,
            None => {
                return Err(Error::Overflow);
            },
        };
        let updated = CreditScore { score: new_score, max_loan_amount: new_max, blacklisted: p.blacklisted };
        self.profiles.insert(user, updated);
        Ok(())
    }

    /// Decrease `user`'s score by `points`; a result below zero clamps to 0
    /// and sets the blacklist flag permanently. The credit limit is rederived
    /// either way. Owner-only; `points` must be positive.
    pub fn penalize_user(&mut self, caller: u64, user: u64, points: i128) -> (r: Result<(), Error>)
        requires
            old(self).wf(),
        ensures
            final(self).wf(),
            final(self).address == old(self).address,
            final(self).owner == old(self).owner,
            r == (match old(self).penalize_error(caller, user, points) {
                Some(e) => Err::<(), Error>(e),
                None => Ok::<(), Error>(()),
            }),
            r is Err ==> *final(self) == *old(self),
            r is Ok ==> ({
                let p = old(self).profiles@[user];
                let clamped = p.score - points < 0;
                let new_score: i128 = if clamped { 0 } else { (p.score - points) as i128 };
                final(self).profiles@ == old(self).profiles@.insert(user, (CreditScore {
                    score: new_score,
                    max_loan_amount: (new_score * SCORE_TO_AMOUNT_RATIO) as i128,
                    blacklisted: p.blacklisted || clamped,
                }))
            }),
            // a blacklisted profile stays blacklisted
            forall|u: u64| #[trigger] old(self).profiles@.contains_key(u)
                && old(self).profiles@[u].blacklisted
                ==> final(self).profiles@.contains_key(u) && final(self).profiles@[u].blacklisted,
    {
        if caller != self.owner {
            return Err(Error::Unauthorized);
        }
        if points <= 0 {
            return Err(Error::InvalidInput);
        }
        let p = match self.profiles.get(&user) {
            Some(p) => *p,
            None => {
                return Err(Error::NotFound);
            },
        };
        let mut new_score: i128 = p.score - points;
        let mut blacklisted = p.blacklisted;
        if new_score < 0 {
            new_score = 0;
            blacklisted = true;
        }
        proof {
            // the score only shrinks, so the rederived limit stays in range
            vstd::arithmetic::mul::lemma_mul_inequality(
                new_score as int,
                p.score as int,
                SCORE_TO_AMOUNT_RATIO as int,
            );
        }
        let new_max = new_score * SCORE_TO_AMOUNT_RATIO;
        let updated = CreditScore { score: new_score, max_loan_amount: new_max, blacklisted };
        self.profiles.insert(user, updated);
        Ok(())
    }

    /// Hand the singleton ownership to `new_owner`. Owner-only.
    pub fn transfer_ownership(&mut self, caller: u64, new_owner: u64) -> (r: Result<(), Error>)
        requires
            old(self).wf(),
        ensures
            final(self).wf(),
            final(self).address == old(self).address,
            final(self).profiles@ == old(self).profiles@,
            caller != old(self).owner ==> r == Err::<(), Error>(Error::Unauthorized)
                && *final(self) == *old(self),
            caller == old(self).owner ==> r == Ok::<(), Error>(())
                && final(self).owner == new_owner,
    {
        if caller != self.owner {
            return Err(Error::Unauthorized);
        }
        self.owner = new_owner;
        Ok(())
    }
}

/// Law: in a well-formed ledger every profile has a nonnegative score and a
/// credit limit equal to the score times the fixed conversion ratio. Every
/// mutating operation of the ledger ensures well-formedness, so this holds
/// immediately after any mutation.
pub proof fn lemma_profile_invariant(s: CreditScoringMini, user: u64)
    requires
        s.wf(),
        s.profiles@.contains_key(user),
    ensures
        0 <= s.profiles@[user].score,
        s.profiles@[user].max_loan_amount == s.profiles@[user].score * SCORE_TO_AMOUNT_RATIO,
{
}

} // verus!
