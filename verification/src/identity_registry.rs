//! Identity registry: a keyed record store holding, per wallet address, a
//! content identifier for off-chain personal data, the national document
//! number, and a verification level. It takes no part in the loan logic.

use vstd::prelude::*;
use std::collections::HashMap;
use crate::errors::Error;

verus! {

broadcast use vstd::std_specs::hash::group_hash_axioms;

/// The verification tiers a user can be assigned.
#[derive(Clone, Copy, Debug, PartialEq, Eq, Structural)]
pub enum VerificationLevel {
    Unverified,
    Level1,
    Level2,
    Level3,
}

impl VerificationLevel {
    /// The integer code under which a level is stored in a record.
    pub open spec fn spec_code(self) -> int {
        match self {
            VerificationLevel::Unverified => 0,
            VerificationLevel::Level1 => 1,
            VerificationLevel::Level2 => 2,
            VerificationLevel::Level3 => 3,
        }
    }

    /// The integer code under which a level is stored in a record.
    pub fn code(self) -> (r: i32)
        ensures
            r == self.spec_code(),
    {
        match self {
            VerificationLevel::Unverified => 0,
            VerificationLevel::Level1 => 1,
            VerificationLevel::Level2 => 2,
            VerificationLevel::Level3 => 3,
        }
    }
}

/// The record kept on-chain for one wallet: only the content identifier of
/// the off-chain data, the document number for duplicate checking, and the
/// verification standing.
#[derive(Clone, Debug)]
pub struct IdentityRecord {
    pub ipfs_cid: String,
    pub dni: String,
    pub verification_level: i32,
    pub verified: bool,
    pub created_at: i128,
}

/// The identity registry: a singleton owner, a user counter, and one record
/// per wallet address.
pub struct IdentityRegistry {
    pub owner: u64,
    pub total_users: i128,
    pub identities: HashMap<u64, IdentityRecord>,
}

impl IdentityRegistry {
    /// Every record's level is one of the four codes and the verified flag
    /// agrees with it; the user counter is nonnegative.
    pub open spec fn wf(self) -> bool {
        &&& 0 <= self.total_users
        &&& forall|u: u64| #[trigger] self.identities@.contains_key(u) ==> {
            let rec = self.identities@[u];
            0 <= rec.verification_level <= 3 && (rec.verified <==> rec.verification_level > 0)
        }
    }

    /// Whether a record exists for `user`.
    pub open spec fn spec_has_identity(self, user: u64) -> bool {
        self.identities@.contains_key(user)
    }

    /// Create the registry with its singleton owner and no records.
    pub fn initialize(owner: u64) -> (r: Self)
        ensures
            r.wf(),
            r.owner == owner,
            r.total_users == 0,
            r.identities@ == Map::<u64, IdentityRecord>::empty(),
    {
        IdentityRegistry { owner, total_users: 0, identities: HashMap::new() }
    }

    /// The singleton owner.
    pub fn get_owner(&self) -> (r: u64)
        ensures
            r == self.owner,
    {
        self.owner
    }

    /// The error `create_identity` answers, checked in order; `None` means
    /// success.
    pub open spec fn create_identity_error(self, caller: u64, user: u64) -> Option<Error> {
        if caller != user {
            Some(Error::Unauthorized)
        } else if self.identities@.contains_key(user) {
            Some(Error::AlreadyExists)
        } else if self.total_users + 1 > i128::MAX {
            Some(Error::Overflow)
        } else {
            None
        }
    }

    /// Record a new identity for `user`, starting unverified, and count the
    /// user. Fails `AlreadyExists` if the wallet already holds one. Checking
    /// the document number for duplicates is not implemented (`has_dni`);
    /// `now` is the ledger timestamp the host supplies.
    pub fn create_identity(&mut self, caller: u64, user: u64, dni: String, ipfs_cid: String, now: i128) -> (r: Result<(), Error>)
        requires
            old(self).wf(),
        ensures
            final(self).wf(),
            final(self).owner == old(self).owner,
            r == (match old(self).create_identity_error(caller, user) {
                Some(e) => Err::<(), Error>(e),
                None => Ok::<(), Error>(()),
            }),
            r is Err ==> *final(self) == *old(self),
            r is Ok ==> {
                &&& final(self).identities@ == old(self).identities@.insert(user, (IdentityRecord {
                    ipfs_cid,
                    dni,
                    verification_level: 0,
                    verified: false,
                    created_at: now,
                }))
                &&& final(self).total_users == old(self).total_users + 1
            },
    {
        if caller != user {
            return Err(Error::Unauthorized);
        }
        if self.identities.contains_key(&user) {
            return Err(Error::AlreadyExists);
        }
        let new_total = match self.total_users.checked_add(1) {
            Some(v) => v,
            None => {
                return Err(Error::Overflow);
            },
        };
        let record = IdentityRecord {
            ipfs_cid,
            dni,
            verification_level: 0,
            verified: false,
            created_at: now,
        };
        self.identities.insert(user, record);
        self.total_users = new_total;
        Ok(())
    }

    /// Whether the document number is already registered. Lookup by document
    /// number is not implemented — records are addressable by wallet only —
    /// so this reports `false` for every input.
    pub fn has_dni(&self, dni: &String) -> (r: bool)
        ensures
            r == false,
    {
        let _ = dni;
        false
    }

    /// The document number recorded for `user`; fails `NotFound` if absent.
    pub fn get_dni_by_address(&self, user: u64) -> (r: Result<&String, Error>)
        ensures
            self.spec_has_identity(user) ==> (r matches Ok(s) && s@ == self.identities@[user].dni@),
            !self.spec_has_identity(user) ==> (r matches Err(e) && e == Error::NotFound),
    {
        match self.identities.get(&user) {
            Some(rec) => Ok(&rec.dni),
            None => Err(Error::NotFound),
        }
    }

    /// The error `verify_user` answers, checked in order; `None` means
    /// success.
    pub open spec fn verify_user_error(self, caller: u64, user: u64, verification_level: i32) -> Option<Error> {
        if caller != self.owner {
            Some(Error::Unauthorized)
        } else if verification_level < 0 || verification_level > 3 {
            Some(Error::InvalidInput)
        } else if !self.identities@.contains_key(user) {
            Some(Error::NotFound)
        } else {
            None
        }
    }

    /// Assign `user` a verification level between 0 and 3; the verified flag
    /// follows from the level being positive. Owner-only.
    pub fn verify_user(&mut self, caller: u64, user: u64, verification_level: i32) -> (r: Result<(), Error>)
        requires
            old(self).wf(),
        ensures
            final(self).wf(),
            final(self).owner == old(self).owner,
            final(self).total_users == old(self).total_users,
            r == (match old(self).verify_user_error(caller, user, verification_level) {
                Some(e) => Err::<(), Error>(e),
                None => Ok::<(), Error>(()),
            }),
            r is Err ==> *final(self) == *old(self),
            r is Ok ==> final(self).identities@ == old(self).identities@.insert(user, (IdentityRecord {
                ipfs_cid: old(self).identities@[user].ipfs_cid,
                dni: old(self).identities@[user].dni,
                verification_level,
                verified: verification_level > 0,
                created_at: old(self).identities@[user].created_at,
            })),
    {
        if caller != self.owner {
            return Err(Error::Unauthorized);
        }
        if verification_level < 0 || verification_level > 3 {
            return Err(Error::InvalidInput);
        }
        if !self.identities.contains_key(&user) {
            return Err(Error::NotFound);
        }
        let record = match self.identities.remove(&user) {
            Some(rec) => rec,
            None => {
                proof {
                    assert(false);
                }
                return Err(Error::NotFound);
            },
        };
        let updated = IdentityRecord {
            ipfs_cid: record.ipfs_cid,
            dni: record.dni,
            verification_level,
            verified: verification_level > 0,
            created_at: record.created_at,
        };
        let ghost updated_record = updated;
        self.identities.insert(user, updated);
        proof {
            assert(self.identities@ =~= old(self).identities@.insert(user, updated_record));
        }
        Ok(())
    }

    /// Whether `user` has an identity on record.
    pub fn has_identity(&self, user: u64) -> (r: bool)
        ensures
            r == self.spec_has_identity(user),
    {
        self.identities.contains_key(&user)
    }

    /// The full record of `user`; fails `NotFound` if absent.
    pub fn get_identity(&self, user: u64) -> (r: Result<&IdentityRecord, Error>)
        ensures
            self.spec_has_identity(user) ==> (r matches Ok(rec) && *rec == self.identities@[user]),
            !self.spec_has_identity(user) ==> (r matches Err(e) && e == Error::NotFound),
    {
        match self.identities.get(&user) {
            Some(rec) => Ok(rec),
            None => Err(Error::NotFound),
        }
    }

    /// The content identifier of `user`'s off-chain data; fails `NotFound`
    /// if absent.
    pub fn get_ipfs_cid(&self, user: u64) -> (r: Result<&String, Error>)
        ensures
            self.spec_has_identity(user) ==> (r matches Ok(s) && s@ == self.identities@[user].ipfs_cid@),
            !self.spec_has_identity(user) ==> (r matches Err(e) && e == Error::NotFound),
    {
        match self.identities.get(&user) {
            Some(rec) => Ok(&rec.ipfs_cid),
            None => Err(Error::NotFound),
        }
    }

    /// The verification level of `user`; fails `NotFound` if absent.
    pub fn get_verification_level(&self, user: u64) -> (r: Result<i32, Error>)
        ensures
            self.spec_has_identity(user)
                ==> r == Ok::<i32, Error>(self.identities@[user].verification_level),
            !self.spec_has_identity(user) ==> r == Err::<i32, Error>(Error::NotFound),
    {
        match self.identities.get(&user) {
            Some(rec) => Ok(rec.verification_level),
            None => Err(Error::NotFound),
        }
    }

    /// How many users have registered.
    pub fn get_total_users(&self) -> (r: i128)
        ensures
            r == self.total_users,
    {
        self.total_users
    }

    /// Whether `user` is verified; `false` (not an error) if no record.
    pub fn is_verified(&self, user: u64) -> (r: bool)
        ensures
            r == (self.spec_has_identity(user) && self.identities@[user].verified),
    {
        match self.identities.get(&user) {
            Some(rec) => rec.verified,
            None => false,
        }
    }

    /// When `user`'s record was created; fails `NotFound` if absent.
    pub fn get_created_at(&self, user: u64) -> (r: Result<i128, Error>)
        ensures
            self.spec_has_identity(user)
                ==> r == Ok::<i128, Error>(self.identities@[user].created_at),
            !self.spec_has_identity(user) ==> r == Err::<i128, Error>(Error::NotFound),
    {
        match self.identities.get(&user) {
            Some(rec) => Ok(rec.created_at),
            None => Err(Error::NotFound),
        }
    }
}

} // verus!
