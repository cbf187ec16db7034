//! The user's durable state slot and the rule that fixes its address.

use crate::derivation::{create_program_address, program_address};
use crate::errors::VrfError;
use crate::identity::Identity;
use vstd::prelude::*;

verus! {

/// The fixed tag that every user account's address is derived from: the bytes
/// of the word "user".
pub open spec fn user_seed_tag() -> Seq<u8> {
    seq![117u8, 115u8, 101u8, 114u8]
}

/// The seeds of a user account, in order: the tag, the user's identity, the
/// bump.
pub open spec fn user_account_seeds(user: Identity, bump: u8) -> Seq<Seq<u8>> {
    seq![user_seed_tag(), user@, seq![bump]]
}

/// What one user's state slot holds.
#[derive(Clone, Copy, Debug, PartialEq, Eq)]
pub struct UserAccount {
    /// The salt byte with which the account's address is derived.
    pub bump: u8,
    /// The random outcome consumed last.
    pub data: u64,
}

/// A user's state slot as an invocation sees it: the contents and the address
/// they were loaded from.
#[derive(Clone, Copy, Debug, PartialEq, Eq)]
pub struct LedgerAccount {
    pub address: Identity,
    pub state: UserAccount,
}

impl LedgerAccount {
    /// Whether this account sits at the address that `program` derives for
    /// `user` with the stored bump.
    pub open spec fn derived_for(&self, user: Identity, program: Identity) -> bool {
        program_address(user_account_seeds(user, self.state.bump), program@) == Some(
            self.address@,
        )
    }

    /// Builds the seeds of the account that `user` owns with the stored bump.
    pub fn seeds(&self, user: &Identity) -> (seeds: Vec<Vec<u8>>)
        ensures
            seeds.deep_view() == user_account_seeds(*user, self.state.bump),
    {
        let mut tag: Vec<u8> = Vec::new();
        tag.push(117u8);
        tag.push(115u8);
        tag.push(101u8);
        tag.push(114u8);
        let mut owner: Vec<u8> = Vec::new();
        let mut i: usize = 0;
        while i < 32
            invariant
                i <= 32,
                owner@ == user@.subrange(0, i as int),
            decreases 32 - i,
        {
            owner.push(user.bytes[i]);
            i += 1;
        }
        let mut salt: Vec<u8> = Vec::new();
        salt.push(self.state.bump);
        let mut seeds: Vec<Vec<u8>> = Vec::new();
        seeds.push(tag);
        seeds.push(owner);
        seeds.push(salt);
        proof {
            let expected = user_account_seeds(*user, self.state.bump);
            assert(seeds.deep_view().len() == 3);
            assert(seeds.deep_view()[0] =~= expected[0]);
            assert(seeds.deep_view()[1] =~= expected[1]);
            assert(seeds.deep_view()[2] =~= expected[2]);
            assert(seeds.deep_view() =~= expected);
        }
        seeds
    }

    /// Recomputes the address from the tag, the user and the stored bump, and
    /// compares it with the address the account was loaded from.
    pub fn check_derivation(&self, user: &Identity, program: &Identity) -> (res: Result<
        (),
        VrfError,
    >)
        ensures
            self.derived_for(*user, *program) ==> res == Ok::<(), VrfError>(()),
            !self.derived_for(*user, *program) ==> res == Err::<(), VrfError>(
                VrfError::InvalidAccountDerivation,
            ),
    {
        let seeds = self.seeds(user);
        match create_program_address(&seeds, program) {
            Some(address) => {
                if address.same_as(&self.address) {
                    Ok(())
                } else {
                    proof {
                        if address@ == self.address@ {
                            crate::identity::lemma_identity_by_bytes(address, self.address);
                        }
                    }
                    Err(VrfError::InvalidAccountDerivation)
                }
            },
            None => Err(VrfError::InvalidAccountDerivation),
        }
    }
}

} // verus!
