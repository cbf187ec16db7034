//! The callback: the oracle delivers the randomness, the handler
//! authenticates the invoker and commits the value.

use crate::errors::VrfError;
use crate::identity::{lemma_identity_by_bytes, Identity};
use crate::oracle::{oracle_identity_bytes, random_u64, random_value, vrf_program_identity};
use crate::state::{LedgerAccount, UserAccount};
use vstd::prelude::*;

verus! {

/// What the callback is invoked with.
#[derive(Clone, Copy, Debug, PartialEq, Eq)]
pub struct ConsumeRandomness {
    /// The identity that invokes the callback. Only the oracle's own is
    /// accepted.
    pub vrf_program_identity: Identity,
    /// The account that receives the random value.
    pub user_account: LedgerAccount,
}

impl ConsumeRandomness {
    /// Whether the invoker is the oracle.
    pub open spec fn authorized(&self) -> bool {
        self.vrf_program_identity@ == oracle_identity_bytes()
    }

    /// The invocation with `value` written into the account's `data`, and
    /// nothing else changed.
    pub open spec fn with_data(self, value: u64) -> ConsumeRandomness {
        ConsumeRandomness {
            vrf_program_identity: self.vrf_program_identity,
            user_account: LedgerAccount {
                address: self.user_account.address,
                state: UserAccount { bump: self.user_account.state.bump, data: value },
            },
        }
    }

    /// What the callback leaves behind and what it answers: for the oracle,
    /// the value of the payload in `data`; for anyone else, a refusal and the
    /// invocation as it was.
    pub open spec fn outcome(self, randomness: Seq<u8>) -> (ConsumeRandomness, Result<(), VrfError>) {
        if self.authorized() {
            (self.with_data(random_value(randomness) as u64), Ok(()))
        } else {
            (self, Err(VrfError::Unauthorized))
        }
    }

    /// Commits the delivered randomness: checks that the invoker is the
    /// oracle, before anything is written, and then overwrites `data` with the
    /// value of the payload.
    pub fn consume(&mut self, randomness: [u8; 32]) -> (res: Result<(), VrfError>)
        ensures
            (*final(self), res) == old(self).outcome(randomness@),
    {
        let oracle = vrf_program_identity();
        if !self.vrf_program_identity.same_as(&oracle) {
            proof {
                if self.vrf_program_identity@ == oracle@ {
                    lemma_identity_by_bytes(self.vrf_program_identity, oracle);
                }
            }
            return Err(VrfError::Unauthorized);
        }
        let random_value = random_u64(&randomness);
        self.user_account.state.data = random_value;
        Ok(())
    }
}

/// The value of a 32-byte payload fits in 64 bits.
pub proof fn lemma_random_value_fits(randomness: Seq<u8>)
    requires
        randomness.len() == 32,
    ensures
        0 <= random_value(randomness) <= u64::MAX,
{
}

/// Invoked by the oracle, the callback succeeds on every 32-byte payload and
/// sets `data` to the value of the payload; the bump, the address and the
/// invoker stay as they were.
pub proof fn lemma_oracle_callback_commits(ctx: ConsumeRandomness, randomness: Seq<u8>)
    requires
        ctx.authorized(),
        randomness.len() == 32,
    ensures
        ctx.outcome(randomness).1 == Ok::<(), VrfError>(()),
        ctx.outcome(randomness).0.user_account.state.data == random_value(randomness),
        ctx.outcome(randomness).0.user_account.state.bump == ctx.user_account.state.bump,
        ctx.outcome(randomness).0.user_account.address == ctx.user_account.address,
        ctx.outcome(randomness).0.vrf_program_identity == ctx.vrf_program_identity,
{
    lemma_random_value_fits(randomness);
}

/// The same payload gives the same `data`, whatever the account held before
/// and whichever account receives it.
pub proof fn lemma_same_payload_same_data(
    first: ConsumeRandomness,
    second: ConsumeRandomness,
    randomness: Seq<u8>,
)
    requires
        first.authorized(),
        second.authorized(),
    ensures
        first.outcome(randomness).0.user_account.state.data == second.outcome(
            randomness,
        ).0.user_account.state.data,
{
}

/// A second callback overwrites the first: after two payloads the account
/// holds the value of the later one, and the same payload twice leaves the
/// account as one delivery of it does.
pub proof fn lemma_later_callback_overwrites(
    ctx: ConsumeRandomness,
    earlier: Seq<u8>,
    later: Seq<u8>,
)
    requires
        ctx.authorized(),
    ensures
        ctx.outcome(earlier).0.outcome(later) == ctx.outcome(later),
        ctx.outcome(later).0.outcome(later) == ctx.outcome(later),
{
}

/// Invoked by anyone but the oracle, the callback fails with `Unauthorized`
/// on every payload and leaves the invocation, `data` included, as it was.
pub proof fn lemma_stranger_callback_is_refused(ctx: ConsumeRandomness, randomness: Seq<u8>)
    requires
        !ctx.authorized(),
    ensures
        ctx.outcome(randomness) == (ctx, Err::<(), VrfError>(VrfError::Unauthorized)),
        ctx.outcome(randomness).0.user_account.state.data == ctx.user_account.state.data,
{
}

} // verus!
