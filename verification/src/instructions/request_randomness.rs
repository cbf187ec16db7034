//! The request: on behalf of a user, one ask is built and handed over for
//! dispatch to the oracle's queue.

use crate::derivation::{found_program_address, try_find_program_address};
use crate::errors::VrfError;
use crate::identity::Identity;
use crate::oracle::{
    create_request_randomness_ix, identity_seed_tag, request_instruction, AccountRef, Instruction,
    InstructionView, RandomnessRequest, RandomnessRequestView,
};
use crate::state::LedgerAccount;
use vstd::prelude::*;

verus! {

/// The selector of the callback entry point: the first eight bytes of the
/// SHA-256 hash of `global:consume_randomness`.
pub const CONSUME_RANDOMNESS_SELECTOR: [u8; 8] = [190, 217, 49, 162, 99, 26, 73, 234];

/// The selector as a sequence of bytes.
pub open spec fn consume_randomness_selector() -> Seq<u8> {
    seq![190u8, 217u8, 49u8, 162u8, 99u8, 26u8, 73u8, 234u8]
}

/// What a request is invoked with.
#[derive(Clone, Copy, Debug, PartialEq, Eq)]
pub struct RequestRandomness {
    /// This program's own identity: it derives the user accounts and is the
    /// target of the callback.
    pub program: Identity,
    /// The user on whose behalf the request is made.
    pub user: Identity,
    /// The user's state account.
    pub user_account: LedgerAccount,
    /// The oracle queue that is to serve the request.
    pub oracle_queue: Identity,
}

impl RequestRandomness {
    /// Whether the user account is the one derived for the user.
    pub open spec fn account_is_derived(&self) -> bool {
        self.user_account.derived_for(self.user, self.program)
    }

    /// Whether this program has a signing authority towards the oracle.
    pub open spec fn can_sign(&self) -> bool {
        found_program_address(seq![identity_seed_tag()], self.program@) is Some
    }

    /// The request that this invocation makes with `client_seed`: paid by the
    /// user, addressed to the queue, calling this program back at the callback
    /// entry point, seeded with the client byte 32 times over, and naming one
    /// account for the callback, at the user's identity, not signing and
    /// writable.
    pub open spec fn payload(&self, client_seed: u8) -> RandomnessRequestView {
        RandomnessRequestView {
            payer: self.user,
            oracle_queue: self.oracle_queue,
            callback_program: self.program,
            callback_selector: consume_randomness_selector(),
            caller_seed: Seq::new(32, |i: int| client_seed),
            accounts: seq![
                AccountRef { address: self.user, is_signer: false, is_writable: true },
            ],
        }
    }

    /// Builds the request of this invocation.
    pub fn build_request(&self, client_seed: u8) -> (request: RandomnessRequest)
        ensures
            request@ == self.payload(client_seed),
    {
        let mut accounts: Vec<AccountRef> = Vec::new();
        accounts.push(AccountRef { address: self.user, is_signer: false, is_writable: true });
        let request = RandomnessRequest {
            payer: self.user,
            oracle_queue: self.oracle_queue,
            callback_program: self.program,
            callback_selector: CONSUME_RANDOMNESS_SELECTOR,
            caller_seed: [client_seed; 32],
            accounts,
        };
        proof {
            assert(request@.callback_selector =~= consume_randomness_selector());
            assert(request@.caller_seed =~= Seq::new(32, |i: int| client_seed));
            assert(request@.accounts =~= self.payload(client_seed).accounts);
        }
        request
    }

    /// What a request made with `client_seed` answers: the instruction that
    /// carries the payload to the oracle where the user account is the derived
    /// one, a refusal where it is not.
    pub open spec fn answer(&self, client_seed: u8) -> Result<InstructionView, VrfError> {
        if self.account_is_derived() {
            Ok(request_instruction(self.payload(client_seed)))
        } else {
            Err(VrfError::InvalidAccountDerivation)
        }
    }

    /// Requests randomness from the oracle: validates the user account's
    /// address, builds the request and returns the instruction to dispatch.
    /// Nothing is returned for dispatch where the account is refused, and
    /// the invocation itself is left as it was.
    pub fn request(&mut self, client_seed: u8) -> (res: Result<Instruction, VrfError>)
        requires
            old(self).account_is_derived() ==> old(self).can_sign(),
        ensures
            *final(self) == *old(self),
            instruction_answer(res) == old(self).answer(client_seed),
    {
        match self.user_account.check_derivation(&self.user, &self.program) {
            Err(e) => Err(e),
            Ok(()) => {
                let request = self.build_request(client_seed);
                Ok(create_request_randomness_ix(&request))
            },
        }
    }

    /// What a request answers that first looks for the signing authority:
    /// nothing where the user account is the derived one and the program has
    /// no authority, else the answer of the request.
    pub open spec fn checked_answer(&self, client_seed: u8) -> Option<
        Result<InstructionView, VrfError>,
    > {
        if self.account_is_derived() && !self.can_sign() {
            None
        } else {
            Some(self.answer(client_seed))
        }
    }

    /// Requests randomness as `request` does, after looking for this
    /// program's signing authority; `None` where the user account is the
    /// derived one and the program has no such authority, so that no
    /// instruction can be built.
    pub fn try_request(&mut self, client_seed: u8) -> (res: Option<Result<Instruction, VrfError>>)
        ensures
            *final(self) == *old(self),
            match res {
                Some(r) => Some(instruction_answer(r)),
                None => None,
            } == old(self).checked_answer(client_seed),
    {
        if self.user_account.check_derivation(&self.user, &self.program).is_ok() {
            let mut seeds: Vec<Vec<u8>> = Vec::new();
            seeds.push(identity_tag());
            proof {
                assert(seeds.deep_view().len() == 1);
                assert(seeds.deep_view()[0] =~= identity_seed_tag());
                assert(seeds.deep_view() =~= seq![identity_seed_tag()]);
            }
            if try_find_program_address(&seeds, &self.program).is_none() {
                return None;
            }
        }
        Some(self.request(client_seed))
    }

    /// Turns the outcome of the dispatch into the outcome of the invocation: a
    /// rejection is passed on as it came, with its code.
    pub fn conclude(dispatch: Result<(), u64>) -> (res: Result<(), VrfError>)
        ensures
            res == dispatch_answer(dispatch),
    {
        match dispatch {
            Ok(()) => Ok(()),
            Err(code) => Err(VrfError::UpstreamDispatchFailure { code }),
        }
    }
}

/// An answer with its instruction as a mathematical value.
pub open spec fn instruction_answer(res: Result<Instruction, VrfError>) -> Result<
    InstructionView,
    VrfError,
> {
    match res {
        Ok(ix) => Ok(ix@),
        Err(e) => Err(e),
    }
}

/// What an invocation answers once its instruction was dispatched with the
/// given outcome.
pub open spec fn dispatch_answer(dispatch: Result<(), u64>) -> Result<(), VrfError> {
    match dispatch {
        Ok(_) => Ok(()),
        Err(code) => Err(VrfError::UpstreamDispatchFailure { code }),
    }
}

/// The bytes of the word "identity".
fn identity_tag() -> (tag: Vec<u8>)
    ensures
        tag@ == identity_seed_tag(),
{
    let mut tag: Vec<u8> = Vec::new();
    tag.push(105u8);
    tag.push(100u8);
    tag.push(101u8);
    tag.push(110u8);
    tag.push(116u8);
    tag.push(105u8);
    tag.push(116u8);
    tag.push(121u8);
    assert(tag@ =~= identity_seed_tag());
    tag
}

/// Where the user account is the one derived for the user with the stored
/// bump, the request succeeds, with the instruction of a payload that names
/// exactly one account for the callback: the user's identity, not signing,
/// writable.
pub proof fn lemma_derived_account_is_served(ctx: RequestRandomness, client_seed: u8)
    requires
        ctx.account_is_derived(),
    ensures
        ctx.answer(client_seed) == Ok::<InstructionView, VrfError>(
            request_instruction(ctx.payload(client_seed)),
        ),
        ctx.payload(client_seed).accounts.len() == 1,
        ctx.payload(client_seed).accounts[0] == (AccountRef {
            address: ctx.user,
            is_signer: false,
            is_writable: true,
        }),
{
}

/// Where, besides, the user account is loaded from the user's own identity,
/// the one account named for the callback is the user account: its address,
/// not signing, writable.
pub proof fn lemma_callback_account_is_user_account(ctx: RequestRandomness, client_seed: u8)
    requires
        ctx.account_is_derived(),
        ctx.user_account.address == ctx.user,
    ensures
        ctx.answer(client_seed) is Ok,
        ctx.payload(client_seed).accounts == seq![
            AccountRef { address: ctx.user_account.address, is_signer: false, is_writable: true },
        ],
{
}

/// Where the user account is not the one derived for the user with the
/// stored bump, the request fails with `InvalidAccountDerivation`, whether or
/// not the signing authority is looked for first, and no instruction comes
/// back for dispatch.
pub proof fn lemma_underived_account_is_refused(ctx: RequestRandomness, client_seed: u8)
    requires
        !ctx.account_is_derived(),
    ensures
        ctx.answer(client_seed) == Err::<InstructionView, VrfError>(
            VrfError::InvalidAccountDerivation,
        ),
        ctx.checked_answer(client_seed) == Some(
            Err::<InstructionView, VrfError>(VrfError::InvalidAccountDerivation),
        ),
{
}

} // verus!
