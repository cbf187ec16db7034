//! The randomness oracle as this library meets it: its fixed identity, the
//! request it accepts, and the value it delivers.

use crate::derivation::found_program_address;
use crate::identity::Identity;
use ephemeral_vrf_sdk::consts::VRF_PROGRAM_IDENTITY;
use ephemeral_vrf_sdk::instructions::{self, RequestRandomnessParams};
use ephemeral_vrf_sdk::types::SerializableAccountMeta;
use vstd::prelude::*;

verus! {

/// The bytes of the oracle program's execution identity.
pub open spec fn oracle_identity_bytes() -> Seq<u8> {
    seq![
        129u8, 149u8, 237u8, 71u8, 27u8, 236u8, 243u8, 116u8,
        219u8, 84u8, 34u8, 221u8, 119u8, 231u8, 249u8, 254u8,
        170u8, 194u8, 114u8, 165u8, 249u8, 93u8, 38u8, 97u8,
        146u8, 155u8, 47u8, 105u8, 113u8, 22u8, 94u8, 252u8,
    ]
}

/// The tag from which a program's signing authority towards the oracle is
/// derived: the bytes of the word "identity".
pub open spec fn identity_seed_tag() -> Seq<u8> {
    seq![105u8, 100u8, 101u8, 110u8, 116u8, 105u8, 116u8, 121u8]
}

/// The 64-bit value that a randomness payload stands for: its bytes 0, 4, 8,
/// 12, 16, 20, 24 and 28, read as a little-endian number.
pub open spec fn random_value(randomness: Seq<u8>) -> int {
    randomness[0] + randomness[4] * 0x100 + randomness[8] * 0x1_0000 + randomness[12]
        * 0x100_0000 + randomness[16] * 0x1_0000_0000 + randomness[20] * 0x100_0000_0000
        + randomness[24] * 0x1_0000_0000_0000 + randomness[28] * 0x100_0000_0000_0000
}

/// One account that an invocation will be given: where it is, whether it
/// signs, whether it may be written.
#[derive(Clone, Copy, Debug, PartialEq, Eq)]
pub struct AccountRef {
    pub address: Identity,
    pub is_signer: bool,
    pub is_writable: bool,
}

/// One ask to the oracle. It is built and forwarded, never stored.
#[derive(Clone, Debug, PartialEq, Eq)]
pub struct RandomnessRequest {
    /// Who pays for the request.
    pub payer: Identity,
    /// The oracle queue that is to serve it.
    pub oracle_queue: Identity,
    /// The program that the oracle calls back.
    pub callback_program: Identity,
    /// Which entry point of that program the oracle calls.
    pub callback_selector: [u8; 8],
    /// Seed material chosen by the caller.
    pub caller_seed: [u8; 32],
    /// The accounts that the callback will need, in order.
    pub accounts: Vec<AccountRef>,
}

/// A request as a mathematical value.
pub struct RandomnessRequestView {
    pub payer: Identity,
    pub oracle_queue: Identity,
    pub callback_program: Identity,
    pub callback_selector: Seq<u8>,
    pub caller_seed: Seq<u8>,
    pub accounts: Seq<AccountRef>,
}

impl View for RandomnessRequest {
    type V = RandomnessRequestView;

    open spec fn view(&self) -> RandomnessRequestView {
        RandomnessRequestView {
            payer: self.payer,
            oracle_queue: self.oracle_queue,
            callback_program: self.callback_program,
            callback_selector: self.callback_selector@,
            caller_seed: self.caller_seed@,
            accounts: self.accounts@,
        }
    }
}

/// A call of a program, ready to be forwarded: the program, the accounts it is
/// given, and its input bytes.
#[derive(Clone, Debug, PartialEq, Eq)]
pub struct Instruction {
    pub program: Identity,
    pub accounts: Vec<AccountRef>,
    pub data: Vec<u8>,
}

/// An instruction as a mathematical value.
pub struct InstructionView {
    pub program: Identity,
    pub accounts: Seq<AccountRef>,
    pub data: Seq<u8>,
}

impl View for Instruction {
    type V = InstructionView;

    open spec fn view(&self) -> InstructionView {
        InstructionView { program: self.program, accounts: self.accounts@, data: self.data@ }
    }
}

/// The instruction with which the oracle's SDK asks for the randomness that
/// `request` describes.
pub uninterp spec fn request_instruction(request: RandomnessRequestView) -> InstructionView;

/// Reads the SDK's constant `VRF_PROGRAM_IDENTITY`; the contract gives its
/// 32 bytes.
#[verifier::external_body]
pub(crate) fn vrf_program_identity() -> (id: Identity)
    ensures
        id@ == oracle_identity_bytes(),
{
    Identity { bytes: VRF_PROGRAM_IDENTITY.to_bytes() }
}

/// Calls the SDK's `rnd::random_u64`, which picks every fourth byte of the
/// payload, from byte 0 to byte 28, and reads the eight as a little-endian
/// number.
#[verifier::external_body]
pub(crate) fn random_u64(randomness: &[u8; 32]) -> (value: u64)
    ensures
        value == random_value(randomness@),
{
    ephemeral_vrf_sdk::rnd::random_u64(randomness)
}

/// Calls the SDK's `instructions::create_request_randomness_ix` on the fields
/// of `request`, with no callback arguments. The SDK derives the callback
/// program's signing authority and serialises the request; it does not return
/// where no such authority exists or the account list is too long to encode,
/// which the precondition leaves out. The result is a function of the request
/// alone.
#[verifier::external_body]
pub(crate) fn create_request_randomness_ix(request: &RandomnessRequest) -> (ix: Instruction)
    requires
        found_program_address(seq![identity_seed_tag()], request.callback_program@) is Some,
        request.accounts.len() <= u32::MAX,
    ensures
        ix@ == request_instruction(request@),
{
    let ix = instructions::create_request_randomness_ix(RequestRandomnessParams {
        payer: request.payer.bytes.into(),
        oracle_queue: request.oracle_queue.bytes.into(),
        callback_program_id: request.callback_program.bytes.into(),
        callback_discriminator: request.callback_selector.to_vec(),
        caller_seed: request.caller_seed,
        accounts_metas: Some(request.accounts.iter().map(|a| SerializableAccountMeta {
            pubkey: a.address.bytes.into(), is_signer: a.is_signer, is_writable: a.is_writable
        }).collect()),
        ..Default::default()
    });
    let accounts = ix.accounts.iter().map(|m| AccountRef {
        address: Identity { bytes: m.pubkey.to_bytes() }, is_signer: m.is_signer, is_writable: m.is_writable
    }).collect();
    Instruction { program: Identity { bytes: ix.program_id.to_bytes() }, accounts, data: ix.data }
}

} // verus!
