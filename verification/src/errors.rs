//! The ways in which an invocation of the handshake fails.

use vstd::prelude::*;

verus! {

/// Why an invocation was aborted. Each is terminal for its invocation:
/// nothing is retried and nothing is written.
#[derive(Clone, Copy, Debug, PartialEq, Eq, Structural)]
pub enum VrfError {
    /// The user account's address is not the one derived from the seed tag,
    /// the user's identity and the stored bump.
    InvalidAccountDerivation,
    /// The invoker of the callback is not the oracle's identity.
    Unauthorized,
    /// The forwarded request was rejected by the runtime or by the oracle;
    /// `code` is the rejection as the runtime reported it.
    UpstreamDispatchFailure { code: u64 },
}

} // verus!
