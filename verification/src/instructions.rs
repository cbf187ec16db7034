//! The two entry points of the handshake. Each runs in an invocation of its
//! own; they share nothing but the user's account.

pub mod consume_randomness;
pub mod request_randomness;
