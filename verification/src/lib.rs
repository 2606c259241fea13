//! Verified core of two on-chain custodial protocols that share one
//! architectural pattern: an escrow swap (two parties exchange tokens at
//! agreed rates) and a fundraiser (contributors deposit tokens toward a goal,
//! released to the beneficiary or refunded).
//!
//! Every handler is a pure function over a snapshot of the accounts supplied
//! by the host runtime for a single instruction invocation: it validates the
//! account roles, the derived authority addresses and the fixed-layout state
//! records, and either fails with a single error reason and no effect, or
//! returns the complete set of new account contents for the host to apply.

pub mod account;
pub mod codec;
pub mod error;
pub mod escrow;
pub mod fundraiser;
pub mod keys;
pub mod laws;
pub mod pda;
pub mod state;
pub mod token;

pub use error::ProtocolError;
pub use keys::{Pubkey, key_eq, PROGRAM_ID, TOKEN_PROGRAM_ID, SYSTEM_PROGRAM_ID};
