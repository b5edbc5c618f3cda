//! Client-side composition of ledger transactions for a movie-review
//! program and the token program: derived addresses, instruction
//! encoding, transaction validation and decoding of account state.

pub mod address;
pub mod codec;
pub mod instruction;
pub mod state;
pub mod transaction;
pub mod workflow;
