//! A verified implementation of an on-chain multi-signature wallet core:
//! a membership registry with an approval threshold, a transaction
//! lifecycle state machine with strict vote accounting, and an execution
//! engine that validates staged instructions against caller-supplied
//! accounts before they are dispatched by the host environment.

pub mod errors;
pub mod execute;
pub mod identity;
pub mod instruction;
pub mod keylist;
pub mod laws;
pub mod message;
pub mod ms;
pub mod ops;
pub mod pda;
pub mod seeds;
pub mod transaction;
