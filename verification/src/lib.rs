//! On-ledger logic for recurring, capped-withdrawal payment authorizations.
//!
//! A payer creates a *plan* describing a withdrawal cadence and a per-cycle cap,
//! then authorizes a *subscription* instance that can later be drawn against,
//! bounded by a replenishing per-cycle allowance. The crate holds the account
//! state model, the binary record codec, the instruction protocol, the
//! custody-authority derivation, and the cycle/withdrawal state machine.
//! The transaction runtime, token transfers and clock reads are external
//! collaborators: the processor here works on plain account snapshots and a
//! time value read once per transition.

pub mod authority;
pub mod codec;
pub mod constants;
pub mod error;
pub mod instruction;
pub mod processor;
pub mod pubkey;
pub mod subscription;
pub mod subscription_plan;
pub mod token_account;
