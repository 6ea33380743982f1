//! Error kinds returned by the recurring payments program.

use vstd::prelude::*;

verus! {

/// Every failure a transition or decoder can report. The first six variants
/// mirror the program's own error codes; the remaining four are the
/// host-level failures the processor reports directly (a record that does not
/// decode, a create aimed at an initialized record, a strict read of an
/// uninitialized record, and a call with too few accounts).
#[derive(Clone, Copy, Debug, PartialEq, Eq, Structural)]
pub enum RecurringPaymentsError {
    /// Invalid instruction number passed in, or a truncated payload.
    InvalidInstruction,
    /// A subscription's `max_amount` does not match its plan, or a claim
    /// would exceed the remaining per-cycle allowance.
    InvalidMaxAmount,
    /// A subscription's `subscription_timeframe` does not match its plan.
    InvalidSubscriptionTimeframe,
    /// The supplied authority does not match the derived custody address.
    InvalidProgramAddress,
    /// A token account is owned by the wrong token program.
    IncorrectTokenProgramId,
    /// An account expected to hold a token record fails to decode as one.
    ExpectedAccount,
    /// A record's bytes do not decode: wrong length or a malformed boolean.
    InvalidAccountData,
    /// A create-style transition targets a record already initialized.
    AccountAlreadyInitialized,
    /// A strict read found a record not yet initialized.
    UninitializedAccount,
    /// Fewer accounts were supplied than the instruction's protocol expects.
    NotEnoughAccountKeys,
}

} // verus!
