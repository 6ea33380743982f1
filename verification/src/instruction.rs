//! The opcode-tagged instruction protocol.

use crate::codec::read_u64_le;
use crate::error::RecurringPaymentsError;
use vstd::bytes::spec_u64_from_le_bytes;
use vstd::prelude::*;
use vstd::slice::slice_subrange;

verus! {

/// A decoded instruction. Wire format: one leading opcode byte, then an
/// opcode-specific payload of fixed-width little-endian integers; trailing
/// bytes after a fully decoded payload are ignored.
///
/// | opcode | variant                | payload                                 |
/// |--------|------------------------|-----------------------------------------|
/// | 0      | CreateSubscriptionPlan | nonce: u8, timeframe: u64, max: u64     |
/// | 1      | CreateSubscription     | timeframe: u64, max: u64                |
/// | 2      | Claim                  | (none)                                  |
#[derive(Clone, Copy, Debug, PartialEq, Eq, Structural)]
pub enum RecurringPaymentsInstruction {
    /// Creates and populates a plan record.
    CreateSubscriptionPlan {
        /// Seed used to derive the plan's custody-authority address.
        nonce: u8,
        /// Nominal cycle length of subscriptions under the plan.
        subscription_timeframe: u64,
        /// Maximum amount withdrawable per cycle under the plan.
        max_amount: u64,
    },
    /// Creates and populates a subscription record against a plan.
    CreateSubscription {
        /// Nominal cycle length; must echo the plan's stored value.
        subscription_timeframe: u64,
        /// Per-cycle cap; must echo the plan's stored value.
        max_amount: u64,
    },
    /// Draws against the current cycle's remaining allowance.
    Claim {},
}

/// What decoding an instruction buffer yields: the unique decoded instruction,
/// or `InvalidInstruction` when the buffer is empty, the opcode is
/// unrecognized, or a fixed-width field cannot be fully read.
pub open spec fn spec_unpack_instruction(s: Seq<u8>) -> Result<
    RecurringPaymentsInstruction,
    RecurringPaymentsError,
> {
    if s.len() == 0 {
        Err(RecurringPaymentsError::InvalidInstruction)
    } else if s[0] == 0 {
        if s.len() >= 18 {
            Ok(
                RecurringPaymentsInstruction::CreateSubscriptionPlan {
                    nonce: s[1],
                    subscription_timeframe: spec_u64_from_le_bytes(s.subrange(2, 10)),
                    max_amount: spec_u64_from_le_bytes(s.subrange(10, 18)),
                },
            )
        } else {
            Err(RecurringPaymentsError::InvalidInstruction)
        }
    } else if s[0] == 1 {
        if s.len() >= 17 {
            Ok(
                RecurringPaymentsInstruction::CreateSubscription {
                    subscription_timeframe: spec_u64_from_le_bytes(s.subrange(1, 9)),
                    max_amount: spec_u64_from_le_bytes(s.subrange(9, 17)),
                },
            )
        } else {
            Err(RecurringPaymentsError::InvalidInstruction)
        }
    } else if s[0] == 2 {
        Ok(RecurringPaymentsInstruction::Claim {  })
    } else {
        Err(RecurringPaymentsError::InvalidInstruction)
    }
}

impl RecurringPaymentsInstruction {
    /// Decodes an instruction buffer.
    pub fn unpack(input: &[u8]) -> (r: Result<
        RecurringPaymentsInstruction,
        RecurringPaymentsError,
    >)
        ensures
            r == spec_unpack_instruction(input@),
    {
        let len: usize = input.len();
        if len == 0 {
            return Err(RecurringPaymentsError::InvalidInstruction);
        }
        let tag = input[0];
        if tag == 0 {
            if len < 18 {
                return Err(RecurringPaymentsError::InvalidInstruction);
            }
            let nonce = input[1];
            let subscription_timeframe = read_u64_le(input, 2);
            let max_amount = read_u64_le(input, 10);
            Ok(
                RecurringPaymentsInstruction::CreateSubscriptionPlan {
                    nonce,
                    subscription_timeframe,
                    max_amount,
                },
            )
        } else if tag == 1 {
            if len < 17 {
                return Err(RecurringPaymentsError::InvalidInstruction);
            }
            let subscription_timeframe = read_u64_le(input, 1);
            let max_amount = read_u64_le(input, 9);
            Ok(RecurringPaymentsInstruction::CreateSubscription {
                subscription_timeframe,
                max_amount,
            })
        } else if tag == 2 {
            Ok(RecurringPaymentsInstruction::Claim {  })
        } else {
            Err(RecurringPaymentsError::InvalidInstruction)
        }
    }

    /// Reads one little-endian u64 from the front of `input` and returns it
    /// with the remaining bytes; fails when fewer than eight bytes remain.
    pub fn unpack_u64(input: &[u8]) -> (r: Result<(u64, &[u8]), RecurringPaymentsError>)
        ensures
            match r {
                Ok((amount, rest)) => input@.len() >= 8 && amount == spec_u64_from_le_bytes(
                    input@.subrange(0, 8),
                ) && rest@ == input@.skip(8),
                Err(e) => input@.len() < 8 && e == RecurringPaymentsError::InvalidInstruction,
            },
    {
        let len: usize = input.len();
        if len >= 8 {
            let amount = read_u64_le(input, 0);
            let rest = slice_subrange(input, 8, len);
            proof {
                assert(rest@ =~= input@.skip(8));
            }
            Ok((amount, rest))
        } else {
            Err(RecurringPaymentsError::InvalidInstruction)
        }
    }
}

} // verus!
