//! Sizes of the persistent records and the parameter-matching scale rule.

use vstd::prelude::*;

verus! {

/// Packed length in bytes of a [`crate::subscription_plan::SubscriptionPlan`] record.
pub const SUBSCRIPTION_PLAN_SIZE: usize = 114;

/// Packed length in bytes of a [`crate::subscription::Subscription`] record.
pub const SUBSCRIPTION_SIZE: usize = 130;

/// Right shift applied to a plan's stored `subscription_timeframe` and
/// `max_amount` before they are compared with the caller-supplied values at
/// subscription creation. Zero means the caller must match the plan exactly.
pub const PARAM_SCALE_SHIFT: u64 = 0;

/// The plan parameter as it must be echoed by a subscription creator.
pub open spec fn spec_scaled_param(v: u64) -> u64 {
    v >> PARAM_SCALE_SHIFT
}

/// Applies the scale rule to a plan-stored parameter.
pub fn scaled_param(v: u64) -> (r: u64)
    ensures
        r == spec_scaled_param(v),
{
    v >> PARAM_SCALE_SHIFT
}

/// With the scale shift at zero the rule is exact equality.
pub proof fn lemma_scaled_param_exact(v: u64)
    ensures
        spec_scaled_param(v) == v,
{
    assert(v >> 0u64 == v) by (bit_vector);
}

} // verus!
