//! The state machine: instruction dispatch, the three transitions, and the
//! cycle & allowance engine.

use crate::authority::create_custody_address;
use crate::authority::derived_authority;
use crate::codec::byte_as_bool;
use crate::codec::spec_i64_from_le_bytes;
use crate::codec::valid_bool_byte;
use crate::constants::scaled_param;
use crate::constants::spec_scaled_param;
use crate::constants::SUBSCRIPTION_PLAN_SIZE;
use crate::constants::SUBSCRIPTION_SIZE;
use crate::error::RecurringPaymentsError;
use crate::instruction::spec_unpack_instruction;
use crate::instruction::RecurringPaymentsInstruction;
use crate::pubkey::Pubkey;
use crate::subscription::sub_bytes_from_parts;
use crate::subscription::sub_strict_bytes_ok;
use crate::subscription::Subscription;
use crate::subscription_plan::plan_bytes_from_parts;
use crate::subscription_plan::SubscriptionPlan;
use crate::token_account::parse_spl_token_account;
use crate::token_account::spl_token_account_parses;
use vstd::arithmetic::div_mod::lemma_fundamental_div_mod;
use vstd::arithmetic::div_mod::lemma_mod_bound;
use vstd::arithmetic::div_mod::lemma_mod_multiples_basic;
use vstd::bytes::spec_u64_from_le_bytes;
use vstd::prelude::*;

verus! {

/// One account handed to the processor: its address and a snapshot of its
/// data region.
pub struct AccountInput {
    pub key: Pubkey,
    pub data: Vec<u8>,
}

/// Program state handler.
pub struct Processor {}

/// Whether the cycle that began at `cycle_start` has fully elapsed at `now`,
/// so that a claim first rolls over to a new cycle.
pub open spec fn spec_cycle_rolls(cycle_start: i64, timeframe: u64, now: i64) -> bool {
    timeframe > 0 && now - cycle_start >= timeframe
}

/// The start of the cycle window containing `now`: `cycle_start` advanced by
/// whole multiples of `timeframe` until `now` falls inside the half-open
/// window, or unchanged when the current window has not elapsed (or the
/// timeframe is zero and there is no window to roll to).
pub open spec fn spec_rolled_cycle_start(cycle_start: i64, timeframe: u64, now: i64) -> int {
    if spec_cycle_rolls(cycle_start, timeframe, now) {
        cycle_start + ((now - cycle_start) / (timeframe as int)) * (timeframe as int)
    } else {
        cycle_start as int
    }
}

/// A rolled cycle start lands on the unique whole-multiple advance of the old
/// start whose half-open window `[start, start + timeframe)` contains `now`.
pub proof fn lemma_rolled_cycle_start_in_window(cycle_start: i64, timeframe: u64, now: i64)
    requires
        timeframe > 0,
        now >= cycle_start,
    ensures
        ({
            let s = spec_rolled_cycle_start(cycle_start, timeframe, now);
            &&& cycle_start <= s <= now
            &&& now < s + timeframe
            &&& (s - cycle_start) % (timeframe as int) == 0
        }),
{
    let t = timeframe as int;
    if spec_cycle_rolls(cycle_start, timeframe, now) {
        let d = now - cycle_start;
        lemma_fundamental_div_mod(d, t);
        lemma_mod_bound(d, t);
        lemma_mod_multiples_basic(d / t, t);
        assert((d / t) * t == t * (d / t)) by (nonlinear_arith);
    } else {
        lemma_mod_multiples_basic(0, t);
    }
}

/// The allowance available to a claim at `now`: the full cap after a rollover,
/// the cap less what this cycle already withdrew otherwise.
pub open spec fn spec_claim_allowed(sub: Subscription, now: i64, amount: u64) -> bool {
    spec_claim_base(sub, now) + amount <= sub.max_amount
}

/// What the claim counts as already withdrawn in the window containing `now`.
pub open spec fn spec_claim_base(sub: Subscription, now: i64) -> int {
    if spec_cycle_rolls(sub.cycle_start, sub.subscription_timeframe, now) {
        0
    } else {
        sub.withdrawn_amount as int
    }
}

/// The record after a permitted claim: the cycle start rolled to the window
/// containing `now`, the withdrawn amount reset on rollover and then increased
/// by the granted amount, everything else unchanged.
pub open spec fn spec_claimed_subscription(sub: Subscription, now: i64, amount: u64) -> Subscription {
    Subscription {
        cycle_start: spec_rolled_cycle_start(
            sub.cycle_start,
            sub.subscription_timeframe,
            now,
        ) as i64,
        withdrawn_amount: (spec_claim_base(sub, now) + amount) as u64,
        ..sub
    }
}

/// A permitted claim keeps the per-cycle allowance invariant: the withdrawn
/// amount never exceeds the unchanged cap.
pub proof fn lemma_claim_preserves_allowance(sub: Subscription, now: i64, amount: u64)
    requires
        spec_claim_allowed(sub, now, amount),
    ensures
        spec_claimed_subscription(sub, now, amount).withdrawn_amount <= spec_claimed_subscription(
            sub,
            now,
            amount,
        ).max_amount,
        spec_claimed_subscription(sub, now, amount).max_amount == sub.max_amount,
{
}

/// Advances `cycle_start` to the start of the window containing `now`.
pub fn advance_cycle_start(cycle_start: i64, timeframe: u64, now: i64) -> (r: i64)
    ensures
        r as int == spec_rolled_cycle_start(cycle_start, timeframe, now),
{
    if timeframe == 0 {
        return cycle_start;
    }
    let diff_i: i128 = (now as i128) - (cycle_start as i128);
    if diff_i < (timeframe as i128) {
        return cycle_start;
    }
    let diff: u128 = diff_i as u128;
    let tf: u128 = timeframe as u128;
    let k: u128 = diff / tf;
    proof {
        lemma_fundamental_div_mod(diff as int, tf as int);
        lemma_mod_bound(diff as int, tf as int);
        assert(k * tf == tf * k) by (nonlinear_arith);
    }
    let add: u128 = k * tf;
    ((cycle_start as i128) + (add as i128)) as i64
}

/// The cycle & allowance engine: rolls the record over to the window
/// containing `now`, then grants `amount` against the remaining allowance or
/// fails without touching the record.
pub fn apply_claim(sub: &mut Subscription, now: i64, amount: u64) -> (r: Result<
    (),
    RecurringPaymentsError,
>)
    ensures
        match r {
            Ok(()) => spec_claim_allowed(*old(sub), now, amount) && *final(sub)
                == spec_claimed_subscription(*old(sub), now, amount),
            Err(e) => !spec_claim_allowed(*old(sub), now, amount) && e
                == RecurringPaymentsError::InvalidMaxAmount && *final(sub) == *old(sub),
        },
{
    let rolled = sub.subscription_timeframe > 0 && (now as i128) - (sub.cycle_start as i128) >= (
    sub.subscription_timeframe as i128);
    let base = if rolled {
        0
    } else {
        sub.withdrawn_amount
    };
    if amount > sub.max_amount || base > sub.max_amount - amount {
        return Err(RecurringPaymentsError::InvalidMaxAmount);
    }
    let new_cycle_start = advance_cycle_start(sub.cycle_start, sub.subscription_timeframe, now);
    sub.cycle_start = new_cycle_start;
    sub.withdrawn_amount = base + amount;
    proof {
        assert(*sub =~= spec_claimed_subscription(*old(sub), now, amount));
    }
    Ok(())
}

/// What a create-plan transition returns for the given plan-account bytes,
/// derivation inputs and declared authority.
pub open spec fn spec_create_plan_result(
    plan_bytes: Seq<u8>,
    program_id: Seq<u8>,
    plan_key: Seq<u8>,
    authority_key: Seq<u8>,
    nonce: u8,
) -> Result<(), RecurringPaymentsError> {
    if plan_bytes.len() != SUBSCRIPTION_PLAN_SIZE {
        Err(RecurringPaymentsError::InvalidAccountData)
    } else if byte_as_bool(plan_bytes[0]) {
        Err(RecurringPaymentsError::AccountAlreadyInitialized)
    } else {
        match derived_authority(program_id, plan_key, nonce) {
            Option::None => Err(RecurringPaymentsError::InvalidProgramAddress),
            Option::Some(a) => if a != authority_key {
                Err(RecurringPaymentsError::InvalidProgramAddress)
            } else {
                Ok(())
            },
        }
    }
}

/// What a create-subscription transition returns for the given subscription
/// account bytes, plan-account bytes and caller-declared parameters.
pub open spec fn spec_create_subscription_result(
    sub_bytes: Seq<u8>,
    plan_bytes: Seq<u8>,
    subscription_timeframe: u64,
    max_amount: u64,
) -> Result<(), RecurringPaymentsError> {
    if sub_bytes.len() != SUBSCRIPTION_SIZE {
        Err(RecurringPaymentsError::InvalidAccountData)
    } else if byte_as_bool(sub_bytes[0]) {
        Err(RecurringPaymentsError::AccountAlreadyInitialized)
    } else if plan_bytes.len() != SUBSCRIPTION_PLAN_SIZE || !valid_bool_byte(plan_bytes[0]) {
        Err(RecurringPaymentsError::InvalidAccountData)
    } else if plan_bytes[0] == 0 {
        Err(RecurringPaymentsError::UninitializedAccount)
    } else if spec_scaled_param(spec_u64_from_le_bytes(plan_bytes.subrange(98, 106)))
        != subscription_timeframe {
        Err(RecurringPaymentsError::InvalidSubscriptionTimeframe)
    } else if spec_scaled_param(spec_u64_from_le_bytes(plan_bytes.subrange(106, 114)))
        != max_amount {
        Err(RecurringPaymentsError::InvalidMaxAmount)
    } else {
        Ok(())
    }
}

/// What a claim transition returns for the given subscription-account bytes,
/// time snapshot and requested amount.
pub open spec fn spec_claim_result(sub_bytes: Seq<u8>, now: i64, amount: u64) -> Result<
    (),
    RecurringPaymentsError,
> {
    if sub_bytes.len() != SUBSCRIPTION_SIZE || !sub_strict_bytes_ok(sub_bytes) {
        Err(RecurringPaymentsError::InvalidAccountData)
    } else if sub_bytes[0] == 0 {
        Err(RecurringPaymentsError::UninitializedAccount)
    } else if sub_bytes[1] == 0 {
        Err(RecurringPaymentsError::InvalidAccountData)
    } else {
        let cycle_start = spec_i64_from_le_bytes(sub_bytes.subrange(98, 106));
        let timeframe = spec_u64_from_le_bytes(sub_bytes.subrange(106, 114));
        let max = spec_u64_from_le_bytes(sub_bytes.subrange(114, 122));
        let withdrawn = spec_u64_from_le_bytes(sub_bytes.subrange(122, 130));
        let base: int = if spec_cycle_rolls(cycle_start, timeframe, now) {
            0
        } else {
            withdrawn as int
        };
        if base + amount > max {
            Err(RecurringPaymentsError::InvalidMaxAmount)
        } else {
            Ok(())
        }
    }
}

/// The subscription-account bytes after a permitted claim.
pub open spec fn spec_claim_new_bytes(sub_bytes: Seq<u8>, now: i64, amount: u64) -> Seq<u8> {
    let cycle_start = spec_i64_from_le_bytes(sub_bytes.subrange(98, 106));
    let timeframe = spec_u64_from_le_bytes(sub_bytes.subrange(106, 114));
    let max = spec_u64_from_le_bytes(sub_bytes.subrange(114, 122));
    let withdrawn = spec_u64_from_le_bytes(sub_bytes.subrange(122, 130));
    let base: int = if spec_cycle_rolls(cycle_start, timeframe, now) {
        0
    } else {
        withdrawn as int
    };
    sub_bytes_from_parts(
        true,
        true,
        sub_bytes.subrange(2, 34),
        sub_bytes.subrange(34, 66),
        sub_bytes.subrange(66, 98),
        spec_rolled_cycle_start(cycle_start, timeframe, now) as i64,
        timeframe,
        max,
        (base + amount) as u64,
    )
}

impl Processor {
    /// Calculates the custody-authority address for a plan account and nonce.
    pub fn authority_id(program_id: &Pubkey, my_info: &Pubkey, nonce: u8) -> (r: Result<
        Pubkey,
        RecurringPaymentsError,
    >)
        ensures
            match r {
                Ok(k) => derived_authority(program_id@, my_info@, nonce) == Some(k@),
                Err(e) => derived_authority(program_id@, my_info@, nonce) is None && e
                    == RecurringPaymentsError::InvalidProgramAddress,
            },
    {
        match create_custody_address(program_id, my_info, nonce) {
            Some(k) => Ok(k),
            None => Err(RecurringPaymentsError::InvalidProgramAddress),
        }
    }

    /// Accepts a token-holding account only when it is owned by the expected
    /// token program and its data parses as a token account record.
    pub fn unpack_token_account(
        account_owner: &Pubkey,
        account_data: &[u8],
        token_program_id: &Pubkey,
    ) -> (r: Result<spl_token::state::Account, RecurringPaymentsError>)
        ensures
            match r {
                Ok(_) => account_owner@ == token_program_id@ && spl_token_account_parses(
                    account_data@,
                ),
                Err(e) => (account_owner@ != token_program_id@ && e
                    == RecurringPaymentsError::IncorrectTokenProgramId) || (account_owner@
                    == token_program_id@ && !spl_token_account_parses(account_data@) && e
                    == RecurringPaymentsError::ExpectedAccount),
            },
    {
        if !account_owner.eq_key(token_program_id) {
            return Err(RecurringPaymentsError::IncorrectTokenProgramId);
        }
        match parse_spl_token_account(account_data) {
            Some(a) => Ok(a),
            None => Err(RecurringPaymentsError::ExpectedAccount),
        }
    }

    /// The create-plan transition: requires an uninitialized plan account,
    /// validates the declared authority against the derived custody address,
    /// and writes the fully populated record; any failure leaves the account
    /// bytes untouched.
    pub fn process_create_subscription_plan(
        program_id: &Pubkey,
        plan_key: &Pubkey,
        plan_data: &mut Vec<u8>,
        owner_key: &Pubkey,
        authority_key: &Pubkey,
        token_key: &Pubkey,
        nonce: u8,
        subscription_timeframe: u64,
        max_amount: u64,
    ) -> (r: Result<(), RecurringPaymentsError>)
        ensures
            r == spec_create_plan_result(
                old(plan_data)@,
                program_id@,
                plan_key@,
                authority_key@,
                nonce,
            ),
            r is Ok ==> final(plan_data)@ == plan_bytes_from_parts(
                true,
                nonce,
                owner_key@,
                authority_key@,
                token_key@,
                subscription_timeframe,
                max_amount,
            ),
            r is Err ==> final(plan_data)@ == old(plan_data)@,
    {
        if plan_data.len() != SUBSCRIPTION_PLAN_SIZE {
            return Err(RecurringPaymentsError::InvalidAccountData);
        }
        let existing = SubscriptionPlan::unpack_unchecked_from_slice(plan_data.as_slice());
        if existing.is_initialized() {
            return Err(RecurringPaymentsError::AccountAlreadyInitialized);
        }
        let derived = match Self::authority_id(program_id, plan_key, nonce) {
            Ok(k) => k,
            Err(e) => {
                return Err(e);
            },
        };
        if !derived.eq_key(authority_key) {
            return Err(RecurringPaymentsError::InvalidProgramAddress);
        }
        let plan = SubscriptionPlan {
            is_initialized: true,
            nonce,
            owner: *owner_key,
            authority: *authority_key,
            token: *token_key,
            subscription_timeframe,
            max_amount,
        };
        plan.pack_into_slice(plan_data);
        Ok(())
    }

    /// The create-subscription transition: requires an uninitialized
    /// subscription account and an initialized plan whose stored parameters
    /// the caller echoes under the scale rule, then writes the approved record
    /// with a zero withdrawn amount and the supplied cycle start; any failure
    /// leaves the account bytes untouched.
    pub fn process_create_subscription(
        sub_data: &mut Vec<u8>,
        plan_key: &Pubkey,
        plan_data: &Vec<u8>,
        token_account_key: &Pubkey,
        cycle_start: i64,
        subscription_timeframe: u64,
        max_amount: u64,
    ) -> (r: Result<(), RecurringPaymentsError>)
        ensures
            r == spec_create_subscription_result(
                old(sub_data)@,
                plan_data@,
                subscription_timeframe,
                max_amount,
            ),
            r is Ok ==> final(sub_data)@ == sub_bytes_from_parts(
                true,
                true,
                plan_key@,
                token_account_key@,
                plan_data@.subrange(2, 34),
                cycle_start,
                subscription_timeframe,
                max_amount,
                0,
            ),
            r is Err ==> final(sub_data)@ == old(sub_data)@,
    {
        if sub_data.len() != SUBSCRIPTION_SIZE {
            return Err(RecurringPaymentsError::InvalidAccountData);
        }
        let existing = Subscription::unpack_unchecked_from_slice(sub_data.as_slice());
        if existing.is_initialized() {
            return Err(RecurringPaymentsError::AccountAlreadyInitialized);
        }
        let plan = match SubscriptionPlan::unpack(plan_data.as_slice()) {
            Ok(p) => p,
            Err(e) => {
                return Err(e);
            },
        };
        if scaled_param(plan.subscription_timeframe) != subscription_timeframe {
            return Err(RecurringPaymentsError::InvalidSubscriptionTimeframe);
        }
        if scaled_param(plan.max_amount) != max_amount {
            return Err(RecurringPaymentsError::InvalidMaxAmount);
        }
        let sub = Subscription {
            is_initialized: true,
            is_approved: true,
            subscription_plan_account: *plan_key,
            token_account: *token_account_key,
            owner: plan.owner,
            cycle_start,
            subscription_timeframe,
            max_amount,
            withdrawn_amount: 0,
        };
        sub.pack_into_slice(sub_data);
        Ok(())
    }

    /// The claim transition: strictly reads an initialized, approved
    /// subscription record, rolls its cycle over if elapsed, grants the
    /// requested amount against the remaining allowance, and persists the
    /// updated record; any failure leaves the account bytes untouched.
    pub fn process_claim(sub_data: &mut Vec<u8>, now: i64, amount: u64) -> (r: Result<
        (),
        RecurringPaymentsError,
    >)
        ensures
            r == spec_claim_result(old(sub_data)@, now, amount),
            r is Ok ==> final(sub_data)@ == spec_claim_new_bytes(old(sub_data)@, now, amount),
            r is Err ==> final(sub_data)@ == old(sub_data)@,
    {
        let mut sub = match Subscription::unpack(sub_data.as_slice()) {
            Ok(sub) => sub,
            Err(e) => {
                return Err(e);
            },
        };
        if !sub.is_approved {
            return Err(RecurringPaymentsError::InvalidAccountData);
        }
        match apply_claim(&mut sub, now, amount) {
            Ok(()) => {},
            Err(e) => {
                return Err(e);
            },
        }
        sub.pack_into_slice(sub_data);
        proof {
            assert(sub_data@ =~= spec_claim_new_bytes(old(sub_data)@, now, amount));
        }
        Ok(())
    }

    /// The program entry: decodes the instruction and dispatches to its
    /// transition. The writable account comes first in every instruction's
    /// account protocol, so it is passed as `target_key`/`target_data`; `rest`
    /// holds the remaining accounts in protocol order (create-plan: owner,
    /// authority, token; create-subscription: plan, token account, token
    /// program, clock, fee). `now` is the time snapshot the clock collaborator
    /// read for this transition, and `claim_amount` is the draw the transfer
    /// collaborator requests from a claim. Any failure leaves the writable
    /// account's bytes untouched.
    pub fn process(
        program_id: &Pubkey,
        target_key: &Pubkey,
        target_data: &mut Vec<u8>,
        rest: &Vec<AccountInput>,
        instruction_data: &[u8],
        now: i64,
        claim_amount: u64,
    ) -> (r: Result<(), RecurringPaymentsError>)
        ensures
            ({
                let unchanged = final(target_data)@ == old(target_data)@;
                match spec_unpack_instruction(instruction_data@) {
                    Err(e) => r == Err::<(), RecurringPaymentsError>(e) && unchanged,
                    Ok(
                        RecurringPaymentsInstruction::CreateSubscriptionPlan {
                            nonce,
                            subscription_timeframe,
                            max_amount,
                        },
                    ) => if rest@.len() < 3 {
                        r == Err::<(), RecurringPaymentsError>(
                            RecurringPaymentsError::NotEnoughAccountKeys,
                        ) && unchanged
                    } else {
                        &&& r == spec_create_plan_result(
                            old(target_data)@,
                            program_id@,
                            target_key@,
                            rest@[1].key@,
                            nonce,
                        )
                        &&& r is Ok ==> final(target_data)@ == plan_bytes_from_parts(
                            true,
                            nonce,
                            rest@[0].key@,
                            rest@[1].key@,
                            rest@[2].key@,
                            subscription_timeframe,
                            max_amount,
                        )
                        &&& r is Err ==> unchanged
                    },
                    Ok(
                        RecurringPaymentsInstruction::CreateSubscription {
                            subscription_timeframe,
                            max_amount,
                        },
                    ) => if rest@.len() < 5 {
                        r == Err::<(), RecurringPaymentsError>(
                            RecurringPaymentsError::NotEnoughAccountKeys,
                        ) && unchanged
                    } else {
                        &&& r == spec_create_subscription_result(
                            old(target_data)@,
                            rest@[0].data@,
                            subscription_timeframe,
                            max_amount,
                        )
                        &&& r is Ok ==> final(target_data)@ == sub_bytes_from_parts(
                            true,
                            true,
                            rest@[0].key@,
                            rest@[1].key@,
                            rest@[0].data@.subrange(2, 34),
                            now,
                            subscription_timeframe,
                            max_amount,
                            0,
                        )
                        &&& r is Err ==> unchanged
                    },
                    Ok(RecurringPaymentsInstruction::Claim {  }) => {
                        &&& r == spec_claim_result(old(target_data)@, now, claim_amount)
                        &&& r is Ok ==> final(target_data)@ == spec_claim_new_bytes(
                            old(target_data)@,
                            now,
                            claim_amount,
                        )
                        &&& r is Err ==> unchanged
                    },
                }
            }),
    {
        let instruction = match RecurringPaymentsInstruction::unpack(instruction_data) {
            Ok(i) => i,
            Err(e) => {
                return Err(e);
            },
        };
        match instruction {
            RecurringPaymentsInstruction::CreateSubscriptionPlan {
                nonce,
                subscription_timeframe,
                max_amount,
            } => {
                if rest.len() < 3 {
                    return Err(RecurringPaymentsError::NotEnoughAccountKeys);
                }
                let owner_key = &rest[0].key;
                let authority_key = &rest[1].key;
                let token_key = &rest[2].key;
                Self::process_create_subscription_plan(
                    program_id,
                    target_key,
                    target_data,
                    owner_key,
                    authority_key,
                    token_key,
                    nonce,
                    subscription_timeframe,
                    max_amount,
                )
            },
            RecurringPaymentsInstruction::CreateSubscription {
                subscription_timeframe,
                max_amount,
            } => {
                if rest.len() < 5 {
                    return Err(RecurringPaymentsError::NotEnoughAccountKeys);
                }
                let plan = &rest[0];
                let token_account_key = &rest[1].key;
                Self::process_create_subscription(
                    target_data,
                    &plan.key,
                    &plan.data,
                    token_account_key,
                    now,
                    subscription_timeframe,
                    max_amount,
                )
            },
            RecurringPaymentsInstruction::Claim {  } => {
                Self::process_claim(target_data, now, claim_amount)
            },
        }
    }
}

} // verus!
