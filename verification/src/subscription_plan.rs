//! The plan record: a template for a family of subscriptions.

use crate::codec::bool_as_byte;
use crate::codec::byte_as_bool;
use crate::codec::push_u64_le;
use crate::codec::read_u64_le;
use crate::codec::valid_bool_byte;
use crate::constants::SUBSCRIPTION_PLAN_SIZE;
use crate::error::RecurringPaymentsError;
use crate::pubkey::push_key;
use crate::pubkey::read_key;
use crate::pubkey::Pubkey;
use vstd::bytes::lemma_auto_spec_u64_to_from_le_bytes;
use vstd::bytes::spec_u64_from_le_bytes;
use vstd::bytes::spec_u64_to_le_bytes;
use vstd::prelude::*;

verus! {

broadcast use vstd::array::group_array_axioms;

/// Template record for a family of subscriptions created by one payer.
/// Wire layout, 114 bytes, little-endian integers:
/// `[0]` is_initialized(1) `[1]` nonce(1) `[2]` owner(32) `[34]` authority(32)
/// `[66]` token(32) `[98]` subscription_timeframe(8) `[106]` max_amount(8).
#[verifier::ext_equal]
#[derive(Clone, Copy, Debug, PartialEq, Eq)]
pub struct SubscriptionPlan {
    pub is_initialized: bool,
    pub nonce: u8,
    pub owner: Pubkey,
    pub authority: Pubkey,
    pub token: Pubkey,
    pub subscription_timeframe: u64,
    pub max_amount: u64,
}

/// The canonical record bytes for the given plan field values.
pub open spec fn plan_bytes_from_parts(
    is_initialized: bool,
    nonce: u8,
    owner: Seq<u8>,
    authority: Seq<u8>,
    token: Seq<u8>,
    subscription_timeframe: u64,
    max_amount: u64,
) -> Seq<u8> {
    seq![bool_as_byte(is_initialized), nonce] + owner + authority + token
        + spec_u64_to_le_bytes(subscription_timeframe) + spec_u64_to_le_bytes(max_amount)
}

/// The canonical encoding of a plan record.
pub open spec fn plan_record_bytes(p: SubscriptionPlan) -> Seq<u8> {
    plan_bytes_from_parts(
        p.is_initialized,
        p.nonce,
        p.owner@,
        p.authority@,
        p.token@,
        p.subscription_timeframe,
        p.max_amount,
    )
}

/// Whether a strict decode of the leading plan record in `s` succeeds.
pub open spec fn plan_strict_bytes_ok(s: Seq<u8>) -> bool {
    s.len() >= SUBSCRIPTION_PLAN_SIZE && valid_bool_byte(s[0])
}

/// How each field of `p` is read from the leading plan record in `s`.
pub open spec fn plan_fields_match(s: Seq<u8>, p: SubscriptionPlan) -> bool {
    &&& p.is_initialized == byte_as_bool(s[0])
    &&& p.nonce == s[1]
    &&& p.owner@ == s.subrange(2, 34)
    &&& p.authority@ == s.subrange(34, 66)
    &&& p.token@ == s.subrange(66, 98)
    &&& p.subscription_timeframe == spec_u64_from_le_bytes(s.subrange(98, 106))
    &&& p.max_amount == spec_u64_from_le_bytes(s.subrange(106, 114))
}

impl SubscriptionPlan {
    /// Whether the record guards against re-initialization.
    pub open spec fn spec_is_initialized(&self) -> bool {
        self.is_initialized
    }

    /// Whether the record guards against re-initialization.
    #[verifier::when_used_as_spec(spec_is_initialized)]
    pub fn is_initialized(&self) -> (r: bool)
        ensures
            r == self.is_initialized,
    {
        self.is_initialized
    }

    /// Strict decode of the leading `SUBSCRIPTION_PLAN_SIZE` bytes: a boolean
    /// field byte other than 0 or 1 is a decode error.
    pub fn unpack_from_slice(src: &[u8]) -> (r: Result<SubscriptionPlan, RecurringPaymentsError>)
        requires
            src@.len() >= SUBSCRIPTION_PLAN_SIZE,
        ensures
            match r {
                Ok(p) => plan_strict_bytes_ok(src@) && plan_fields_match(src@, p),
                Err(e) => !plan_strict_bytes_ok(src@) && e
                    == RecurringPaymentsError::InvalidAccountData,
            },
    {
        let tag = src[0];
        if tag != 0 && tag != 1 {
            return Err(RecurringPaymentsError::InvalidAccountData);
        }
        Ok(Self::read_fields(src, tag == 1))
    }

    /// Unchecked decode of the leading `SUBSCRIPTION_PLAN_SIZE` bytes: never
    /// fails; any nonzero boolean field byte reads as true.
    pub fn unpack_unchecked_from_slice(src: &[u8]) -> (p: SubscriptionPlan)
        requires
            src@.len() >= SUBSCRIPTION_PLAN_SIZE,
        ensures
            plan_fields_match(src@, p),
    {
        let tag = src[0];
        Self::read_fields(src, tag != 0)
    }

    /// Reads the fixed-offset fields shared by both decode modes.
    fn read_fields(src: &[u8], is_initialized: bool) -> (p: SubscriptionPlan)
        requires
            src@.len() >= SUBSCRIPTION_PLAN_SIZE,
            is_initialized == byte_as_bool(src@[0]),
        ensures
            plan_fields_match(src@, p),
    {
        let nonce = src[1];
        let owner = read_key(src, 2);
        let authority = read_key(src, 34);
        let token = read_key(src, 66);
        let subscription_timeframe = read_u64_le(src, 98);
        let max_amount = read_u64_le(src, 106);
        SubscriptionPlan {
            is_initialized,
            nonce,
            owner,
            authority,
            token,
            subscription_timeframe,
            max_amount,
        }
    }

    /// Strict decode of a record expected to exist already: the input must be
    /// exactly one record long, decode strictly, and be initialized.
    pub fn unpack(input: &[u8]) -> (r: Result<SubscriptionPlan, RecurringPaymentsError>)
        ensures
            ({
                let s = input@;
                match r {
                    Ok(p) => s.len() == SUBSCRIPTION_PLAN_SIZE && plan_strict_bytes_ok(s)
                        && plan_fields_match(s, p) && p.is_initialized,
                    Err(e) => if s.len() != SUBSCRIPTION_PLAN_SIZE || !plan_strict_bytes_ok(s) {
                        e == RecurringPaymentsError::InvalidAccountData
                    } else {
                        s[0] == 0 && e == RecurringPaymentsError::UninitializedAccount
                    },
                }
            }),
    {
        let p = match Self::unpack_unchecked(input) {
            Ok(p) => p,
            Err(e) => {
                return Err(e);
            },
        };
        if input[0] != 0 && input[0] != 1 {
            return Err(RecurringPaymentsError::InvalidAccountData);
        }
        if !p.is_initialized() {
            return Err(RecurringPaymentsError::UninitializedAccount);
        }
        Ok(p)
    }

    /// Unchecked decode of a record about to be initialized: the input must be
    /// exactly one record long; the content never fails to decode.
    pub fn unpack_unchecked(input: &[u8]) -> (r: Result<SubscriptionPlan, RecurringPaymentsError>)
        ensures
            ({
                let s = input@;
                match r {
                    Ok(p) => s.len() == SUBSCRIPTION_PLAN_SIZE && plan_fields_match(s, p),
                    Err(e) => s.len() != SUBSCRIPTION_PLAN_SIZE && e
                        == RecurringPaymentsError::InvalidAccountData,
                }
            }),
    {
        if input.len() != SUBSCRIPTION_PLAN_SIZE {
            return Err(RecurringPaymentsError::InvalidAccountData);
        }
        Ok(Self::unpack_unchecked_from_slice(input))
    }

    /// Writes the canonical encoding of `self` over a buffer of exactly one
    /// record's length.
    pub fn pack_into_slice(&self, dst: &mut Vec<u8>)
        requires
            old(dst)@.len() == SUBSCRIPTION_PLAN_SIZE,
        ensures
            final(dst)@ == plan_record_bytes(*self),
    {
        let mut v: Vec<u8> = Vec::new();
        v.push(if self.is_initialized {
            1
        } else {
            0
        });
        v.push(self.nonce);
        push_key(&mut v, &self.owner);
        push_key(&mut v, &self.authority);
        push_key(&mut v, &self.token);
        push_u64_le(&mut v, self.subscription_timeframe);
        push_u64_le(&mut v, self.max_amount);
        proof {
            assert(v@ =~= plan_record_bytes(*self));
        }
        *dst = v;
    }

    /// Writes the canonical encoding of `src` if the buffer is exactly one
    /// record long, and rejects it untouched otherwise.
    pub fn pack(src: SubscriptionPlan, dst: &mut Vec<u8>) -> (r: Result<
        (),
        RecurringPaymentsError,
    >)
        ensures
            if old(dst)@.len() == SUBSCRIPTION_PLAN_SIZE {
                r == Ok::<(), RecurringPaymentsError>(()) && final(dst)@ == plan_record_bytes(src)
            } else {
                r == Err::<(), RecurringPaymentsError>(RecurringPaymentsError::InvalidAccountData)
                    && final(dst)@ == old(dst)@
            },
    {
        if dst.len() != SUBSCRIPTION_PLAN_SIZE {
            return Err(RecurringPaymentsError::InvalidAccountData);
        }
        src.pack_into_slice(dst);
        Ok(())
    }
}

/// Round trip: a strict decode of the canonical encoding of any plan record
/// succeeds and yields exactly that record.
pub proof fn lemma_plan_round_trip(p: SubscriptionPlan, q: SubscriptionPlan)
    requires
        plan_fields_match(plan_record_bytes(p), q),
    ensures
        plan_strict_bytes_ok(plan_record_bytes(p)),
        q == p,
{
    lemma_auto_spec_u64_to_from_le_bytes();
    let s = plan_record_bytes(p);
    assert(s.subrange(2, 34) =~= p.owner@);
    assert(s.subrange(34, 66) =~= p.authority@);
    assert(s.subrange(66, 98) =~= p.token@);
    assert(s.subrange(98, 106) =~= spec_u64_to_le_bytes(p.subscription_timeframe));
    assert(s.subrange(106, 114) =~= spec_u64_to_le_bytes(p.max_amount));
    assert(q.owner.bytes =~= p.owner.bytes);
    assert(q.authority.bytes =~= p.authority.bytes);
    assert(q.token.bytes =~= p.token.bytes);
    assert(q =~= p);
}

} // verus!
