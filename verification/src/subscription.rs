//! The subscription record: one payer-to-payee authorization instance.

use crate::codec::bool_as_byte;
use crate::codec::byte_as_bool;
use crate::codec::lemma_i64_le_bytes_round_trip;
use crate::codec::push_i64_le;
use crate::codec::push_u64_le;
use crate::codec::read_i64_le;
use crate::codec::read_u64_le;
use crate::codec::spec_i64_from_le_bytes;
use crate::codec::spec_i64_to_le_bytes;
use crate::codec::valid_bool_byte;
use crate::constants::SUBSCRIPTION_SIZE;
use crate::error::RecurringPaymentsError;
use crate::pubkey::push_key;
use crate::pubkey::read_key;
use crate::pubkey::Pubkey;
use vstd::bytes::lemma_auto_spec_u64_to_from_le_bytes;
use vstd::bytes::spec_u64_from_le_bytes;
use vstd::bytes::spec_u64_to_le_bytes;
use vstd::prelude::*;

verus! {

broadcast use vstd::array::group_array_axioms;

/// One authorization instance created against a plan. Wire layout, 130 bytes,
/// little-endian integers: `[0]` is_initialized(1) `[1]` is_approved(1)
/// `[2]` subscription_plan_account(32) `[34]` token_account(32) `[66]` owner(32)
/// `[98]` cycle_start(8, signed) `[106]` subscription_timeframe(8)
/// `[114]` max_amount(8) `[122]` withdrawn_amount(8).
#[verifier::ext_equal]
#[derive(Clone, Copy, Debug, PartialEq, Eq)]
pub struct Subscription {
    pub is_initialized: bool,
    pub is_approved: bool,
    pub subscription_plan_account: Pubkey,
    pub token_account: Pubkey,
    pub owner: Pubkey,
    pub cycle_start: i64,
    pub subscription_timeframe: u64,
    pub max_amount: u64,
    pub withdrawn_amount: u64,
}

/// The canonical record bytes for the given subscription field values.
pub open spec fn sub_bytes_from_parts(
    is_initialized: bool,
    is_approved: bool,
    subscription_plan_account: Seq<u8>,
    token_account: Seq<u8>,
    owner: Seq<u8>,
    cycle_start: i64,
    subscription_timeframe: u64,
    max_amount: u64,
    withdrawn_amount: u64,
) -> Seq<u8> {
    seq![bool_as_byte(is_initialized), bool_as_byte(is_approved)] + subscription_plan_account
        + token_account + owner + spec_i64_to_le_bytes(cycle_start) + spec_u64_to_le_bytes(
        subscription_timeframe,
    ) + spec_u64_to_le_bytes(max_amount) + spec_u64_to_le_bytes(withdrawn_amount)
}

/// The canonical encoding of a subscription record.
pub open spec fn subscription_record_bytes(s: Subscription) -> Seq<u8> {
    sub_bytes_from_parts(
        s.is_initialized,
        s.is_approved,
        s.subscription_plan_account@,
        s.token_account@,
        s.owner@,
        s.cycle_start,
        s.subscription_timeframe,
        s.max_amount,
        s.withdrawn_amount,
    )
}

/// Whether a strict decode of the leading subscription record in `s` succeeds.
pub open spec fn sub_strict_bytes_ok(s: Seq<u8>) -> bool {
    s.len() >= SUBSCRIPTION_SIZE && valid_bool_byte(s[0]) && valid_bool_byte(s[1])
}

/// How each field of `sub` is read from the leading subscription record in `s`.
pub open spec fn sub_fields_match(s: Seq<u8>, sub: Subscription) -> bool {
    &&& sub.is_initialized == byte_as_bool(s[0])
    &&& sub.is_approved == byte_as_bool(s[1])
    &&& sub.subscription_plan_account@ == s.subrange(2, 34)
    &&& sub.token_account@ == s.subrange(34, 66)
    &&& sub.owner@ == s.subrange(66, 98)
    &&& sub.cycle_start == spec_i64_from_le_bytes(s.subrange(98, 106))
    &&& sub.subscription_timeframe == spec_u64_from_le_bytes(s.subrange(106, 114))
    &&& sub.max_amount == spec_u64_from_le_bytes(s.subrange(114, 122))
    &&& sub.withdrawn_amount == spec_u64_from_le_bytes(s.subrange(122, 130))
}

impl Subscription {
    /// Whether the record guards against re-initialization.
    pub open spec fn spec_is_initialized(&self) -> bool {
        self.is_initialized
    }

    /// Whether the record guards against re-initialization.
    #[verifier::when_used_as_spec(spec_is_initialized)]
    pub fn is_initialized(&self) -> (r: bool)
        ensures
            r == self.is_initialized,
    {
        self.is_initialized
    }

    /// Strict decode of the leading `SUBSCRIPTION_SIZE` bytes: a boolean field
    /// byte other than 0 or 1 is a decode error.
    pub fn unpack_from_slice(src: &[u8]) -> (r: Result<Subscription, RecurringPaymentsError>)
        requires
            src@.len() >= SUBSCRIPTION_SIZE,
        ensures
            match r {
                Ok(sub) => sub_strict_bytes_ok(src@) && sub_fields_match(src@, sub),
                Err(e) => !sub_strict_bytes_ok(src@) && e
                    == RecurringPaymentsError::InvalidAccountData,
            },
    {
        let init_tag = src[0];
        if init_tag != 0 && init_tag != 1 {
            return Err(RecurringPaymentsError::InvalidAccountData);
        }
        let approved_tag = src[1];
        if approved_tag != 0 && approved_tag != 1 {
            return Err(RecurringPaymentsError::InvalidAccountData);
        }
        Ok(Self::read_fields(src, init_tag == 1, approved_tag == 1))
    }

    /// Unchecked decode of the leading `SUBSCRIPTION_SIZE` bytes: never fails;
    /// any nonzero boolean field byte reads as true.
    pub fn unpack_unchecked_from_slice(src: &[u8]) -> (sub: Subscription)
        requires
            src@.len() >= SUBSCRIPTION_SIZE,
        ensures
            sub_fields_match(src@, sub),
    {
        Self::read_fields(src, src[0] != 0, src[1] != 0)
    }

    /// Reads the fixed-offset fields shared by both decode modes.
    fn read_fields(src: &[u8], is_initialized: bool, is_approved: bool) -> (sub: Subscription)
        requires
            src@.len() >= SUBSCRIPTION_SIZE,
            is_initialized == byte_as_bool(src@[0]),
            is_approved == byte_as_bool(src@[1]),
        ensures
            sub_fields_match(src@, sub),
    {
        let subscription_plan_account = read_key(src, 2);
        let token_account = read_key(src, 34);
        let owner = read_key(src, 66);
        let cycle_start = read_i64_le(src, 98);
        let subscription_timeframe = read_u64_le(src, 106);
        let max_amount = read_u64_le(src, 114);
        let withdrawn_amount = read_u64_le(src, 122);
        Subscription {
            is_initialized,
            is_approved,
            subscription_plan_account,
            token_account,
            owner,
            cycle_start,
            subscription_timeframe,
            max_amount,
            withdrawn_amount,
        }
    }

    /// Strict decode of a record expected to exist already: the input must be
    /// exactly one record long, decode strictly, and be initialized.
    pub fn unpack(input: &[u8]) -> (r: Result<Subscription, RecurringPaymentsError>)
        ensures
            ({
                let s = input@;
                match r {
                    Ok(sub) => s.len() == SUBSCRIPTION_SIZE && sub_strict_bytes_ok(s)
                        && sub_fields_match(s, sub) && sub.is_initialized,
                    Err(e) => if s.len() != SUBSCRIPTION_SIZE || !sub_strict_bytes_ok(s) {
                        e == RecurringPaymentsError::InvalidAccountData
                    } else {
                        s[0] == 0 && e == RecurringPaymentsError::UninitializedAccount
                    },
                }
            }),
    {
        let sub = match Self::unpack_unchecked(input) {
            Ok(sub) => sub,
            Err(e) => {
                return Err(e);
            },
        };
        if (input[0] != 0 && input[0] != 1) || (input[1] != 0 && input[1] != 1) {
            return Err(RecurringPaymentsError::InvalidAccountData);
        }
        if !sub.is_initialized() {
            return Err(RecurringPaymentsError::UninitializedAccount);
        }
        Ok(sub)
    }

    /// Unchecked decode of a record about to be initialized: the input must be
    /// exactly one record long; the content never fails to decode.
    pub fn unpack_unchecked(input: &[u8]) -> (r: Result<Subscription, RecurringPaymentsError>)
        ensures
            ({
                let s = input@;
                match r {
                    Ok(sub) => s.len() == SUBSCRIPTION_SIZE && sub_fields_match(s, sub),
                    Err(e) => s.len() != SUBSCRIPTION_SIZE && e
                        == RecurringPaymentsError::InvalidAccountData,
                }
            }),
    {
        if input.len() != SUBSCRIPTION_SIZE {
            return Err(RecurringPaymentsError::InvalidAccountData);
        }
        Ok(Self::unpack_unchecked_from_slice(input))
    }

    /// Writes the canonical encoding of `self` over a buffer of exactly one
    /// record's length.
    pub fn pack_into_slice(&self, dst: &mut Vec<u8>)
        requires
            old(dst)@.len() == SUBSCRIPTION_SIZE,
        ensures
            final(dst)@ == subscription_record_bytes(*self),
    {
        let mut v: Vec<u8> = Vec::new();
        v.push(if self.is_initialized {
            1
        } else {
            0
        });
        v.push(if self.is_approved {
            1
        } else {
            0
        });
        push_key(&mut v, &self.subscription_plan_account);
        push_key(&mut v, &self.token_account);
        push_key(&mut v, &self.owner);
        push_i64_le(&mut v, self.cycle_start);
        push_u64_le(&mut v, self.subscription_timeframe);
        push_u64_le(&mut v, self.max_amount);
        push_u64_le(&mut v, self.withdrawn_amount);
        proof {
            assert(v@ =~= subscription_record_bytes(*self));
        }
        *dst = v;
    }

    /// Writes the canonical encoding of `src` if the buffer is exactly one
    /// record long, and rejects it untouched otherwise.
    pub fn pack(src: Subscription, dst: &mut Vec<u8>) -> (r: Result<(), RecurringPaymentsError>)
        ensures
            if old(dst)@.len() == SUBSCRIPTION_SIZE {
                r == Ok::<(), RecurringPaymentsError>(()) && final(dst)@
                    == subscription_record_bytes(src)
            } else {
                r == Err::<(), RecurringPaymentsError>(RecurringPaymentsError::InvalidAccountData)
                    && final(dst)@ == old(dst)@
            },
    {
        if dst.len() != SUBSCRIPTION_SIZE {
            return Err(RecurringPaymentsError::InvalidAccountData);
        }
        src.pack_into_slice(dst);
        Ok(())
    }
}

/// Round trip: a strict decode of the canonical encoding of any subscription
/// record succeeds and yields exactly that record.
pub proof fn lemma_subscription_round_trip(sub: Subscription, q: Subscription)
    requires
        sub_fields_match(subscription_record_bytes(sub), q),
    ensures
        sub_strict_bytes_ok(subscription_record_bytes(sub)),
        q == sub,
{
    lemma_auto_spec_u64_to_from_le_bytes();
    lemma_i64_le_bytes_round_trip(sub.cycle_start);
    let s = subscription_record_bytes(sub);
    assert(s.subrange(2, 34) =~= sub.subscription_plan_account@);
    assert(s.subrange(34, 66) =~= sub.token_account@);
    assert(s.subrange(66, 98) =~= sub.owner@);
    assert(s.subrange(98, 106) =~= spec_i64_to_le_bytes(sub.cycle_start));
    assert(s.subrange(106, 114) =~= spec_u64_to_le_bytes(sub.subscription_timeframe));
    assert(s.subrange(114, 122) =~= spec_u64_to_le_bytes(sub.max_amount));
    assert(s.subrange(122, 130) =~= spec_u64_to_le_bytes(sub.withdrawn_amount));
    assert(q.subscription_plan_account.bytes =~= sub.subscription_plan_account.bytes);
    assert(q.token_account.bytes =~= sub.token_account.bytes);
    assert(q.owner.bytes =~= sub.owner.bytes);
    assert(q =~= sub);
}

} // verus!
