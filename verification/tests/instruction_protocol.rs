use recurring_payments::error::RecurringPaymentsError;
use recurring_payments::instruction::RecurringPaymentsInstruction;

#[test]
fn empty_buffer_is_invalid() {
    assert_eq!(
        RecurringPaymentsInstruction::unpack(&[]),
        Err(RecurringPaymentsError::InvalidInstruction)
    );
}

#[test]
fn create_plan_decodes_little_endian_payload() {
    let mut data = vec![0u8, 7u8];
    data.extend_from_slice(&2592000u64.to_le_bytes());
    data.extend_from_slice(&1000u64.to_le_bytes());
    assert_eq!(
        RecurringPaymentsInstruction::unpack(&data),
        Ok(RecurringPaymentsInstruction::CreateSubscriptionPlan {
            nonce: 7,
            subscription_timeframe: 2592000,
            max_amount: 1000,
        })
    );
}

#[test]
fn create_plan_short_payload_is_invalid() {
    // Opcode 0 with fewer than 17 payload bytes.
    let data = vec![0u8; 17];
    assert_eq!(
        RecurringPaymentsInstruction::unpack(&data),
        Err(RecurringPaymentsError::InvalidInstruction)
    );
    assert_eq!(
        RecurringPaymentsInstruction::unpack(&[0u8, 7u8]),
        Err(RecurringPaymentsError::InvalidInstruction)
    );
}

#[test]
fn create_subscription_decodes_little_endian_payload() {
    let mut data = vec![1u8];
    data.extend_from_slice(&86400u64.to_le_bytes());
    data.extend_from_slice(&100u64.to_le_bytes());
    assert_eq!(
        RecurringPaymentsInstruction::unpack(&data),
        Ok(RecurringPaymentsInstruction::CreateSubscription {
            subscription_timeframe: 86400,
            max_amount: 100,
        })
    );
}

#[test]
fn create_subscription_short_payload_is_invalid() {
    let data = vec![1u8; 16];
    assert_eq!(
        RecurringPaymentsInstruction::unpack(&data),
        Err(RecurringPaymentsError::InvalidInstruction)
    );
}

#[test]
fn claim_ignores_trailing_bytes() {
    assert_eq!(
        RecurringPaymentsInstruction::unpack(&[2u8]),
        Ok(RecurringPaymentsInstruction::Claim {})
    );
    assert_eq!(
        RecurringPaymentsInstruction::unpack(&[2u8, 9u8, 8u8, 7u8]),
        Ok(RecurringPaymentsInstruction::Claim {})
    );
}

#[test]
fn unknown_opcode_is_invalid() {
    assert_eq!(
        RecurringPaymentsInstruction::unpack(&[3u8]),
        Err(RecurringPaymentsError::InvalidInstruction)
    );
    assert_eq!(
        RecurringPaymentsInstruction::unpack(&[255u8, 0u8]),
        Err(RecurringPaymentsError::InvalidInstruction)
    );
}

#[test]
fn trailing_bytes_after_full_payload_are_ignored() {
    let mut data = vec![1u8];
    data.extend_from_slice(&86400u64.to_le_bytes());
    data.extend_from_slice(&100u64.to_le_bytes());
    data.extend_from_slice(&[0xde, 0xad]);
    assert_eq!(
        RecurringPaymentsInstruction::unpack(&data),
        Ok(RecurringPaymentsInstruction::CreateSubscription {
            subscription_timeframe: 86400,
            max_amount: 100,
        })
    );
}

#[test]
fn unpack_u64_reads_front_and_returns_rest() {
    let mut data = 0x0102030405060708u64.to_le_bytes().to_vec();
    data.extend_from_slice(&[42u8, 43u8]);
    let (value, rest) = RecurringPaymentsInstruction::unpack_u64(&data).unwrap();
    assert_eq!(value, 0x0102030405060708);
    assert_eq!(rest, &[42u8, 43u8]);
    assert_eq!(
        RecurringPaymentsInstruction::unpack_u64(&[1u8; 7]),
        Err(RecurringPaymentsError::InvalidInstruction)
    );
}
