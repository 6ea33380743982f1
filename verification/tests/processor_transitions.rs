use recurring_payments::constants::SUBSCRIPTION_PLAN_SIZE;
use recurring_payments::constants::SUBSCRIPTION_SIZE;
use recurring_payments::error::RecurringPaymentsError;
use recurring_payments::processor::AccountInput;
use recurring_payments::processor::Processor;
use recurring_payments::pubkey::Pubkey;
use recurring_payments::subscription::Subscription;
use recurring_payments::subscription_plan::SubscriptionPlan;

fn key(b: u8) -> Pubkey {
    Pubkey::new_from_array([b; 32])
}

/// A (program, plan account) pair for which the given nonce derives a custody
/// address: scans the plan key's fill byte until the derivation succeeds.
fn derivable_setup(nonce: u8) -> (Pubkey, Pubkey, Pubkey) {
    let program = key(9);
    for b in 0u8..=255 {
        let plan_key = key(b);
        if let Ok(authority) = Processor::authority_id(&program, &plan_key, nonce) {
            return (program, plan_key, authority);
        }
    }
    panic!("no derivable plan key found");
}

fn created_plan(
    nonce: u8,
    subscription_timeframe: u64,
    max_amount: u64,
) -> (Pubkey, Pubkey, Vec<u8>) {
    let (program, plan_key, authority) = derivable_setup(nonce);
    let mut plan_data = vec![0u8; SUBSCRIPTION_PLAN_SIZE];
    Processor::process_create_subscription_plan(
        &program,
        &plan_key,
        &mut plan_data,
        &key(1),
        &authority,
        &key(3),
        nonce,
        subscription_timeframe,
        max_amount,
    )
    .unwrap();
    (program, plan_key, plan_data)
}

fn created_subscription(cycle_start: i64, timeframe: u64, max_amount: u64) -> Vec<u8> {
    let (_, plan_key, plan_data) = created_plan(7, timeframe, max_amount);
    let mut sub_data = vec![0u8; SUBSCRIPTION_SIZE];
    Processor::process_create_subscription(
        &mut sub_data,
        &plan_key,
        &plan_data,
        &key(5),
        cycle_start,
        timeframe,
        max_amount,
    )
    .unwrap();
    sub_data
}

#[test]
fn create_plan_writes_populated_record() {
    let (program, plan_key, plan_data) = created_plan(7, 2592000, 1000);
    let plan = SubscriptionPlan::unpack(&plan_data).unwrap();
    assert!(plan.is_initialized);
    assert_eq!(plan.nonce, 7);
    assert_eq!(plan.owner, key(1));
    assert_eq!(plan.token, key(3));
    assert_eq!(plan.subscription_timeframe, 2592000);
    assert_eq!(plan.max_amount, 1000);
    let derived = Processor::authority_id(&program, &plan_key, 7).unwrap();
    assert!(plan.authority.eq_key(&derived));
}

#[test]
fn create_plan_on_initialized_account_fails_unchanged() {
    let (program, plan_key, plan_data) = created_plan(7, 2592000, 1000);
    let authority = Processor::authority_id(&program, &plan_key, 7).unwrap();
    let mut again = plan_data.clone();
    let r = Processor::process_create_subscription_plan(
        &program,
        &plan_key,
        &mut again,
        &key(1),
        &authority,
        &key(3),
        7,
        2592000,
        1000,
    );
    assert_eq!(r, Err(RecurringPaymentsError::AccountAlreadyInitialized));
    assert_eq!(again, plan_data);
}

#[test]
fn create_plan_with_wrong_authority_fails_unchanged() {
    let (program, plan_key, authority) = derivable_setup(7);
    let mut wrong = authority.to_bytes();
    wrong[0] = wrong[0].wrapping_add(1);
    let wrong_authority = Pubkey::new_from_array(wrong);
    let mut plan_data = vec![0u8; SUBSCRIPTION_PLAN_SIZE];
    let r = Processor::process_create_subscription_plan(
        &program,
        &plan_key,
        &mut plan_data,
        &key(1),
        &wrong_authority,
        &key(3),
        7,
        2592000,
        1000,
    );
    assert_eq!(r, Err(RecurringPaymentsError::InvalidProgramAddress));
    assert_eq!(plan_data, vec![0u8; SUBSCRIPTION_PLAN_SIZE]);
}

#[test]
fn create_subscription_writes_approved_record() {
    let (_, plan_key, plan_data) = created_plan(7, 2592000, 1000);
    let mut sub_data = vec![0u8; SUBSCRIPTION_SIZE];
    Processor::process_create_subscription(
        &mut sub_data,
        &plan_key,
        &plan_data,
        &key(5),
        12345,
        2592000,
        1000,
    )
    .unwrap();
    let sub = Subscription::unpack(&sub_data).unwrap();
    assert!(sub.is_initialized);
    assert!(sub.is_approved);
    assert_eq!(sub.subscription_plan_account, plan_key);
    assert_eq!(sub.token_account, key(5));
    assert_eq!(sub.owner, key(1));
    assert_eq!(sub.cycle_start, 12345);
    assert_eq!(sub.subscription_timeframe, 2592000);
    assert_eq!(sub.max_amount, 1000);
    assert_eq!(sub.withdrawn_amount, 0);
}

#[test]
fn create_subscription_with_mismatched_parameters_writes_nothing() {
    let (_, plan_key, plan_data) = created_plan(7, 2592000, 1000);
    let mut sub_data = vec![0u8; SUBSCRIPTION_SIZE];
    let r = Processor::process_create_subscription(
        &mut sub_data,
        &plan_key,
        &plan_data,
        &key(5),
        0,
        2592001,
        1000,
    );
    assert_eq!(r, Err(RecurringPaymentsError::InvalidSubscriptionTimeframe));
    assert_eq!(sub_data, vec![0u8; SUBSCRIPTION_SIZE]);
    let r = Processor::process_create_subscription(
        &mut sub_data,
        &plan_key,
        &plan_data,
        &key(5),
        0,
        2592000,
        999,
    );
    assert_eq!(r, Err(RecurringPaymentsError::InvalidMaxAmount));
    assert_eq!(sub_data, vec![0u8; SUBSCRIPTION_SIZE]);
}

#[test]
fn create_subscription_against_uninitialized_plan_fails() {
    let plan_data = vec![0u8; SUBSCRIPTION_PLAN_SIZE];
    let mut sub_data = vec![0u8; SUBSCRIPTION_SIZE];
    let r = Processor::process_create_subscription(
        &mut sub_data,
        &key(2),
        &plan_data,
        &key(5),
        0,
        2592000,
        1000,
    );
    assert_eq!(r, Err(RecurringPaymentsError::UninitializedAccount));
    assert_eq!(sub_data, vec![0u8; SUBSCRIPTION_SIZE]);
}

#[test]
fn create_subscription_on_initialized_account_fails_unchanged() {
    let (_, plan_key, plan_data) = created_plan(7, 2592000, 1000);
    let mut sub_data = created_subscription(0, 2592000, 1000);
    let before = sub_data.clone();
    let r = Processor::process_create_subscription(
        &mut sub_data,
        &plan_key,
        &plan_data,
        &key(5),
        0,
        2592000,
        1000,
    );
    assert_eq!(r, Err(RecurringPaymentsError::AccountAlreadyInitialized));
    assert_eq!(sub_data, before);
}

#[test]
fn claim_rolls_over_elapsed_cycles_once() {
    let t: i64 = 1_600_000_000;
    let mut sub_data = created_subscription(t, 86400, 100);
    // Put a nonzero withdrawn amount into the current cycle first.
    Processor::process_claim(&mut sub_data, t, 30).unwrap();
    assert_eq!(Subscription::unpack(&sub_data).unwrap().withdrawn_amount, 30);
    // Two full cycles later the window start advances by exactly two
    // timeframes and the withdrawn amount resets before the new claim.
    let now = t + 2 * 86400 + 10;
    Processor::process_claim(&mut sub_data, now, 5).unwrap();
    let sub = Subscription::unpack(&sub_data).unwrap();
    assert_eq!(sub.cycle_start, t + 2 * 86400);
    assert_eq!(sub.withdrawn_amount, 5);
}

#[test]
fn claim_enforces_remaining_allowance() {
    let t: i64 = 1_600_000_000;
    let mut sub_data = created_subscription(t, 86400, 100);
    Processor::process_claim(&mut sub_data, t + 10, 80).unwrap();
    let before = sub_data.clone();
    // 21 exceeds the remaining allowance of 20 in the same cycle.
    let r = Processor::process_claim(&mut sub_data, t + 20, 21);
    assert_eq!(r, Err(RecurringPaymentsError::InvalidMaxAmount));
    assert_eq!(sub_data, before);
    // 20 exactly exhausts it.
    Processor::process_claim(&mut sub_data, t + 20, 20).unwrap();
    let sub = Subscription::unpack(&sub_data).unwrap();
    assert_eq!(sub.withdrawn_amount, 100);
    assert_eq!(sub.cycle_start, t);
}

#[test]
fn claim_on_unapproved_or_uninitialized_record_fails() {
    let t: i64 = 1_600_000_000;
    let mut sub_data = created_subscription(t, 86400, 100);
    sub_data[1] = 0;
    assert_eq!(
        Processor::process_claim(&mut sub_data, t, 1),
        Err(RecurringPaymentsError::InvalidAccountData)
    );
    let mut empty = vec![0u8; SUBSCRIPTION_SIZE];
    assert_eq!(
        Processor::process_claim(&mut empty, t, 1),
        Err(RecurringPaymentsError::UninitializedAccount)
    );
}

#[test]
fn end_to_end_plan_subscription_claim() {
    let (program, plan_key, authority) = derivable_setup(7);
    // CreatePlan(nonce=7, timeframe=2592000, max=1000) through the dispatcher.
    let mut instruction = vec![0u8, 7u8];
    instruction.extend_from_slice(&2592000u64.to_le_bytes());
    instruction.extend_from_slice(&1000u64.to_le_bytes());
    let mut plan_data = vec![0u8; SUBSCRIPTION_PLAN_SIZE];
    let rest = vec![
        AccountInput { key: key(1), data: Vec::new() },
        AccountInput { key: authority, data: Vec::new() },
        AccountInput { key: key(3), data: Vec::new() },
    ];
    Processor::process(&program, &plan_key, &mut plan_data, &rest, &instruction, 0, 0).unwrap();

    // CreateSubscription(timeframe=2592000, max=1000).
    let mut instruction = vec![1u8];
    instruction.extend_from_slice(&2592000u64.to_le_bytes());
    instruction.extend_from_slice(&1000u64.to_le_bytes());
    let sub_key = key(4);
    let mut sub_data = vec![0u8; SUBSCRIPTION_SIZE];
    let now: i64 = 1_700_000_000;
    let rest = vec![
        AccountInput { key: plan_key, data: plan_data.clone() },
        AccountInput { key: key(5), data: Vec::new() },
        AccountInput { key: key(6), data: Vec::new() },
        AccountInput { key: key(7), data: Vec::new() },
        AccountInput { key: key(8), data: Vec::new() },
    ];
    Processor::process(&program, &sub_key, &mut sub_data, &rest, &instruction, now, 0).unwrap();
    let sub = Subscription::unpack(&sub_data).unwrap();
    assert!(sub.is_approved);
    assert_eq!(sub.withdrawn_amount, 0);
    assert_eq!(sub.cycle_start, now);

    // A claim for the full cap succeeds once and fails immediately after.
    let claim = vec![2u8];
    let rest: Vec<AccountInput> = Vec::new();
    Processor::process(&program, &sub_key, &mut sub_data, &rest, &claim, now + 5, 1000).unwrap();
    assert_eq!(Subscription::unpack(&sub_data).unwrap().withdrawn_amount, 1000);
    let before = sub_data.clone();
    let r = Processor::process(&program, &sub_key, &mut sub_data, &rest, &claim, now + 6, 1000);
    assert_eq!(r, Err(RecurringPaymentsError::InvalidMaxAmount));
    assert_eq!(sub_data, before);
}

#[test]
fn dispatcher_reports_missing_accounts_and_bad_instructions() {
    let mut data = vec![0u8; SUBSCRIPTION_PLAN_SIZE];
    let rest: Vec<AccountInput> = Vec::new();
    let mut instruction = vec![0u8, 7u8];
    instruction.extend_from_slice(&[0u8; 16]);
    assert_eq!(
        Processor::process(&key(9), &key(2), &mut data, &rest, &instruction, 0, 0),
        Err(RecurringPaymentsError::NotEnoughAccountKeys)
    );
    assert_eq!(
        Processor::process(&key(9), &key(2), &mut data, &rest, &[4u8], 0, 0),
        Err(RecurringPaymentsError::InvalidInstruction)
    );
    assert_eq!(data, vec![0u8; SUBSCRIPTION_PLAN_SIZE]);
}

#[test]
fn token_account_gate_checks_owner_then_bytes() {
    let token_program = key(11);
    let other_owner = key(12);
    // A minimal initialized token account record: zeros with the state byte set.
    let mut valid = vec![0u8; 165];
    valid[108] = 1;
    assert!(Processor::unpack_token_account(&token_program, &valid, &token_program).is_ok());
    assert_eq!(
        Processor::unpack_token_account(&other_owner, &valid, &token_program).unwrap_err(),
        RecurringPaymentsError::IncorrectTokenProgramId
    );
    let uninitialized = vec![0u8; 165];
    assert_eq!(
        Processor::unpack_token_account(&token_program, &uninitialized, &token_program)
            .unwrap_err(),
        RecurringPaymentsError::ExpectedAccount
    );
    let short = vec![0u8; 10];
    assert_eq!(
        Processor::unpack_token_account(&token_program, &short, &token_program).unwrap_err(),
        RecurringPaymentsError::ExpectedAccount
    );
}
