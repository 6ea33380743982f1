use recurring_payments::error::RecurringPaymentsError;
use recurring_payments::processor::Processor;
use recurring_payments::pubkey::Pubkey;

fn key(b: u8) -> Pubkey {
    Pubkey::new_from_array([b; 32])
}

#[test]
fn derivation_is_deterministic() {
    let program = key(9);
    let plan = key(2);
    for nonce in 0u8..=20 {
        let first = Processor::authority_id(&program, &plan, nonce);
        let second = Processor::authority_id(&program, &plan, nonce);
        assert_eq!(first, second);
    }
}

#[test]
fn different_nonces_give_different_addresses() {
    let program = key(9);
    let plan = key(2);
    let mut found = Vec::new();
    for nonce in 0u8..=255 {
        if let Ok(k) = Processor::authority_id(&program, &plan, nonce) {
            found.push(k);
        }
        if found.len() == 2 {
            break;
        }
    }
    assert_eq!(found.len(), 2);
    assert!(!found[0].eq_key(&found[1]));
}

#[test]
fn derivation_matches_the_ledger_primitive() {
    let program = key(9);
    let plan = key(2);
    let host_program = solana_program::pubkey::Pubkey::new_from_array(program.to_bytes());
    for nonce in 0u8..=20 {
        let ours = Processor::authority_id(&program, &plan, nonce);
        let host = solana_program::pubkey::Pubkey::create_program_address(
            &[&plan.to_bytes()[..], &[nonce]],
            &host_program,
        );
        match (ours, host) {
            (Ok(k), Ok(h)) => assert_eq!(k.to_bytes(), h.to_bytes()),
            (Err(e), Err(_)) => assert_eq!(e, RecurringPaymentsError::InvalidProgramAddress),
            (ours, host) => panic!("derivations disagree: {:?} vs {:?}", ours, host),
        }
    }
}
