use solana_counter::CounterLedger;
use solana_counter::ErrorCode;
use solana_counter::MINIMUM_PAYMENT;

#[test]
fn initialize_on_fresh_address() {
    let mut slot = CounterLedger::new();
    assert!(!slot.initialized());
    assert_eq!(slot.initialize(), Ok(0));
    assert!(slot.initialized());
    assert_eq!(slot.count(), 0);
    assert_eq!(slot.custodial_balance(), 0);
}

#[test]
fn second_initialize_fails() {
    let mut slot = CounterLedger::new();
    assert_eq!(slot.initialize(), Ok(0));
    assert_eq!(slot.initialize(), Err(ErrorCode::AlreadyInitialized));
    assert_eq!(slot.count(), 0);
}

#[test]
fn increment_below_minimum_changes_nothing() {
    let mut slot = CounterLedger::new();
    slot.initialize().unwrap();
    let mut payer: u64 = 50_000_000;
    assert_eq!(
        slot.increment(&mut payer, 9_999_999),
        Err(ErrorCode::InsufficientPayment)
    );
    assert_eq!(slot.count(), 0);
    assert_eq!(slot.custodial_balance(), 0);
    assert_eq!(payer, 50_000_000);
}

#[test]
fn decrement_below_minimum_changes_nothing() {
    let mut slot = CounterLedger::new();
    slot.initialize().unwrap();
    let mut payer: u64 = 50_000_000;
    assert_eq!(
        slot.decrement(&mut payer, MINIMUM_PAYMENT - 1),
        Err(ErrorCode::InsufficientPayment)
    );
    assert_eq!(slot.count(), 0);
    assert_eq!(slot.custodial_balance(), 0);
    assert_eq!(payer, 50_000_000);
}

#[test]
fn increment_at_minimum_succeeds() {
    let mut slot = CounterLedger::new();
    slot.initialize().unwrap();
    let mut payer: u64 = 50_000_000;
    assert_eq!(slot.increment(&mut payer, 10_000_000), Ok(1));
    assert_eq!(slot.count(), 1);
    assert_eq!(slot.custodial_balance(), 10_000_000);
    assert_eq!(payer, 40_000_000);
}

#[test]
fn decrement_at_zero_fails_after_the_transfer() {
    let mut slot = CounterLedger::new();
    slot.initialize().unwrap();
    let mut payer: u64 = 10_000_000;
    assert_eq!(
        slot.decrement(&mut payer, 10_000_000),
        Err(ErrorCode::CounterUnderflow)
    );
    // The count is protected, but the payment has already moved: the
    // ordering hazard the design carries deliberately.
    assert_eq!(slot.count(), 0);
    assert_eq!(slot.custodial_balance(), 10_000_000);
    assert_eq!(payer, 0);
}

#[test]
fn increment_fails_when_payer_cannot_cover() {
    let mut slot = CounterLedger::new();
    slot.initialize().unwrap();
    let mut payer: u64 = 9_999_999;
    assert_eq!(
        slot.increment(&mut payer, 10_000_000),
        Err(ErrorCode::TransferFailed)
    );
    assert_eq!(slot.count(), 0);
    assert_eq!(slot.custodial_balance(), 0);
    assert_eq!(payer, 9_999_999);
}

#[test]
fn increment_at_maximum_fails_before_the_transfer() {
    let mut slot = CounterLedger::from_record(u64::MAX, 0);
    let mut payer: u64 = 20_000_000;
    assert_eq!(
        slot.increment(&mut payer, 10_000_000),
        Err(ErrorCode::CounterOverflow)
    );
    assert_eq!(slot.count(), u64::MAX);
    assert_eq!(slot.custodial_balance(), 0);
    assert_eq!(payer, 20_000_000);
}

#[test]
fn conservation_over_a_run() {
    // Three increments and two decrements, each paying its own amount:
    // the count ends at 3 - 2 = 1 and the custodial balance holds the sum
    // of all five payments, taken from the payer.
    let mut slot = CounterLedger::new();
    slot.initialize().unwrap();
    let mut payer: u64 = 100_000_000;
    assert_eq!(slot.increment(&mut payer, 10_000_000), Ok(1));
    assert_eq!(slot.increment(&mut payer, 12_000_000), Ok(2));
    assert_eq!(slot.decrement(&mut payer, 10_000_000), Ok(1));
    assert_eq!(slot.increment(&mut payer, 15_000_000), Ok(2));
    assert_eq!(slot.decrement(&mut payer, 11_000_000), Ok(1));
    assert_eq!(slot.count(), 1);
    let total: u64 = 10_000_000 + 12_000_000 + 10_000_000 + 15_000_000 + 11_000_000;
    assert_eq!(slot.custodial_balance(), total);
    assert_eq!(payer, 100_000_000 - total);
}

#[test]
fn decrement_never_goes_below_zero() {
    let mut slot = CounterLedger::new();
    slot.initialize().unwrap();
    let mut payer: u64 = 40_000_000;
    assert_eq!(slot.increment(&mut payer, 10_000_000), Ok(1));
    assert_eq!(slot.decrement(&mut payer, 10_000_000), Ok(0));
    assert_eq!(
        slot.decrement(&mut payer, 10_000_000),
        Err(ErrorCode::CounterUnderflow)
    );
    assert_eq!(slot.count(), 0);
}

#[test]
fn loaded_record_continues_where_it_left_off() {
    let mut slot = CounterLedger::from_record(41, 70_000_000);
    let mut payer: u64 = 10_000_000;
    assert_eq!(slot.increment(&mut payer, 10_000_000), Ok(42));
    assert_eq!(slot.custodial_balance(), 80_000_000);
}
