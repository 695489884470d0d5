use vestor::errors::ErrorCode;
use vestor::schedule::{available, has_cliffed, unlocked};
use vestor::ticket::Ticket;

fn demo_ticket(cliff: u64, vesting: u64, amount: u64, created_at: u64) -> Ticket {
    Ticket {
        token_mint: [0; 32],
        owner: [1; 32],
        claimant: [2; 32],
        cliff,
        vesting,
        amount,
        claimed: 0,
        balance: amount,
        created_at,
        last_claimed_at: 0,
        num_claims: 0,
        irrevocable: false,
        is_revoked: false,
        revoked_at: 0,
        vault: [3; 32],
        creator_deposit_token_vault: [4; 32],
        claimant_receive_token_vault: [5; 32],
        bump: 0,
        issue_seq: 0,
    }
}

#[test]
fn halfway_through_vesting_releases_half() {
    let t = demo_ticket(0, 100, 1000, 1_000_000);
    let now = 1_000_000 + 50 * 86400;
    assert_eq!(available(&t, now), Ok(500));
}

#[test]
fn nothing_before_cliff_then_linear_release() {
    let t = demo_ticket(10, 100, 1000, 1_000_000);
    let before = 1_000_000 + 5 * 86400;
    assert_eq!(available(&t, before), Ok(0));
    let just_after = 1_000_000 + 10 * 86400 + 1;
    let expected = (10 * 86400 + 1) * 1000 / (100 * 86400);
    assert_eq!(available(&t, just_after), Ok(expected));
    assert_eq!(expected, 100);
}

#[test]
fn cliff_deadline_itself_releases_nothing() {
    let t = demo_ticket(10, 100, 1000, 1_000_000);
    let at_deadline = 1_000_000 + 10 * 86400;
    assert_eq!(available(&t, at_deadline), Ok(0));
    assert_eq!(has_cliffed(&t, at_deadline), Ok(false));
    assert_eq!(has_cliffed(&t, at_deadline + 1), Ok(true));
}

#[test]
fn no_cliff_counts_as_cliffed_immediately() {
    let t = demo_ticket(0, 100, 1000, 1_000_000);
    assert_eq!(has_cliffed(&t, 1_000_000), Ok(true));
    assert_eq!(available(&t, 1_000_000), Ok(0));
}

#[test]
fn zero_horizon_is_a_fault_not_a_zero_release() {
    let t = demo_ticket(0, 0, 1000, 1_000_000);
    assert_eq!(available(&t, 2_000_000), Err(ErrorCode::ArithmeticFault));
}

#[test]
fn clock_before_creation_is_a_fault() {
    let t = demo_ticket(0, 100, 1000, 1_000_000);
    assert_eq!(unlocked(&t, 999_999), Err(ErrorCode::ArithmeticFault));
    assert_eq!(available(&t, 999_999), Err(ErrorCode::ArithmeticFault));
}

#[test]
fn overflowing_cliff_is_a_fault() {
    let t = demo_ticket(u64::MAX / 2, u64::MAX / 2 + 1, 1000, 1_000_000);
    assert_eq!(has_cliffed(&t, 2_000_000), Err(ErrorCode::ArithmeticFault));
    assert_eq!(available(&t, 2_000_000), Err(ErrorCode::ArithmeticFault));
}

#[test]
fn overflowing_release_product_is_a_fault() {
    let t = demo_ticket(0, 1, u64::MAX, 1_000_000);
    // After a full day the elapsed-times-balance product leaves 64 bits.
    assert_eq!(available(&t, 1_000_000 + 86400), Err(ErrorCode::ArithmeticFault));
}

#[test]
fn release_is_computed_on_remaining_balance() {
    // Same schedule, smaller remaining balance: the fraction applies to
    // what is left, not to the original grant.
    let mut t = demo_ticket(0, 100, 1000, 1_000_000);
    t.claimed = 500;
    t.balance = 500;
    let now = 1_000_000 + 50 * 86400;
    assert_eq!(available(&t, now), Ok(250));
}
