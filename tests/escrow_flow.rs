use fymoney::custody::{derive_custody_address, escrow_domain_tag, same_address};
use fymoney::escrow::{validate_create, EscrowAccount, EscrowError, EscrowStatus, MAX_ESCROW_DURATION};
use fymoney::program::{
    claim_escrow, custody_authority, initialize_escrow, reclaim_expired_escrow, EscrowState,
};

const PROGRAM: [u8; 32] = [7u8; 32];
const SENDER: [u8; 32] = [1u8; 32];
const MINT: [u8; 32] = [9u8; 32];
const HASH: [u8; 32] = [42u8; 32];
const ALICE: [u8; 32] = [2u8; 32];
const BOB: [u8; 32] = [3u8; 32];
const NOW: i64 = 1_700_000_000;
const DAY: i64 = 86_400;

fn funded(amount: u64) -> EscrowState {
    let mut state = EscrowState::new(PROGRAM);
    state.tokens.mint_to(SENDER, MINT, amount).unwrap();
    state
}

fn created(amount: u64, expires_at: i64) -> (EscrowState, EscrowAccount) {
    let mut state = funded(amount);
    let rec = initialize_escrow(&mut state, SENDER, MINT, amount, HASH, expires_at, NOW).unwrap();
    (state, rec)
}

#[test]
fn create_locks_amount_in_custody() {
    let (state, rec) = created(1000, NOW + DAY);
    assert_eq!(rec.status, EscrowStatus::Active);
    assert_eq!(rec.amount, 1000);
    assert_eq!(rec.created_at, NOW);
    assert_eq!(rec.expires_at, NOW + DAY);
    assert!(rec.recipient_wallet.is_none());
    assert_eq!(state.tokens.balance_of(&rec.custody_address, &MINT), Some(1000));
    assert_eq!(state.tokens.balance_of(&SENDER, &MINT), Some(0));
    let stored = state.records.get(&SENDER, &HASH).unwrap();
    assert_eq!(stored.status, EscrowStatus::Active);
    assert_eq!(stored.custody_address, rec.custody_address);
}

#[test]
fn create_zero_amount_is_invalid() {
    let mut state = funded(1000);
    let r = initialize_escrow(&mut state, SENDER, MINT, 0, HASH, NOW + DAY, NOW);
    assert_eq!(r.unwrap_err(), EscrowError::InvalidAmount);
    assert!(state.records.get(&SENDER, &HASH).is_none());
    assert_eq!(state.tokens.balance_of(&SENDER, &MINT), Some(1000));
}

#[test]
fn create_thirty_one_days_is_too_long() {
    let mut state = funded(1000);
    let r = initialize_escrow(&mut state, SENDER, MINT, 10, HASH, NOW + 31 * DAY, NOW);
    assert_eq!(r.unwrap_err(), EscrowError::ExpirationTooLong);
    assert!(state.records.get(&SENDER, &HASH).is_none());
}

#[test]
fn create_expiry_bounds() {
    assert_eq!(validate_create(1, NOW, NOW), Err(EscrowError::InvalidExpiration));
    assert_eq!(validate_create(1, NOW - 1, NOW), Err(EscrowError::InvalidExpiration));
    assert_eq!(validate_create(1, NOW + 1, NOW), Ok(()));
    assert_eq!(validate_create(1, NOW + MAX_ESCROW_DURATION, NOW), Ok(()));
    assert_eq!(
        validate_create(1, NOW + MAX_ESCROW_DURATION + 1, NOW),
        Err(EscrowError::ExpirationTooLong)
    );
    assert_eq!(validate_create(1, i64::MAX, i64::MAX - 1), Ok(()));
    assert_eq!(validate_create(0, NOW - 1, NOW), Err(EscrowError::InvalidAmount));
}

#[test]
fn create_twice_for_same_key_fails() {
    let (mut state, _) = created(100, NOW + DAY);
    state.tokens.mint_to(SENDER, MINT, 100).unwrap();
    let r = initialize_escrow(&mut state, SENDER, MINT, 100, HASH, NOW + DAY, NOW);
    assert_eq!(r.unwrap_err(), EscrowError::AlreadyExists);
    assert_eq!(state.tokens.balance_of(&SENDER, &MINT), Some(100));
}

#[test]
fn create_without_funds_fails() {
    let mut state = funded(50);
    let r = initialize_escrow(&mut state, SENDER, MINT, 51, HASH, NOW + DAY, NOW);
    assert_eq!(r.unwrap_err(), EscrowError::InsufficientFunds);
    assert!(state.records.get(&SENDER, &HASH).is_none());
    assert_eq!(state.tokens.balance_of(&SENDER, &MINT), Some(50));
}

#[test]
fn end_to_end_claim() {
    let (mut state, rec) = created(1000, NOW + DAY);
    let claimed = claim_escrow(&mut state, SENDER, HASH, ALICE, NOW + 60).unwrap();
    assert_eq!(claimed.status, EscrowStatus::Claimed);
    assert_eq!(claimed.recipient_wallet, Some(ALICE));
    assert_eq!(state.tokens.balance_of(&rec.custody_address, &MINT), Some(0));
    assert_eq!(state.tokens.balance_of(&ALICE, &MINT), Some(1000));
    let stored = state.records.get(&SENDER, &HASH).unwrap();
    assert_eq!(stored.status, EscrowStatus::Claimed);
    assert_eq!(stored.recipient_wallet, Some(ALICE));
}

#[test]
fn end_to_end_reclaim() {
    let (mut state, rec) = created(500, NOW + 3600);
    let early = reclaim_expired_escrow(&mut state, SENDER, SENDER, HASH, NOW + 3600);
    assert_eq!(early.unwrap_err(), EscrowError::EscrowNotExpired);
    let late_claim = claim_escrow(&mut state, SENDER, HASH, ALICE, NOW + 3601);
    assert_eq!(late_claim.unwrap_err(), EscrowError::EscrowExpired);
    let back = reclaim_expired_escrow(&mut state, SENDER, SENDER, HASH, NOW + 3601).unwrap();
    assert_eq!(back.status, EscrowStatus::Expired);
    assert_eq!(state.tokens.balance_of(&SENDER, &MINT), Some(500));
    assert_eq!(state.tokens.balance_of(&rec.custody_address, &MINT), Some(0));
    let after = claim_escrow(&mut state, SENDER, HASH, ALICE, NOW + 3602);
    assert_eq!(after.unwrap_err(), EscrowError::EscrowNotActive);
    assert_eq!(state.tokens.balance_of(&ALICE, &MINT), None);
}

#[test]
fn double_claim_pays_once() {
    let (mut state, _) = created(1000, NOW + DAY);
    assert!(claim_escrow(&mut state, SENDER, HASH, ALICE, NOW + 1).is_ok());
    let second = claim_escrow(&mut state, SENDER, HASH, BOB, NOW + 1);
    assert_eq!(second.unwrap_err(), EscrowError::EscrowNotActive);
    assert_eq!(state.tokens.balance_of(&ALICE, &MINT), Some(1000));
    assert_eq!(state.tokens.balance_of(&BOB, &MINT), None);
}

#[test]
fn repeated_claim_is_rejected() {
    let (mut state, _) = created(1000, NOW + DAY);
    assert!(claim_escrow(&mut state, SENDER, HASH, ALICE, NOW + 1).is_ok());
    let again = claim_escrow(&mut state, SENDER, HASH, ALICE, NOW + 2);
    assert_eq!(again.unwrap_err(), EscrowError::EscrowNotActive);
    assert_eq!(state.tokens.balance_of(&ALICE, &MINT), Some(1000));
}

#[test]
fn claim_at_expiry_instant_succeeds() {
    let (mut state, _) = created(10, NOW + DAY);
    assert!(claim_escrow(&mut state, SENDER, HASH, ALICE, NOW + DAY).is_ok());
}

#[test]
fn claim_of_missing_record_fails() {
    let mut state = funded(10);
    let r = claim_escrow(&mut state, SENDER, HASH, ALICE, NOW);
    assert_eq!(r.unwrap_err(), EscrowError::EscrowNotFound);
    let r = reclaim_expired_escrow(&mut state, SENDER, SENDER, HASH, NOW);
    assert_eq!(r.unwrap_err(), EscrowError::EscrowNotFound);
}

#[test]
fn claim_with_bound_other_recipient_fails() {
    let mut rec = created(10, NOW + DAY).1;
    rec.recipient_wallet = Some(ALICE);
    assert_eq!(rec.claim(BOB, NOW).unwrap_err(), EscrowError::InvalidRecipient);
    assert_eq!(rec.status, EscrowStatus::Active);
    let order = rec.claim(ALICE, NOW).unwrap();
    assert_eq!(order.to, ALICE);
    assert_eq!(order.amount, 10);
    assert_eq!(rec.status, EscrowStatus::Claimed);
}

#[test]
fn reclaim_by_other_caller_fails() {
    let (mut state, _) = created(10, NOW + 5);
    let r = reclaim_expired_escrow(&mut state, BOB, SENDER, HASH, NOW + 6);
    assert_eq!(r.unwrap_err(), EscrowError::UnauthorizedSender);
    assert_eq!(state.records.get(&SENDER, &HASH).unwrap().status, EscrowStatus::Active);
}

#[test]
fn reclaim_after_claim_fails() {
    let (mut state, _) = created(10, NOW + 5);
    assert!(claim_escrow(&mut state, SENDER, HASH, ALICE, NOW + 1).is_ok());
    let r = reclaim_expired_escrow(&mut state, SENDER, SENDER, HASH, NOW + 6);
    assert_eq!(r.unwrap_err(), EscrowError::EscrowNotActive);
}

#[test]
fn claim_into_full_account_overflows() {
    let (mut state, _) = created(10, NOW + DAY);
    state.tokens.mint_to(ALICE, MINT, u64::MAX - 5).unwrap();
    let r = claim_escrow(&mut state, SENDER, HASH, ALICE, NOW + 1);
    assert_eq!(r.unwrap_err(), EscrowError::ArithmeticOverflow);
    assert_eq!(state.records.get(&SENDER, &HASH).unwrap().status, EscrowStatus::Active);
}

#[test]
fn mint_to_overflow_is_refused() {
    let mut state = funded(u64::MAX);
    assert_eq!(state.tokens.mint_to(SENDER, MINT, 1), Err(EscrowError::ArithmeticOverflow));
    assert_eq!(state.tokens.balance_of(&SENDER, &MINT), Some(u64::MAX));
}

#[test]
fn transfer_to_self_keeps_balance() {
    let mut state = funded(30);
    assert_eq!(state.tokens.transfer(SENDER, SENDER, MINT, 30), Ok(()));
    assert_eq!(state.tokens.balance_of(&SENDER, &MINT), Some(30));
    assert_eq!(state.tokens.transfer(SENDER, BOB, MINT, 31), Err(EscrowError::InsufficientFunds));
}

#[test]
fn custody_derivation_is_deterministic_and_keyed() {
    let (a, bump_a) = derive_custody_address(&SENDER, &HASH, &PROGRAM).unwrap();
    let (b, bump_b) = derive_custody_address(&SENDER, &HASH, &PROGRAM).unwrap();
    assert_eq!(a, b);
    assert_eq!(bump_a, bump_b);
    assert_ne!(a, SENDER);
    assert_ne!(a, HASH);
    assert_ne!(a, PROGRAM);
    let (c, _) = derive_custody_address(&SENDER, &[43u8; 32], &PROGRAM).unwrap();
    assert_ne!(a, c);
    let (d, _) = derive_custody_address(&ALICE, &HASH, &PROGRAM).unwrap();
    assert_ne!(a, d);
}

#[test]
fn custody_address_matches_solana_derivation() {
    let program = anchor_lang::prelude::Pubkey::new_from_array(PROGRAM);
    let (expected, bump) = anchor_lang::prelude::Pubkey::find_program_address(
        &[b"escrow".as_ref(), SENDER.as_ref(), HASH.as_ref()],
        &program,
    );
    let (a, n) = derive_custody_address(&SENDER, &HASH, &PROGRAM).unwrap();
    assert_eq!(a, expected.to_bytes());
    assert_eq!(n, bump);
}

#[test]
fn custody_authority_carries_derivation_inputs() {
    let (_, rec) = created(10, NOW + DAY);
    let auth = custody_authority(&rec);
    assert_eq!(auth.tag, b"escrow".to_vec());
    assert_eq!(escrow_domain_tag(), b"escrow".to_vec());
    assert_eq!(auth.sender, SENDER);
    assert_eq!(auth.recipient_hash, HASH);
    assert_eq!(auth.nonce, rec.bump);
}

#[test]
fn same_address_compares_bytes() {
    assert!(same_address(&SENDER, &[1u8; 32]));
    let mut other = SENDER;
    other[31] = 0;
    assert!(!same_address(&SENDER, &other));
}
