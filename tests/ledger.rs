use x_gov_reputation::address::{profile_address, Address};
use x_gov_reputation::ledger::Ledger;
use x_gov_reputation::program::{
    record_validation, record_validation_at, register_agent, RecordValidation, RegisterAgent,
    ReputationError,
};

const PROGRAM: [u8; 32] = [42u8; 32];
const OWNER_A: [u8; 32] = [1u8; 32];
const BUYER_B: [u8; 32] = [2u8; 32];
const NOW: i64 = 1_700_000_000;

fn key(bytes: [u8; 32]) -> Address {
    Address { bytes }
}

fn ledger() -> Ledger {
    Ledger::new(key(PROGRAM))
}

fn signed_register(owner: [u8; 32]) -> RegisterAgent {
    RegisterAgent { signer: key(owner), signer_signed: true }
}

fn address_of(owner: [u8; 32]) -> Address {
    profile_address(&key(owner), &key(PROGRAM)).expect("derivable address")
}

fn validation_of(seller_owner: [u8; 32]) -> RecordValidation {
    RecordValidation { buyer: key(BUYER_B), buyer_signed: true, seller_profile: address_of(seller_owner) }
}

fn score_of(l: &Ledger, owner: [u8; 32]) -> (u16, u32) {
    let p = l.profile(&address_of(owner)).expect("registered");
    (p.reputation_score, p.total_successful_txs)
}

fn register_alice(l: &mut Ledger) {
    assert_eq!(register_agent(l, &signed_register(OWNER_A), "Alice".to_string()), Ok(()));
}

#[test]
fn register_alice_starts_at_one_hundred() {
    let mut l = ledger();
    register_alice(&mut l);
    let p = l.profile(&address_of(OWNER_A)).unwrap();
    assert_eq!(p.owner.bytes, OWNER_A);
    assert_eq!(p.name, "Alice");
    assert_eq!(p.reputation_score, 100);
    assert_eq!(p.total_successful_txs, 0);
    assert_eq!(l.validation_count(), 0);
}

#[test]
fn success_raises_score_and_records() {
    let mut l = ledger();
    register_alice(&mut l);
    assert_eq!(record_validation_at(&mut l, &validation_of(OWNER_A), true, NOW), Ok(()));
    assert_eq!(score_of(&l, OWNER_A), (101, 1));
    assert_eq!(l.validation_count(), 1);
    let v = l.validation(0);
    assert_eq!(v.buyer.bytes, BUYER_B);
    assert_eq!(v.seller.bytes, address_of(OWNER_A).bytes);
    assert!(v.success);
    assert_eq!(v.timestamp, NOW);
}

#[test]
fn thirty_failures_saturate_at_zero() {
    let mut l = ledger();
    register_alice(&mut l);
    record_validation_at(&mut l, &validation_of(OWNER_A), true, NOW).unwrap();
    for i in 0..30i64 {
        assert_eq!(record_validation_at(&mut l, &validation_of(OWNER_A), false, NOW + i), Ok(()));
    }
    assert_eq!(score_of(&l, OWNER_A), (0, 1));
    assert_eq!(l.validation_count(), 31);
}

#[test]
fn success_from_zero_gives_one() {
    let mut l = ledger();
    register_alice(&mut l);
    for _ in 0..20 {
        record_validation_at(&mut l, &validation_of(OWNER_A), false, NOW).unwrap();
    }
    assert_eq!(score_of(&l, OWNER_A), (0, 0));
    record_validation_at(&mut l, &validation_of(OWNER_A), true, NOW).unwrap();
    assert_eq!(score_of(&l, OWNER_A), (1, 1));
}

#[test]
fn second_registration_is_duplicate() {
    let mut l = ledger();
    register_alice(&mut l);
    record_validation_at(&mut l, &validation_of(OWNER_A), true, NOW).unwrap();
    let r = register_agent(&mut l, &signed_register(OWNER_A), "Mallory".to_string());
    assert_eq!(r, Err(ReputationError::DuplicateRegistration));
    let p = l.profile(&address_of(OWNER_A)).unwrap();
    assert_eq!(p.name, "Alice");
    assert_eq!((p.reputation_score, p.total_successful_txs), (101, 1));
}

#[test]
fn unknown_seller_creates_no_record() {
    let mut l = ledger();
    register_alice(&mut l);
    let r = record_validation_at(&mut l, &validation_of([3u8; 32]), true, NOW);
    assert_eq!(r, Err(ReputationError::UnknownSeller));
    assert_eq!(l.validation_count(), 0);
    assert_eq!(score_of(&l, OWNER_A), (100, 0));
}

#[test]
fn owner_key_is_not_a_profile_reference() {
    let mut l = ledger();
    register_alice(&mut l);
    let accounts = RecordValidation { buyer: key(BUYER_B), buyer_signed: true, seller_profile: key(OWNER_A) };
    assert_eq!(record_validation_at(&mut l, &accounts, true, NOW), Err(ReputationError::UnknownSeller));
}

#[test]
fn profile_address_is_derived_not_copied() {
    let a = address_of(OWNER_A);
    assert_ne!(a.bytes, OWNER_A);
    assert_eq!(address_of(OWNER_A).bytes, a.bytes);
    assert_ne!(address_of(BUYER_B).bytes, a.bytes);
    let other = profile_address(&key(OWNER_A), &key([43u8; 32])).unwrap();
    assert_ne!(other.bytes, a.bytes);
}

#[test]
fn name_of_fifty_bytes_is_accepted() {
    let mut l = ledger();
    let name = "x".repeat(50);
    assert_eq!(register_agent(&mut l, &signed_register(OWNER_A), name.clone()), Ok(()));
    assert_eq!(l.profile(&address_of(OWNER_A)).unwrap().name, name);
}

#[test]
fn name_of_fifty_one_bytes_is_rejected() {
    let mut l = ledger();
    let r = register_agent(&mut l, &signed_register(OWNER_A), "x".repeat(51));
    assert_eq!(r, Err(ReputationError::NameTooLong));
    assert!(l.profile(&address_of(OWNER_A)).is_none());
}

#[test]
fn name_bound_counts_bytes_not_characters() {
    let mut l = ledger();
    let name = "é".repeat(26);
    assert_eq!(name.chars().count(), 26);
    let r = register_agent(&mut l, &signed_register(OWNER_A), name);
    assert_eq!(r, Err(ReputationError::NameTooLong));
    assert_eq!(register_agent(&mut l, &signed_register(OWNER_A), "é".repeat(25)), Ok(()));
}

#[test]
fn unsigned_registration_is_rejected() {
    let mut l = ledger();
    let accounts = RegisterAgent { signer: key(OWNER_A), signer_signed: false };
    assert_eq!(register_agent(&mut l, &accounts, "Alice".to_string()), Err(ReputationError::AuthenticationFailure));
    assert!(l.profile(&address_of(OWNER_A)).is_none());
}

#[test]
fn unsigned_validation_is_rejected() {
    let mut l = ledger();
    register_alice(&mut l);
    let mut accounts = validation_of(OWNER_A);
    accounts.buyer_signed = false;
    assert_eq!(record_validation_at(&mut l, &accounts, true, NOW), Err(ReputationError::AuthenticationFailure));
    assert_eq!(record_validation(&mut l, &accounts, true), Err(ReputationError::AuthenticationFailure));
    assert_eq!(l.validation_count(), 0);
    assert_eq!(score_of(&l, OWNER_A), (100, 0));
}

#[test]
fn clock_reading_path_checks_seller_first() {
    let mut l = ledger();
    let r = record_validation(&mut l, &validation_of(OWNER_A), true);
    assert_eq!(r, Err(ReputationError::UnknownSeller));
    assert_eq!(l.validation_count(), 0);
}

#[test]
fn replayed_validation_counts_twice() {
    let mut l = ledger();
    register_alice(&mut l);
    record_validation_at(&mut l, &validation_of(OWNER_A), true, NOW).unwrap();
    record_validation_at(&mut l, &validation_of(OWNER_A), true, NOW).unwrap();
    assert_eq!(score_of(&l, OWNER_A), (102, 2));
    assert_eq!(l.validation_count(), 2);
}

#[test]
fn score_saturates_at_maximum() {
    let mut l = ledger();
    register_alice(&mut l);
    for _ in 0..(65535 - 100) {
        record_validation_at(&mut l, &validation_of(OWNER_A), true, NOW).unwrap();
    }
    assert_eq!(score_of(&l, OWNER_A), (65535, 65435));
    record_validation_at(&mut l, &validation_of(OWNER_A), true, NOW).unwrap();
    assert_eq!(score_of(&l, OWNER_A), (65535, 65436));
}

#[test]
fn failure_from_three_stops_at_zero() {
    let mut l = ledger();
    register_alice(&mut l);
    for _ in 0..19 {
        record_validation_at(&mut l, &validation_of(OWNER_A), false, NOW).unwrap();
    }
    assert_eq!(score_of(&l, OWNER_A), (5, 0));
    record_validation_at(&mut l, &validation_of(OWNER_A), false, NOW).unwrap();
    assert_eq!(score_of(&l, OWNER_A), (0, 0));
}

#[test]
fn profiles_of_two_owners_are_independent() {
    let mut l = ledger();
    register_alice(&mut l);
    assert_eq!(register_agent(&mut l, &signed_register(BUYER_B), "Bob".to_string()), Ok(()));
    record_validation_at(&mut l, &validation_of(BUYER_B), false, NOW).unwrap();
    assert_eq!(score_of(&l, OWNER_A), (100, 0));
    assert_eq!(score_of(&l, BUYER_B), (95, 0));
    assert_eq!(l.program_id().bytes, PROGRAM);
}
