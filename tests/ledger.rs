use neural_pathway::validation::{validate_agent_pair, validate_storage};
use neural_pathway::{
    NeuralPathway, NeuralPathwayError, Outcome, PathwayKey, PathwayStore, Pubkey, TokenMetadata,
    TokenRegistry,
};

fn key(b: u8) -> Pubkey {
    Pubkey::new_from_array([b; 32])
}

fn store_with(a: u8, b: u8, now: i64) -> PathwayStore {
    let mut s = PathwayStore::new();
    s.create(key(a), key(b), true, now).unwrap();
    s
}

#[test]
fn pubkey_equality_is_bytewise() {
    let mut bytes = [7u8; 32];
    assert!(key(7).same(&Pubkey::new_from_array(bytes)));
    bytes[31] = 8;
    assert!(!key(7).same(&Pubkey::new_from_array(bytes)));
    assert!(key(7) == key(7));
    assert!(key(7) != key(9));
    assert_eq!(Pubkey::new_from_array(bytes).to_bytes(), bytes);
}

#[test]
fn new_pathway_starts_at_one() {
    let p = NeuralPathway::new(key(1), key(2), 1_700_000_000);
    assert_eq!(p.strength, 1);
    assert_eq!(p.created_at, 1_700_000_000);
    assert_eq!(p.last_used, 1_700_000_000);
    assert_eq!(p.success_count, 0);
    assert_eq!(p.failure_count, 0);
    assert!(p.source_agent == key(1));
    assert!(p.target_agent == key(2));
}

#[test]
fn create_then_duplicate_is_refused() {
    let mut s = PathwayStore::new();
    let first = s.create(key(1), key(2), true, 100).unwrap();
    assert_eq!(s.create(key(1), key(2), true, 200).unwrap_err(), NeuralPathwayError::PathwayAlreadyExists);
    assert_eq!(s.len(), 1);
    let kept = s.get(&PathwayKey::new(key(1), key(2))).unwrap();
    assert_eq!(kept.created_at, first.created_at);
    assert_eq!(kept.created_at, 100);
    assert_eq!(kept.strength, 1);
}

#[test]
fn reverse_pair_is_a_different_pathway() {
    let mut s = store_with(1, 2, 10);
    assert!(s.create(key(2), key(1), true, 11).is_ok());
    assert_eq!(s.len(), 2);
}

#[test]
fn create_self_is_invalid_agent() {
    let mut s = PathwayStore::new();
    assert_eq!(s.create(key(3), key(3), true, 5).unwrap_err(), NeuralPathwayError::InvalidAgent);
    assert_eq!(s.create(key(3), key(3), false, 5).unwrap_err(), NeuralPathwayError::InvalidAgent);
    assert_eq!(s.len(), 0);
    assert!(s.get(&PathwayKey::new(key(3), key(3))).is_none());
}

#[test]
fn create_without_storage_is_not_rent_exempt() {
    let mut s = PathwayStore::new();
    assert_eq!(s.create(key(1), key(2), false, 5).unwrap_err(), NeuralPathwayError::NotRentExempt);
    assert_eq!(s.len(), 0);
}

#[test]
fn success_raises_strength_and_saturates() {
    let mut s = store_with(1, 2, 0);
    let k = PathwayKey::new(key(1), key(2));
    let p = s.reinforce(&k, Outcome::Success, 1).unwrap();
    assert_eq!(p.strength, 2);
    assert_eq!(p.success_count, 1);
    assert_eq!(p.failure_count, 0);
    for t in 2..=300 {
        s.reinforce(&k, Outcome::Success, t).unwrap();
    }
    let p = s.get(&k).unwrap();
    assert_eq!(p.strength, 255);
    assert_eq!(p.success_count, 300);
    assert_eq!(p.last_used, 300);
}

#[test]
fn failure_lowers_strength_to_zero_and_stays() {
    let mut s = store_with(1, 2, 0);
    let k = PathwayKey::new(key(1), key(2));
    let p = s.reinforce(&k, Outcome::Failure, 1).unwrap();
    assert_eq!(p.strength, 0);
    for t in 2..=10 {
        let p = s.reinforce(&k, Outcome::Failure, t).unwrap();
        assert_eq!(p.strength, 0);
    }
    let p = s.get(&k).unwrap();
    assert_eq!(p.failure_count, 10);
    assert_eq!(p.success_count, 0);
}

#[test]
fn reinforce_one_record_method() {
    let mut p = NeuralPathway::new(key(1), key(2), 0);
    p.strength = 255;
    p.reinforce(Outcome::Success, 4);
    assert_eq!(p.strength, 255);
    assert_eq!(p.last_used, 4);
    p.success_count = u64::MAX;
    p.reinforce(Outcome::Success, 5);
    assert_eq!(p.success_count, u64::MAX);
    p.reinforce(Outcome::Failure, 6);
    assert_eq!(p.strength, 254);
    assert_eq!(p.failure_count, 1);
}

#[test]
fn reinforce_unknown_pathway_is_invalid_agent() {
    let mut s = store_with(1, 2, 0);
    let k = PathwayKey::new(key(2), key(1));
    assert_eq!(s.reinforce(&k, Outcome::Success, 1).unwrap_err(), NeuralPathwayError::InvalidAgent);
    assert_eq!(s.get(&PathwayKey::new(key(1), key(2))).unwrap().strength, 1);
}

#[test]
fn reinforce_moves_last_used_and_keeps_created_at() {
    let mut s = store_with(1, 2, 100);
    let k = PathwayKey::new(key(1), key(2));
    let p = s.reinforce(&k, Outcome::Success, 150).unwrap();
    assert_eq!(p.created_at, 100);
    assert_eq!(p.last_used, 150);
    let p = s.reinforce(&k, Outcome::Failure, 150).unwrap();
    assert_eq!(p.created_at, 100);
    assert_eq!(p.last_used, 150);
    let p = s.reinforce(&k, Outcome::Success, 151).unwrap();
    assert_eq!(p.last_used, 151);
}

#[test]
fn issue_snapshots_strength_seven() {
    let mut s = store_with(1, 2, 0);
    let k = PathwayKey::new(key(1), key(2));
    for t in 1..=6 {
        s.reinforce(&k, Outcome::Success, t).unwrap();
    }
    assert_eq!(s.get(&k).unwrap().strength, 7);
    let mut reg = TokenRegistry::new();
    let t = reg.issue(&s, k, key(9), key(4), "ipfs://token".to_string(), 50).unwrap();
    assert_eq!(t.strength, 7);
    assert_eq!(t.created_at, 50);
    assert_eq!(t.uri, "ipfs://token");
    assert!(t.mint == key(9));
    assert!(t.owner == key(4));
    let p = s.reinforce(&k, Outcome::Success, 60).unwrap();
    assert_eq!(p.strength, 8);
    assert_eq!(reg.get(&key(9)).unwrap().strength, 7);
    assert_eq!(reg.len(), 1);
}

#[test]
fn issue_unknown_pathway_is_refused() {
    let s = store_with(1, 2, 0);
    let mut reg = TokenRegistry::new();
    let k = PathwayKey::new(key(1), key(3));
    let e = reg.issue(&s, k, key(9), key(4), "u".to_string(), 1).unwrap_err();
    assert_eq!(e, NeuralPathwayError::InvalidAgent);
    assert_eq!(reg.len(), 0);
    assert!(reg.get(&key(9)).is_none());
}

#[test]
fn issue_same_mint_twice_keeps_first() {
    let s = store_with(1, 2, 0);
    let k = PathwayKey::new(key(1), key(2));
    let mut reg = TokenRegistry::new();
    reg.issue(&s, k, key(9), key(4), "first".to_string(), 1).unwrap();
    let e = reg.issue(&s, k, key(9), key(5), "second".to_string(), 2).unwrap_err();
    assert_eq!(e, NeuralPathwayError::PathwayAlreadyExists);
    assert_eq!(reg.len(), 1);
    let kept = reg.get(&key(9)).unwrap();
    assert_eq!(kept.uri, "first");
    assert!(kept.owner == key(4));
    assert!(reg.issue(&s, k, key(10), key(5), "other".to_string(), 3).is_ok());
    assert_eq!(reg.len(), 2);
}

#[test]
fn token_record_copy_and_new() {
    let k = PathwayKey::new(key(1), key(2));
    let t = TokenMetadata::new(k, key(3), key(4), "x".to_string(), 12, 99);
    let c = t.duplicate();
    assert_eq!(c.uri, "x");
    assert_eq!(c.strength, 12);
    assert_eq!(c.created_at, 99);
    assert!(c.pathway_id.same(&k));
}

#[test]
fn error_codes_and_messages() {
    assert_eq!(NeuralPathwayError::InvalidInstruction.code(), 0);
    assert_eq!(NeuralPathwayError::NotRentExempt.code(), 1);
    assert_eq!(NeuralPathwayError::InvalidAgent.code(), 2);
    assert_eq!(NeuralPathwayError::PathwayAlreadyExists.code(), 3);
    assert_eq!(NeuralPathwayError::InvalidInstruction.to_string(), "Invalid Instruction");
    assert_eq!(NeuralPathwayError::NotRentExempt.to_string(), "Not Rent Exempt");
    assert_eq!(NeuralPathwayError::InvalidAgent.to_string(), "Invalid Agent");
    assert_eq!(NeuralPathwayError::PathwayAlreadyExists.to_string(), "Pathway Already Exists");
}

#[test]
fn validation_checks() {
    assert_eq!(validate_agent_pair(&key(1), &key(1)), Err(NeuralPathwayError::InvalidAgent));
    assert_eq!(validate_agent_pair(&key(1), &key(2)), Ok(()));
    assert_eq!(validate_storage(false), Err(NeuralPathwayError::NotRentExempt));
    assert_eq!(validate_storage(true), Ok(()));
}
