use sip_signaling::dedup::{
    invite_claim_key, register_claim_key, ClaimTable, INVITE_CLAIM_TTL_SECS,
    REGISTER_CLAIM_TTL_SECS,
};

#[test]
fn keys_name_method_and_call() {
    assert_eq!(invite_claim_key("abc123"), "processed_invites:abc123");
    assert_eq!(register_claim_key("abc123"), "pending_reg:abc123");
    assert_eq!(invite_claim_key(""), "processed_invites:");
    assert_eq!(INVITE_CLAIM_TTL_SECS, 30);
    assert_eq!(REGISTER_CLAIM_TTL_SECS, 20);
}

#[test]
fn first_claim_wins_and_the_others_fail() {
    let mut table = ClaimTable::new();
    let key = invite_claim_key("abc123");
    let times = [1_000u64, 1_000, 1_001, 15_000, 30_999];
    let results: Vec<bool> = times.iter().map(|t| table.try_claim(&key, *t, 30_000)).collect();
    assert_eq!(results, vec![true, false, false, false, false]);
    assert_eq!(results.iter().filter(|r| **r).count(), 1);
}

#[test]
fn claim_is_free_again_when_its_time_is_over() {
    let mut table = ClaimTable::new();
    assert!(table.try_claim("k", 1_000, 30_000));
    assert!(!table.try_claim("k", 30_999, 30_000));
    assert!(table.try_claim("k", 31_000, 30_000));
    assert!(!table.try_claim("k", 31_001, 30_000));
}

#[test]
fn claims_of_different_methods_do_not_meet() {
    let mut table = ClaimTable::new();
    assert!(table.try_claim(&register_claim_key("x"), 0, 20_000));
    assert!(table.try_claim(&invite_claim_key("x"), 0, 30_000));
    assert!(!table.try_claim(&register_claim_key("x"), 1, 20_000));
    assert!(table.try_claim(&invite_claim_key("y"), 1, 30_000));
}

#[test]
fn claim_at_the_end_of_time_holds() {
    let mut table = ClaimTable::new();
    assert!(table.try_claim("k", u64::MAX - 5, 30_000));
    assert!(!table.try_claim("k", u64::MAX - 1, 30_000));
    assert!(table.try_claim("z", 5, 0));
    assert!(table.try_claim("z", 5, 0));
}
