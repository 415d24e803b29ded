use fraud_detection_engine::engine::FraudEngine;
use fraud_detection_engine::models::{
    contains_name, remember_name, Timestamp, Transaction, UserProfile, MAX_KNOWN, SCALE,
};
use fraud_detection_engine::rules::{RuleConfig, RuleEngine};
use fraud_detection_engine::storage::redis::RedisClient;

fn engine() -> FraudEngine {
    FraudEngine::new(RedisClient::new(), RuleEngine::from_config(RuleConfig { rules: vec![] }))
}

fn transaction(amount: u64, device: &str, location: &str, seconds: i64) -> Transaction {
    Transaction {
        user_id: "bob".to_string(),
        amount,
        merchant: "shop".to_string(),
        location: location.to_string(),
        device_id: device.to_string(),
        timestamp: Timestamp { seconds, nanos: 250 },
    }
}

fn names(list: &[&str]) -> Vec<String> {
    list.iter().map(|name| name.to_string()).collect()
}

#[test]
fn default_profile_is_empty() {
    let profile = UserProfile::default();
    assert_eq!(profile.user_id, "");
    assert_eq!(profile.total_amount, 0);
    assert_eq!(profile.transaction_count, 0);
    assert_eq!(profile.last_transaction_time, None);
    assert!(profile.known_devices.is_empty());
    assert!(profile.known_locations.is_empty());
    assert!(profile.is_well_formed());
}

#[test]
fn update_counts_one_transaction() {
    let mut profile = UserProfile::default();
    profile.user_id = "bob".to_string();
    engine().update_profile(&mut profile, &transaction(40 * SCALE, "phone", "paris", 1_700_000_123));
    assert_eq!(profile.user_id, "bob");
    assert_eq!(profile.total_amount, 40_000_000);
    assert_eq!(profile.transaction_count, 1);
    assert_eq!(profile.last_transaction_time, Some(Timestamp { seconds: 1_700_000_123, nanos: 250 }));
    assert_eq!(profile.known_devices, names(&["phone"]));
    assert_eq!(profile.known_locations, names(&["paris"]));
}

#[test]
fn average_is_the_exact_mean() {
    let amounts: [u64; 5] = [10 * SCALE, 1, 333_333, 7 * SCALE + 5, 0];
    let mut profile = UserProfile::default();
    for (i, amount) in amounts.iter().enumerate() {
        engine().update_profile(&mut profile, &transaction(*amount, "d", "l", i as i64));
    }
    assert_eq!(profile.transaction_count, 5);
    assert_eq!(profile.total_amount, amounts.iter().map(|a| *a as u128).sum::<u128>());
    assert_eq!(profile.total_amount, 17_333_339);
    assert_eq!(profile.last_transaction_time, Some(Timestamp { seconds: 4, nanos: 250 }));
}

#[test]
fn total_holds_the_largest_amounts() {
    let mut profile = UserProfile::default();
    for _ in 0..3 {
        engine().update_profile(&mut profile, &transaction(u64::MAX, "d", "l", 0));
    }
    assert_eq!(profile.total_amount, 3 * (u64::MAX as u128));
    assert_eq!(profile.transaction_count, 3);
    assert!(profile.is_well_formed());
}

#[test]
fn known_device_is_not_added_again() {
    let mut profile = UserProfile::default();
    for device in ["a", "b", "a", "b", "a"] {
        engine().update_profile(&mut profile, &transaction(SCALE, device, "l", 0));
    }
    assert_eq!(profile.known_devices, names(&["a", "b"]));
    assert_eq!(profile.known_locations, names(&["l"]));
    assert_eq!(profile.transaction_count, 5);
}

#[test]
fn sixth_device_evicts_the_oldest() {
    let mut profile = UserProfile::default();
    for device in ["d1", "d2", "d3", "d4", "d5"] {
        engine().update_profile(&mut profile, &transaction(SCALE, device, "l", 0));
    }
    assert_eq!(profile.known_devices, names(&["d1", "d2", "d3", "d4", "d5"]));
    engine().update_profile(&mut profile, &transaction(SCALE, "d6", "l", 0));
    assert_eq!(profile.known_devices, names(&["d2", "d3", "d4", "d5", "d6"]));
    engine().update_profile(&mut profile, &transaction(SCALE, "d1", "l", 0));
    assert_eq!(profile.known_devices, names(&["d3", "d4", "d5", "d6", "d1"]));
}

#[test]
fn sixth_location_evicts_the_oldest() {
    let mut profile = UserProfile::default();
    for location in ["l1", "l2", "l3", "l4", "l5", "l6", "l7"] {
        engine().update_profile(&mut profile, &transaction(SCALE, "d", location, 0));
    }
    assert_eq!(profile.known_locations, names(&["l3", "l4", "l5", "l6", "l7"]));
    assert_eq!(profile.known_devices, names(&["d"]));
}

#[test]
fn lists_never_grow_beyond_their_bound() {
    let mut profile = UserProfile::default();
    for i in 0..40u32 {
        let device = format!("device-{}", i % 9);
        let location = format!("place-{}", i % 7);
        engine().update_profile(&mut profile, &transaction(SCALE, &device, &location, i as i64));
        assert!(profile.known_devices.len() <= MAX_KNOWN);
        assert!(profile.known_locations.len() <= MAX_KNOWN);
        assert!(profile.is_well_formed());
    }
    assert_eq!(MAX_KNOWN, 5);
    assert_eq!(profile.known_devices.len(), 5);
    assert_eq!(profile.transaction_count, 40);
}

#[test]
fn remember_name_follows_its_rule() {
    let mut list = names(&["a", "b"]);
    remember_name(&mut list, &"b".to_string());
    assert_eq!(list, names(&["a", "b"]));
    remember_name(&mut list, &"c".to_string());
    assert_eq!(list, names(&["a", "b", "c"]));
    assert!(contains_name(&list, &"c".to_string()));
    assert!(!contains_name(&list, &"C".to_string()));
    assert!(!contains_name(&Vec::new(), &"c".to_string()));
}

#[test]
fn well_formedness_is_checked() {
    let mut profile = UserProfile::default();
    assert!(profile.is_well_formed());
    profile.known_devices = names(&["1", "2", "3", "4", "5", "6"]);
    assert!(!profile.is_well_formed());
    profile.known_devices = names(&["1", "2", "3", "4", "5"]);
    assert!(profile.is_well_formed());
    profile.known_locations = names(&["1", "2", "3", "4", "5", "6"]);
    assert!(!profile.is_well_formed());
    profile.known_locations.clear();
    profile.total_amount = 1;
    assert!(!profile.is_well_formed());
    profile.transaction_count = 1;
    assert!(profile.is_well_formed());
    profile.total_amount = u64::MAX as u128 + 1;
    assert!(!profile.is_well_formed());
    profile.transaction_count = u64::MAX;
    profile.total_amount = (u64::MAX as u128) * (u64::MAX as u128);
    assert!(profile.is_well_formed());
}

#[test]
fn update_takes_a_profile_whose_lists_are_too_long() {
    let mut profile = UserProfile::default();
    profile.known_devices = names(&["1", "2", "3", "4", "5", "6", "7"]);
    engine().update_profile(&mut profile, &transaction(SCALE, "8", "l", 0));
    assert_eq!(profile.known_devices, names(&["2", "3", "4", "5", "6", "7", "8"]));
    assert_eq!(profile.known_locations, names(&["l"]));
    assert_eq!(profile.transaction_count, 1);
    assert_eq!(profile.total_amount, 1_000_000);
}
