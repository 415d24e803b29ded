use fraud_detection_engine::models::{Timestamp, UserProfile};
use fraud_detection_engine::storage::redis::{
    ClockOutOfRange, RedisClient, StoreCommand, PROFILE_TTL_SECONDS, VELOCITY_TTL_SECONDS,
};

fn stored_profile() -> UserProfile {
    UserProfile {
        user_id: "carol".to_string(),
        total_amount: 12_000_000,
        transaction_count: 3,
        last_transaction_time: Some(Timestamp { seconds: 99, nanos: 1 }),
        known_devices: vec!["phone".to_string()],
        known_locations: vec!["oslo".to_string(), "rome".to_string()],
    }
}

#[test]
fn velocity_query_purges_then_counts_the_window() {
    let commands = RedisClient::new().count_recent_transactions_at("carol", 60, 1_700_000_000);
    assert_eq!(commands.len(), 2);
    match &commands[0] {
        StoreCommand::RemoveScoredBelow { key, bound } => {
            assert_eq!(key, "user:carol:txns");
            assert_eq!(*bound, 1_699_999_940);
        }
        other => panic!("unexpected command {other:?}"),
    }
    match &commands[1] {
        StoreCommand::CountScoredBetween { key, min, max } => {
            assert_eq!(key, "user:carol:txns");
            assert_eq!(*min, 1_699_999_940);
            assert_eq!(*max, 1_700_000_000);
        }
        other => panic!("unexpected command {other:?}"),
    }
}

#[test]
fn velocity_query_reaches_the_ends_of_the_clock() {
    let commands = RedisClient::new().count_recent_transactions_at("u", 60, i64::MIN + 60);
    assert!(matches!(&commands[0], StoreCommand::RemoveScoredBelow { bound, .. } if *bound == i64::MIN));
    let commands = RedisClient::new().count_recent_transactions_at("u", 0, i64::MAX);
    assert!(matches!(
        &commands[1],
        StoreCommand::CountScoredBetween { min, max, .. } if *min == i64::MAX && *max == i64::MAX
    ));
    let commands = RedisClient::new().count_recent_transactions_at("u", -5, 10);
    assert!(matches!(&commands[0], StoreCommand::RemoveScoredBelow { bound, .. } if *bound == 15));
}

#[test]
fn velocity_query_at_the_current_time_spans_the_window() {
    let commands = RedisClient::new().count_recent_transactions("carol", 60).unwrap();
    assert_eq!(commands.len(), 2);
    let bound = match &commands[0] {
        StoreCommand::RemoveScoredBelow { key, bound } => {
            assert_eq!(key, "user:carol:txns");
            *bound
        }
        other => panic!("unexpected command {other:?}"),
    };
    match &commands[1] {
        StoreCommand::CountScoredBetween { key, min, max } => {
            assert_eq!(key, "user:carol:txns");
            assert_eq!(*min, bound);
            assert_eq!(*max - *min, 60);
            // the clock reads a time of this century, in seconds
            assert!(*max > 1_600_000_000);
            assert!(*max < 4_200_000_000);
        }
        other => panic!("unexpected command {other:?}"),
    }
}

#[test]
fn velocity_query_refuses_a_window_that_cannot_be_placed() {
    match RedisClient::new().count_recent_transactions("carol", i64::MIN) {
        Err(ClockOutOfRange { now }) => assert!(now.checked_sub(i64::MIN).is_none()),
        Ok(commands) => panic!("unexpected plan {commands:?}"),
    }
}

#[test]
fn velocity_query_on_any_reading_plans_or_hands_the_reading_back() {
    let client = RedisClient::new();
    let commands = client.count_recent_transactions_on("carol", 60, 1_000).unwrap();
    assert_eq!(commands.len(), 2);
    assert!(matches!(
        &commands[0],
        StoreCommand::RemoveScoredBelow { key, bound: 940 } if key == "user:carol:txns"
    ));
    assert!(matches!(
        &commands[1],
        StoreCommand::CountScoredBetween { key, min: 940, max: 1_000 } if key == "user:carol:txns"
    ));
    assert!(client.count_recent_transactions_on("carol", 60, i64::MIN + 60).is_ok());
    assert_eq!(
        client.count_recent_transactions_on("carol", 60, i64::MIN + 59).err(),
        Some(ClockOutOfRange { now: i64::MIN + 59 })
    );
    assert_eq!(
        client.count_recent_transactions_on("carol", -1, i64::MAX).err(),
        Some(ClockOutOfRange { now: i64::MAX })
    );
    assert!(client.count_recent_transactions_on("carol", 0, i64::MIN).is_ok());
}

#[test]
fn recording_adds_the_transaction_and_renews_the_expiry() {
    let commands = RedisClient::new().add_transaction_at("carol", "tx-1", 1_700_000_007);
    assert_eq!(commands.len(), 2);
    match &commands[0] {
        StoreCommand::AddScored { key, member, score } => {
            assert_eq!(key, "user:carol:txns");
            assert_eq!(member, "tx-1");
            assert_eq!(*score, 1_700_000_007);
        }
        other => panic!("unexpected command {other:?}"),
    }
    match &commands[1] {
        StoreCommand::Expire { key, seconds } => {
            assert_eq!(key, "user:carol:txns");
            assert_eq!(*seconds, 3_600);
            assert_eq!(VELOCITY_TTL_SECONDS, 3_600);
        }
        other => panic!("unexpected command {other:?}"),
    }
}

#[test]
fn recording_at_the_current_time_scores_by_the_clock() {
    let commands = RedisClient::new().add_transaction("carol", "tx-2");
    assert_eq!(commands.len(), 2);
    match &commands[0] {
        StoreCommand::AddScored { key, member, score } => {
            assert_eq!(key, "user:carol:txns");
            assert_eq!(member, "tx-2");
            assert!(*score > 1_600_000_000);
            assert!(*score < 4_200_000_000);
        }
        other => panic!("unexpected command {other:?}"),
    }
    assert!(matches!(&commands[1], StoreCommand::Expire { key, seconds: 3_600 } if key == "user:carol:txns"));
}

#[test]
fn profile_is_read_under_the_users_key() {
    let commands = RedisClient::new().get_user_profile("carol");
    assert_eq!(commands.len(), 1);
    assert!(matches!(&commands[0], StoreCommand::Get { key } if key == "user:carol:profile"));
    let commands = RedisClient::new().get_user_profile("");
    assert!(matches!(&commands[0], StoreCommand::Get { key } if key == "user::profile"));
}

#[test]
fn missing_profile_is_a_fresh_one_for_the_user() {
    let profile = RedisClient::new().profile_or_default("dave", None);
    assert_eq!(profile.user_id, "dave");
    assert_eq!(profile.total_amount, 0);
    assert_eq!(profile.transaction_count, 0);
    assert_eq!(profile.last_transaction_time, None);
    assert!(profile.known_devices.is_empty());
    assert!(profile.known_locations.is_empty());
}

#[test]
fn stored_profile_is_taken_as_it_is() {
    let profile = RedisClient::new().profile_or_default("dave", Some(stored_profile()));
    assert_eq!(profile.user_id, "carol");
    assert_eq!(profile.total_amount, 12_000_000);
    assert_eq!(profile.transaction_count, 3);
    assert_eq!(profile.last_transaction_time, Some(Timestamp { seconds: 99, nanos: 1 }));
    assert_eq!(profile.known_devices, vec!["phone".to_string()]);
    assert_eq!(profile.known_locations, vec!["oslo".to_string(), "rome".to_string()]);
}

#[test]
fn profile_is_stored_for_a_day_under_its_own_user() {
    let commands = RedisClient::new().update_user_profile(stored_profile());
    assert_eq!(commands.len(), 1);
    match &commands[0] {
        StoreCommand::SetWithExpiry { key, profile, lifetime } => {
            assert_eq!(key, "user:carol:profile");
            assert_eq!(*lifetime, 86_400);
            assert_eq!(PROFILE_TTL_SECONDS, 86_400);
            assert_eq!(profile.user_id, "carol");
            assert_eq!(profile.total_amount, 12_000_000);
            assert_eq!(profile.transaction_count, 3);
            assert_eq!(profile.known_locations.len(), 2);
        }
        other => panic!("unexpected command {other:?}"),
    }
}

#[test]
fn counter_is_incremented_by_one() {
    let commands = RedisClient::new().increment_counter("fraud:blocked:total");
    assert_eq!(commands.len(), 1);
    assert!(matches!(
        &commands[0],
        StoreCommand::Increment { key, delta: 1 } if key == "fraud:blocked:total"
    ));
}
