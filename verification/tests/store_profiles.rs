use traffic_reports::record::{AppError, UserProfile};
use traffic_reports::store::{TrafficStore, REPORT_REWARD};

fn fresh() -> TrafficStore {
    let store = TrafficStore::open().expect("a new region can be opened");
    assert!(store.is_fresh());
    store
}

#[test]
fn the_first_reward_creates_the_profile() {
    let mut store = fresh();
    let profile = store.update_user_profile(42, 10).expect("the reward is given");
    assert_eq!(
        profile,
        UserProfile {
            id: 42,
            username: "User42".to_string(),
            points: 10,
            contributions: 1,
            route_tokens: 0,
        }
    );
    assert_eq!(store.get_user_profile(42), Ok(profile));
}

#[test]
fn a_second_reward_adds_up() {
    let mut store = fresh();
    store.update_user_profile(42, 10).expect("the reward is given");
    let profile = store.update_user_profile(42, 5).expect("the reward is given");
    assert_eq!(profile.points, 15);
    assert_eq!(profile.contributions, 2);
    assert_eq!(profile.username, "User42");
    assert_eq!(profile.route_tokens, 0);
    assert_eq!(store.get_user_profile(42), Ok(profile));
}

#[test]
fn a_reward_of_no_points_still_counts() {
    let mut store = fresh();
    let profile = store.update_user_profile(0, 0).expect("the reward is given");
    assert_eq!(profile.username, "User0");
    assert_eq!(profile.points, 0);
    assert_eq!(profile.contributions, 1);
}

#[test]
fn the_largest_identifier_gets_a_profile() {
    let mut store = fresh();
    let profile = store.update_user_profile(u64::MAX, 1).expect("the reward is given");
    assert_eq!(profile.username, "User18446744073709551615");
    assert_eq!(store.get_user_profile(u64::MAX), Ok(profile));
}

#[test]
fn reading_does_not_create_a_profile() {
    let mut store = fresh();
    assert_eq!(
        store.get_user_profile(7),
        Err(AppError::NotFound("User with ID 7 not found".to_string()))
    );
    assert!(store.is_fresh());
    store.update_user_profile(8, 1).expect("the reward is given");
    assert_eq!(
        store.get_user_profile(7),
        Err(AppError::NotFound("User with ID 7 not found".to_string()))
    );
}

#[test]
fn creating_a_report_rewards_the_reporter() {
    let mut store = fresh();
    store.update_user_profile(3, 7).expect("the reward is given");
    let before = store.get_user_profile(3).expect("the profile is stored");
    store
        .add_traffic_report("a".to_string(), "x".to_string(), 1, 3, 50)
        .expect("the report is created");
    let after = store.get_user_profile(3).expect("the profile is stored");
    assert_eq!(REPORT_REWARD, 10);
    assert_eq!(after.points, before.points + 10);
    assert_eq!(after.contributions, before.contributions + 1);
    assert_eq!(after.username, before.username);
}

#[test]
fn creating_a_report_creates_the_profile_of_a_new_reporter() {
    let mut store = fresh();
    store
        .add_traffic_report("a".to_string(), "x".to_string(), 1, 1, 50)
        .expect("the report is created");
    assert_eq!(
        store.get_user_profile(1),
        Ok(UserProfile {
            id: 1,
            username: "User1".to_string(),
            points: 10,
            contributions: 1,
            route_tokens: 0,
        })
    );
}

#[test]
fn creating_a_report_leaves_other_profiles_alone() {
    let mut store = fresh();
    let other = store.update_user_profile(2, 4).expect("the reward is given");
    store
        .add_traffic_report("a".to_string(), "x".to_string(), 1, 1, 50)
        .expect("the report is created");
    assert_eq!(store.get_user_profile(2), Ok(other));
}

#[test]
fn points_do_not_wrap() {
    let mut store = fresh();
    store.update_user_profile(5, u64::MAX - 3).expect("the reward is given");
    assert_eq!(
        store.update_user_profile(5, 4),
        Err(AppError::OperationFailed("User with ID 5 cannot accrue more".to_string()))
    );
    let kept = store.get_user_profile(5).expect("the profile is stored");
    assert_eq!(kept.points, u64::MAX - 3);
    assert_eq!(kept.contributions, 1);
    let full = store.update_user_profile(5, 3).expect("the reward is given");
    assert_eq!(full.points, u64::MAX);
    assert_eq!(full.contributions, 2);
}

#[test]
fn a_report_stays_when_its_reward_fails() {
    let mut store = fresh();
    store.update_user_profile(1, u64::MAX - 9).expect("the reward is given");
    store
        .add_traffic_report("a".to_string(), "x".to_string(), 1, 1, 50)
        .expect_err("the points would pass the largest number");
    let first = store
        .add_traffic_report("a".to_string(), "x".to_string(), 1, 1, 50)
        .expect_err("the points would pass the largest number");
    assert_eq!(
        first,
        AppError::OperationFailed("User with ID 1 cannot accrue more".to_string())
    );
    assert_eq!(store.get_traffic_report(1).map(|r| r.id), Ok(1));
    assert_eq!(store.get_traffic_report(2).map(|r| r.id), Ok(2));
    let next = store
        .add_traffic_report("a".to_string(), "x".to_string(), 1, 2, 50)
        .expect("the report is created");
    assert_eq!(next.id, 3);
}

#[test]
fn a_deleted_profile_is_returned_and_gone() {
    let mut store = fresh();
    let profile = store.update_user_profile(42, 10).expect("the reward is given");
    assert_eq!(store.delete_user_profile(42), Ok(profile));
    assert_eq!(
        store.get_user_profile(42),
        Err(AppError::NotFound("User with ID 42 not found".to_string()))
    );
    assert_eq!(
        store.delete_user_profile(42),
        Err(AppError::NotFound("User with ID 42 not found".to_string()))
    );
}

#[test]
fn a_profile_starts_again_after_it_was_deleted() {
    let mut store = fresh();
    store.update_user_profile(42, 10).expect("the reward is given");
    store.delete_user_profile(42).expect("the profile is stored");
    let profile = store.update_user_profile(42, 3).expect("the reward is given");
    assert_eq!(profile.points, 3);
    assert_eq!(profile.contributions, 1);
}

#[test]
fn deleting_a_profile_keeps_the_reports() {
    let mut store = fresh();
    let report = store
        .add_traffic_report("a".to_string(), "x".to_string(), 1, 6, 50)
        .expect("the report is created");
    store.delete_user_profile(6).expect("the profile is stored");
    assert_eq!(store.get_traffic_report(report.id).map(|r| r.reporter_id), Ok(6));
}

#[test]
fn reports_and_profiles_with_one_identifier_are_kept_apart() {
    let mut store = fresh();
    let report = store
        .add_traffic_report("a".to_string(), "x".to_string(), 1, 1, 50)
        .expect("the report is created");
    assert_eq!(report.id, 1);
    store.delete_traffic_report(1).expect("the report is stored");
    assert_eq!(store.get_user_profile(1).map(|p| p.points), Ok(10));
}
