use ic_stable_structures::cell::{InitError, ValueError};
use traffic_reports::counter::{issued_id, IdCounter};
use traffic_reports::record::{AppError, TrafficReport, UserProfile};
use traffic_reports::text::{append_decimal, make_default_username, numbered_text};

fn decimal(n: u64) -> String {
    let mut text = String::new();
    append_decimal(&mut text, n);
    text
}

#[test]
fn numerals_are_decimal_without_leading_zeros() {
    assert_eq!(decimal(0), "0");
    assert_eq!(decimal(7), "7");
    assert_eq!(decimal(9), "9");
    assert_eq!(decimal(10), "10");
    assert_eq!(decimal(42), "42");
    assert_eq!(decimal(100), "100");
    assert_eq!(decimal(1_234_567_890), "1234567890");
    assert_eq!(decimal(u64::MAX), "18446744073709551615");
}

#[test]
fn numerals_agree_with_the_standard_library() {
    for n in (0..5_000u64).chain([u64::MAX - 1, 1 << 32, 999_999_999_999]) {
        assert_eq!(decimal(n), n.to_string());
    }
}

#[test]
fn a_numeral_is_appended_to_what_is_there() {
    let mut text = "n = ".to_string();
    append_decimal(&mut text, 305);
    assert_eq!(text, "n = 305");
}

#[test]
fn a_numbered_text_has_the_numeral_in_the_middle() {
    assert_eq!(numbered_text("<", 12, ">"), "<12>");
    assert_eq!(numbered_text("", 0, ""), "0");
}

#[test]
fn the_default_name_is_user_and_the_identifier() {
    assert_eq!(make_default_username(42), "User42");
    assert_eq!(make_default_username(0), "User0");
}

#[test]
fn errors_carry_their_messages() {
    assert_eq!(
        AppError::report_not_found(12),
        AppError::NotFound("Report with ID 12 not found".to_string())
    );
    assert_eq!(
        AppError::user_not_found(3),
        AppError::NotFound("User with ID 3 not found".to_string())
    );
    assert_eq!(
        AppError::report_unreadable(12),
        AppError::OperationFailed("Report with ID 12 is unreadable".to_string())
    );
    assert_eq!(
        AppError::user_unreadable(3),
        AppError::OperationFailed("User with ID 3 is unreadable".to_string())
    );
    assert_eq!(
        AppError::reward_overflow(3),
        AppError::OperationFailed("User with ID 3 cannot accrue more".to_string())
    );
    assert_eq!(
        AppError::id_failure(),
        AppError::OperationFailed("Failed to generate report ID".to_string())
    );
    assert_eq!(
        AppError::counter_failure(),
        AppError::OperationFailed("Cannot create a counter".to_string())
    );
}

#[test]
fn the_reserved_error_can_be_made() {
    let error = AppError::AlreadyExists("taken".to_string());
    assert_ne!(error, AppError::NotFound("taken".to_string()));
    assert_eq!(error.clone(), error);
}

#[test]
fn default_records_are_empty() {
    assert_eq!(
        TrafficReport::default(),
        TrafficReport {
            id: 0,
            reporter_id: 0,
            description: String::new(),
            location: String::new(),
            timestamp: 0,
            severity: 0,
            resolved: false,
        }
    );
    assert_eq!(
        UserProfile::default(),
        UserProfile { id: 0, username: String::new(), points: 0, contributions: 0, route_tokens: 0 }
    );
}

#[test]
fn a_write_that_was_done_issues_the_next_identifier() {
    assert_eq!(issued_id(0, &Ok(0)), Some(1));
    assert_eq!(issued_id(41, &Ok(41)), Some(42));
    assert_eq!(issued_id(u64::MAX - 1, &Ok(u64::MAX - 1)), Some(u64::MAX));
}

#[test]
fn a_write_that_failed_issues_nothing() {
    assert_eq!(issued_id(41, &Err(ValueError::ValueTooLarge { value_size: 8 })), None);
}

#[test]
fn a_cell_that_could_not_be_opened_gives_no_counter() {
    assert!(IdCounter::from_cell(Err(InitError::ValueTooLarge { value_size: 8 })).is_none());
    assert!(IdCounter::from_cell(Err(InitError::IncompatibleVersion {
        last_supported_version: 1,
        decoded_version: 2,
    }))
    .is_none());
}
