use traffic_reports::record::{AppError, TrafficReport};
use traffic_reports::store::TrafficStore;

fn fresh() -> TrafficStore {
    let store = TrafficStore::open().expect("a new region can be opened");
    assert!(store.is_fresh());
    store
}

fn add(store: &mut TrafficStore, description: &str, location: &str, severity: u8) -> TrafficReport {
    assert!(TrafficStore::report_fits(description, location));
    store
        .add_traffic_report(description.to_string(), location.to_string(), severity, 1, 1_000)
        .expect("the report is created")
}

#[test]
fn a_new_store_is_fresh() {
    let store = TrafficStore::open().expect("a new region can be opened");
    assert!(store.is_fresh());
}

#[test]
fn a_store_with_a_report_is_not_fresh() {
    let mut store = fresh();
    add(&mut store, "pothole", "Main St", 2);
    assert!(!store.is_fresh());
}

#[test]
fn report_ids_start_at_one_and_increase() {
    let mut store = fresh();
    let first = add(&mut store, "a", "x", 1);
    let second = add(&mut store, "b", "y", 2);
    let third = add(&mut store, "c", "z", 3);
    assert_eq!(first.id, 1);
    assert_eq!(second.id, 2);
    assert_eq!(third.id, 3);
}

#[test]
fn a_deleted_identifier_is_not_issued_again() {
    let mut store = fresh();
    add(&mut store, "a", "x", 1);
    let second = add(&mut store, "b", "y", 2);
    assert_eq!(store.delete_traffic_report(second.id).map(|r| r.id), Ok(2));
    let third = add(&mut store, "c", "z", 3);
    assert_eq!(third.id, 3);
}

#[test]
fn a_created_report_has_the_given_fields() {
    let mut store = fresh();
    let report = store
        .add_traffic_report("Accident".to_string(), "5th Avenue".to_string(), 4, 9, 123_456_789)
        .expect("the report is created");
    assert_eq!(
        report,
        TrafficReport {
            id: 1,
            reporter_id: 9,
            description: "Accident".to_string(),
            location: "5th Avenue".to_string(),
            timestamp: 123_456_789,
            severity: 4,
            resolved: false,
        }
    );
}

#[test]
fn a_created_report_is_read_back_unchanged() {
    let mut store = fresh();
    let report = add(&mut store, "Road works", "Bridge", 3);
    let read = store.get_traffic_report(report.id).expect("the report is stored");
    assert_eq!(read, report);
    assert_eq!(read.description, "Road works");
    assert_eq!(read.location, "Bridge");
    assert_eq!(read.severity, 3);
    assert!(!read.resolved);
    assert_eq!(read.timestamp, 1_000);
}

#[test]
fn severity_is_not_checked() {
    let mut store = fresh();
    let low = add(&mut store, "a", "x", 0);
    let high = add(&mut store, "b", "y", 255);
    assert_eq!(store.get_traffic_report(low.id).map(|r| r.severity), Ok(0));
    assert_eq!(store.get_traffic_report(high.id).map(|r| r.severity), Ok(255));
}

#[test]
fn reading_an_absent_report_fails() {
    let store = fresh();
    assert_eq!(
        store.get_traffic_report(7),
        Err(AppError::NotFound("Report with ID 7 not found".to_string()))
    );
}

#[test]
fn an_update_of_the_description_keeps_the_rest() {
    let mut store = fresh();
    let report = add(&mut store, "old", "Main St", 2);
    let description = Some("new".to_string());
    assert!(store.update_fits(report.id, &description, &None));
    let updated = store
        .update_traffic_report(report.id, description, None, None)
        .expect("the report is stored");
    assert_eq!(updated, TrafficReport { description: "new".to_string(), ..report });
    assert_eq!(store.get_traffic_report(updated.id), Ok(updated));
}

#[test]
fn an_update_replaces_every_field_that_is_supplied() {
    let mut store = fresh();
    let report = add(&mut store, "old", "Main St", 2);
    let updated = store
        .update_traffic_report(
            report.id,
            Some("flooded".to_string()),
            Some("Harbour Rd".to_string()),
            Some(5),
        )
        .expect("the report is stored");
    assert_eq!(updated.description, "flooded");
    assert_eq!(updated.location, "Harbour Rd");
    assert_eq!(updated.severity, 5);
    assert_eq!(updated.id, report.id);
    assert_eq!(updated.reporter_id, report.reporter_id);
    assert_eq!(updated.timestamp, report.timestamp);
    assert!(!updated.resolved);
    assert_eq!(store.get_traffic_report(report.id), Ok(updated));
}

#[test]
fn an_update_without_fields_changes_nothing() {
    let mut store = fresh();
    let report = add(&mut store, "old", "Main St", 2);
    assert_eq!(store.update_traffic_report(report.id, None, None, None), Ok(report.clone()));
    assert_eq!(store.get_traffic_report(report.id), Ok(report));
}

#[test]
fn an_update_leaves_other_reports_alone() {
    let mut store = fresh();
    let first = add(&mut store, "a", "x", 1);
    let second = add(&mut store, "b", "y", 2);
    store
        .update_traffic_report(second.id, Some("c".to_string()), None, None)
        .expect("the report is stored");
    assert_eq!(store.get_traffic_report(first.id), Ok(first));
}

#[test]
fn updating_an_absent_report_fails() {
    let mut store = fresh();
    assert!(store.update_fits(3, &Some("x".repeat(5_000)), &None));
    assert_eq!(
        store.update_traffic_report(3, Some("x".to_string()), None, Some(1)),
        Err(AppError::NotFound("Report with ID 3 not found".to_string()))
    );
    assert!(store.is_fresh());
}

#[test]
fn an_update_that_does_not_fit_is_told_apart() {
    let mut store = fresh();
    let report = add(&mut store, "short", &"l".repeat(500), 2);
    assert!(store.update_fits(report.id, &Some("d".repeat(490)), &None));
    assert!(!store.update_fits(report.id, &Some("d".repeat(491)), &None));
    assert!(store.update_fits(report.id, &Some("d".repeat(491)), &Some("l".repeat(499))));
    assert!(!store.update_fits(report.id, &None, &Some("l".repeat(986))));
    assert!(store.update_fits(report.id, &None, &Some("l".repeat(985))));
}

#[test]
fn a_deleted_report_is_returned_and_gone() {
    let mut store = fresh();
    let report = add(&mut store, "a", "x", 1);
    assert_eq!(store.delete_traffic_report(report.id), Ok(report));
    assert_eq!(
        store.get_traffic_report(1),
        Err(AppError::NotFound("Report with ID 1 not found".to_string()))
    );
}

#[test]
fn deleting_twice_fails_the_second_time() {
    let mut store = fresh();
    let report = add(&mut store, "a", "x", 1);
    assert!(store.delete_traffic_report(report.id).is_ok());
    assert_eq!(
        store.delete_traffic_report(report.id),
        Err(AppError::NotFound("Report with ID 1 not found".to_string()))
    );
}

#[test]
fn deleting_a_report_keeps_the_reward() {
    let mut store = fresh();
    let report = add(&mut store, "a", "x", 1);
    assert!(store.delete_traffic_report(report.id).is_ok());
    let profile = store.get_user_profile(1).expect("the reporter has a profile");
    assert_eq!(profile.points, 10);
    assert_eq!(profile.contributions, 1);
}

#[test]
fn a_report_of_the_largest_size_is_stored() {
    let mut store = fresh();
    let description = "d".repeat(600);
    let location = "l".repeat(390);
    assert!(TrafficStore::report_fits(&description, &location));
    assert!(!TrafficStore::report_fits(&description, &"l".repeat(391)));
    let report = add(&mut store, &description, &location, 5);
    let read = store.get_traffic_report(report.id).expect("the report is stored");
    assert_eq!(read.description, description);
    assert_eq!(read.location, location);
}

#[test]
fn a_report_with_empty_texts_is_stored() {
    let mut store = fresh();
    let report = add(&mut store, "", "", 1);
    let read = store.get_traffic_report(report.id).expect("the report is stored");
    assert_eq!(read.description, "");
    assert_eq!(read.location, "");
}

#[test]
fn texts_are_measured_in_bytes() {
    assert!(TrafficStore::report_fits(&"é".repeat(495), ""));
    assert!(!TrafficStore::report_fits(&"é".repeat(496), ""));
    let mut store = fresh();
    let report = add(&mut store, &"é".repeat(495), "", 1);
    assert_eq!(
        store.get_traffic_report(report.id).map(|r| r.description),
        Ok("é".repeat(495))
    );
}

#[test]
fn many_reports_are_kept_apart() {
    let mut store = fresh();
    for n in 1..=200u64 {
        let report = add(&mut store, &format!("report {n}"), &format!("place {n}"), (n % 5) as u8);
        assert_eq!(report.id, n);
    }
    for n in 1..=200u64 {
        let read = store.get_traffic_report(n).expect("the report is stored");
        assert_eq!(read.description, format!("report {n}"));
        assert_eq!(read.location, format!("place {n}"));
    }
    for n in (1..=200u64).filter(|n| n % 2 == 0) {
        assert!(store.delete_traffic_report(n).is_ok());
    }
    for n in 1..=200u64 {
        assert_eq!(store.get_traffic_report(n).is_ok(), n % 2 == 1);
    }
}
