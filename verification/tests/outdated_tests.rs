use depot::error::DepotError;
use depot::outdated::{outdated_status, OutdatedStatus};
use depot::version::Version;

#[test]
fn test_outdated_status_variants() {
    let _up_to_date = OutdatedStatus::UpToDate;
    let _outdated = OutdatedStatus::Outdated {
        current: Some(Version::new(1, 0, 0)),
        latest: Version::new(2, 0, 0),
    };
    let _not_found = OutdatedStatus::NotFound;
    let _outdated_no_current = OutdatedStatus::Outdated {
        current: None,
        latest: Version::new(1, 0, 0),
    };
}

#[test]
fn test_check_outdated_with_empty_versions() {
    let result = outdated_status(&Vec::new(), ">=0.0.0", None);
    assert!(result.is_ok());
    match result.unwrap() {
        OutdatedStatus::NotFound => {}
        _ => panic!("Expected NotFound for empty versions"),
    }
}

#[test]
fn test_check_outdated_with_versions() {
    let versions = vec!["2.0.0-1".to_string(), "1.0.0-1".to_string()];
    let current = Version::new(1, 0, 0);
    match outdated_status(&versions, ">=0.0.0", Some(&current)).unwrap() {
        OutdatedStatus::Outdated { current: c, latest: l } => {
            assert_eq!(c, Some(Version::new(1, 0, 0)));
            // "2.0.0-1" normalizes to "2.0.1" (revision added to patch)
            assert_eq!(l, Version::new(2, 0, 1));
        }
        status => panic!("Expected Outdated status, got: {:?}", status),
    }
}

#[test]
fn test_check_outdated_up_to_date() {
    let versions = vec!["1.0.0-1".to_string()];
    let current = Version::new(1, 0, 0);
    match outdated_status(&versions, ">=0.0.0", Some(&current)).unwrap() {
        // "1.0.0-1" normalizes to "1.0.1", which is > "1.0.0", so it will be Outdated
        OutdatedStatus::Outdated { current: c, latest: l } => {
            assert_eq!(c, Some(Version::new(1, 0, 0)));
            assert_eq!(l, Version::new(1, 0, 1));
        }
        status => panic!("Expected Outdated status, got: {:?}", status),
    }
}

#[test]
fn outdated_latest_is_highest_not_first() {
    let versions = vec!["1.2.0-1".to_string(), "3.0-2".to_string(), "2.9.9".to_string()];
    match outdated_status(&versions, "^3.0.0", None).unwrap() {
        OutdatedStatus::Outdated { current: None, latest } => assert_eq!(latest, Version::new(3, 0, 2)),
        status => panic!("unexpected {:?}", status),
    }
}

#[test]
fn outdated_latest_outside_constraint_is_up_to_date() {
    let versions = vec!["2.0.0".to_string(), "1.5.0".to_string()];
    let current = Version::new(1, 0, 0);
    assert!(matches!(
        outdated_status(&versions, "^1.0.0", Some(&current)).unwrap(),
        OutdatedStatus::UpToDate
    ));
}

#[test]
fn outdated_current_at_latest_is_up_to_date() {
    let versions = vec!["1.5.0".to_string()];
    let current = Version::new(1, 5, 0);
    assert!(matches!(
        outdated_status(&versions, ">=1.0.0", Some(&current)).unwrap(),
        OutdatedStatus::UpToDate
    ));
}

#[test]
fn outdated_unreadable_versions_are_not_found() {
    let versions = vec!["scm-1".to_string(), "dev".to_string()];
    assert!(matches!(
        outdated_status(&versions, ">=1.0.0", None).unwrap(),
        OutdatedStatus::NotFound
    ));
}

#[test]
fn outdated_bad_constraint_is_an_error() {
    let versions = vec!["1.0.0".to_string()];
    match outdated_status(&versions, ">=abc", None) {
        Err(DepotError::Version(m)) => assert_eq!(m, "Invalid major version: abc"),
        other => panic!("unexpected {:?}", other),
    }
}
