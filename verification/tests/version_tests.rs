use depot::constraint::{parse_compound_constraint, parse_constraint};
use depot::version::{Version, VersionConstraint};


#[test]
fn test_version_parse() {
    let v = Version::parse("1.2.3").unwrap();
    assert_eq!(v.major, 1);
    assert_eq!(v.minor, 2);
    assert_eq!(v.patch, 3);
}

#[test]
fn test_version_parse_dash_separated() {
    let v = Version::parse("3.0-1").unwrap();
    assert_eq!(v.major, 3);
    assert_eq!(v.minor, 0);
    assert_eq!(v.patch, 1);
}

#[test]
fn test_version_satisfies_exact() {
    let v = Version::parse("1.2.3").unwrap();
    let constraint = VersionConstraint::Exact(Version::parse("1.2.3").unwrap());
    assert!(v.satisfies(&constraint));
}

#[test]
fn test_version_satisfies_compatible() {
    let v1 = Version::parse("1.2.3").unwrap();
    let v2 = Version::parse("1.3.0").unwrap();
    let v3 = Version::parse("2.0.0").unwrap();

    let constraint = VersionConstraint::Compatible(Version::parse("1.2.0").unwrap());
    assert!(v1.satisfies(&constraint));
    assert!(v2.satisfies(&constraint));
    assert!(!v3.satisfies(&constraint));
}

#[test]
fn test_parse_constraint() {
    assert!(matches!(
        parse_constraint("^1.2.3").unwrap(),
        VersionConstraint::Compatible(_)
    ));
    assert!(matches!(
        parse_constraint("~1.2.3").unwrap(),
        VersionConstraint::Patch(_)
    ));
    assert!(matches!(
        parse_constraint(">=1.2.3").unwrap(),
        VersionConstraint::GreaterOrEqual(_)
    ));
    assert!(matches!(
        parse_constraint("1.2.3").unwrap(),
        VersionConstraint::Exact(_)
    ));
}

#[test]
fn test_version_with_prerelease() {
    let v = Version::parse("1.0.0-alpha.1").unwrap();
    assert_eq!(v.major, 1);
    assert_eq!(v.minor, 0);
    assert_eq!(v.patch, 0);
    assert_eq!(v.prerelease, Some("alpha.1".to_string()));
    assert_eq!(v.build_metadata, None);
    assert_eq!(v.to_string(), "1.0.0-alpha.1");
}

#[test]
fn test_version_with_build_metadata() {
    let v = Version::parse("1.0.0+build.123").unwrap();
    assert_eq!(v.major, 1);
    assert_eq!(v.minor, 0);
    assert_eq!(v.patch, 0);
    assert_eq!(v.prerelease, None);
    assert_eq!(v.build_metadata, Some("build.123".to_string()));
    assert_eq!(v.to_string(), "1.0.0+build.123");
}

#[test]
fn test_version_with_prerelease_and_build() {
    let v = Version::parse("1.0.0-rc.1+build.456").unwrap();
    assert_eq!(v.major, 1);
    assert_eq!(v.minor, 0);
    assert_eq!(v.patch, 0);
    assert_eq!(v.prerelease, Some("rc.1".to_string()));
    assert_eq!(v.build_metadata, Some("build.456".to_string()));
    assert_eq!(v.to_string(), "1.0.0-rc.1+build.456");
}

#[test]
fn test_version_ordering_with_prerelease() {
    let v1 = Version::parse("1.0.0-alpha").unwrap();
    let v2 = Version::parse("1.0.0-alpha.1").unwrap();
    let v3 = Version::parse("1.0.0-alpha.beta").unwrap();
    let v4 = Version::parse("1.0.0-beta").unwrap();
    let v5 = Version::parse("1.0.0-beta.2").unwrap();
    let v6 = Version::parse("1.0.0-beta.11").unwrap();
    let v7 = Version::parse("1.0.0-rc.1").unwrap();
    let v8 = Version::parse("1.0.0").unwrap();

    // Per SemVer spec: 1.0.0-alpha < 1.0.0-alpha.1 < 1.0.0-alpha.beta < 1.0.0-beta
    // < 1.0.0-beta.2 < 1.0.0-beta.11 < 1.0.0-rc.1 < 1.0.0
    assert!(v1 < v2);
    assert!(v2 < v3);
    assert!(v3 < v4);
    assert!(v4 < v5);
    assert!(v5 < v6);
    assert!(v6 < v7);
    assert!(v7 < v8);
}

#[test]
fn test_version_build_metadata_ignored_in_comparison() {
    let v1 = Version::parse("1.0.0+build.1").unwrap();
    let v2 = Version::parse("1.0.0+build.2").unwrap();
    let v3 = Version::parse("1.0.0").unwrap();

    // Build metadata should be ignored in version precedence
    assert_eq!(v1, v3);
    assert_eq!(v2, v3);
    assert_eq!(v1, v2);
}

#[test]
fn test_version_prerelease_numeric_vs_alphabetic() {
    let v1 = Version::parse("1.0.0-1").unwrap();
    let v2 = Version::parse("1.0.0-alpha").unwrap();

    // Numeric identifiers should be less than alphanumeric
    assert!(v1 < v2);
}

#[test]
fn test_version_with_prerelease_constructor() {
    let v = Version::with_prerelease(1, 0, 0, "beta.1".to_string());
    assert_eq!(v.major, 1);
    assert_eq!(v.prerelease, Some("beta.1".to_string()));
    assert_eq!(v.to_string(), "1.0.0-beta.1");
}

#[test]
fn test_version_dash_separated_format_still_works() {
    // Ensure backward compatibility with dash-separated format (e.g., "3.0-1")
    let v = Version::parse("3.0-1").unwrap();
    assert_eq!(v.major, 3);
    assert_eq!(v.minor, 0);
    assert_eq!(v.patch, 1);
    assert_eq!(v.prerelease, None);
}

#[test]
fn test_version_satisfies_with_prerelease() {
    let v_release = Version::parse("1.0.0").unwrap();
    let v_prerelease = Version::parse("1.0.0-alpha").unwrap();

    let constraint = VersionConstraint::GreaterOrEqual(Version::parse("1.0.0-alpha").unwrap());

    // Both should satisfy >=1.0.0-alpha
    assert!(v_prerelease.satisfies(&constraint));
    assert!(v_release.satisfies(&constraint));
}

#[test]
fn test_version_satisfies_range() {
    let constraint = VersionConstraint::Range {
        lower: Version::new(0, 0, 0),
        upper: Version::new(2, 0, 0),
    };

    assert!(Version::new(0, 0, 0).satisfies(&constraint));
    assert!(Version::new(1, 5, 0).satisfies(&constraint));
    assert!(!Version::new(2, 0, 0).satisfies(&constraint));
    assert!(!Version::new(3, 0, 0).satisfies(&constraint));
}

#[test]
fn test_version_satisfies_any_of() {
    let constraint = VersionConstraint::AnyOf(vec![
        VersionConstraint::Range {
            lower: Version::new(0, 0, 0),
            upper: Version::new(2, 0, 0),
        },
        VersionConstraint::Range {
            lower: Version::new(2, 5, 0),
            upper: Version::new(3, 0, 0),
        },
    ]);

    assert!(Version::new(1, 0, 0).satisfies(&constraint));
    assert!(Version::new(2, 7, 0).satisfies(&constraint));
    assert!(!Version::new(2, 3, 0).satisfies(&constraint));
    assert!(!Version::new(3, 0, 0).satisfies(&constraint));
}

#[test]
fn test_parse_compound_constraint_simple() {
    let c = parse_compound_constraint("<2.0.0").unwrap();
    assert!(matches!(c, VersionConstraint::LessThan(_)));
}

#[test]
fn test_parse_compound_constraint_range() {
    let c = parse_compound_constraint(">=1.0.0, <2.0.0").unwrap();
    assert!(matches!(c, VersionConstraint::Range { .. }));
    assert!(Version::new(1, 5, 0).satisfies(&c));
    assert!(!Version::new(0, 9, 0).satisfies(&c));
    assert!(!Version::new(2, 0, 0).satisfies(&c));
}

#[test]
fn test_parse_compound_constraint_any_of() {
    let c = parse_compound_constraint(">=0.0.0, <2.0.0 || >=2.5.0, <3.0.0").unwrap();
    assert!(Version::new(1, 0, 0).satisfies(&c));
    assert!(Version::new(2, 7, 0).satisfies(&c));
    assert!(!Version::new(2, 3, 0).satisfies(&c));
    assert!(!Version::new(3, 0, 0).satisfies(&c));
}

#[test]
fn caret_and_tilde_bounds_follow_their_ranges() {
    let c = parse_constraint("^1.2.3").unwrap();
    assert!(Version::parse("2.0.0-alpha").unwrap().satisfies(&c));
    assert!(!Version::parse("2.0.0").unwrap().satisfies(&c));
    assert!(!Version::parse("1.2.3-beta").unwrap().satisfies(&c));
    let t = parse_constraint("~1.2.3").unwrap();
    assert!(Version::parse("1.3.0-rc.1").unwrap().satisfies(&t));
    assert!(Version::parse("1.2.9").unwrap().satisfies(&t));
    assert!(!Version::parse("1.3.0").unwrap().satisfies(&t));
    let top = parse_constraint("^18446744073709551615.0.0").unwrap();
    assert!(Version::parse("18446744073709551615.5.0").unwrap().satisfies(&top));
}
