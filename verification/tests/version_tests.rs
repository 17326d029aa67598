use hashira_cli::version::{Version, VersionError};

#[test]
fn version_to_string_with_patch() {
    assert_eq!(Version::new(16, 20, Some(0)).to_string(), "16.20.0");
}

#[test]
fn version_to_string_without_patch() {
    assert_eq!(Version::new(3, 3, None).to_string(), "3.3");
}

#[test]
fn version_from_str_three_parts() {
    assert_eq!(Version::from_str("1.62.0"), Ok(Version::new(1, 62, Some(0))));
}

#[test]
fn version_from_str_two_parts() {
    assert_eq!(Version::from_str("8.18"), Ok(Version::new(8, 18, None)));
}

#[test]
fn version_from_str_part_count() {
    assert_eq!(Version::from_str("1"), Err(VersionError::PartCount));
    assert_eq!(Version::from_str("1.2.3.4"), Err(VersionError::PartCount));
}

#[test]
fn version_from_str_invalid_parts() {
    assert_eq!(Version::from_str("a.2.3"), Err(VersionError::InvalidMayor));
    assert_eq!(Version::from_str("1.b.3"), Err(VersionError::InvalidMinor));
    assert_eq!(Version::from_str("1.2.c"), Err(VersionError::InvalidPatch));
    assert_eq!(Version::from_str("1.2.99999999999"), Err(VersionError::InvalidPatch));
}

#[test]
fn version_roundtrip() {
    let v = Version::new(4294967295, 0, Some(7));
    assert_eq!(Version::from_str(&v.to_string()), Ok(v));
}

#[test]
fn version_order() {
    assert!(Version::new(16, 20, Some(0)).is_at_least(&Version::new(16, 20, Some(0))));
    assert!(Version::new(17, 0, Some(0)).is_at_least(&Version::new(16, 20, Some(0))));
    assert!(!Version::new(16, 19, Some(9)).is_at_least(&Version::new(16, 20, Some(0))));
    assert!(Version::new(1, 2, Some(0)).is_at_least(&Version::new(1, 2, None)));
    assert!(!Version::new(1, 2, None).is_at_least(&Version::new(1, 2, Some(0))));
}
