use goxviet_core::updater::{UpdaterAdapter, Version};


#[test]
fn test_parse_version() {
    let adapter = UpdaterAdapter::new();
    let version = adapter.parse_version("1.2.3");
    assert!(version.is_some());
    let ver = version.unwrap();
    assert_eq!(ver.major, 1);
    assert_eq!(ver.minor, 2);
    assert_eq!(ver.patch, 3);
}

#[test]
fn test_parse_version_invalid() {
    let adapter = UpdaterAdapter::new();
    assert!(adapter.parse_version("invalid").is_none());
}

#[test]
fn test_compare_versions() {
    let adapter = UpdaterAdapter::new();
    assert_eq!(adapter.compare_versions("1.0.0", "1.0.1"), Some(-1));
    assert_eq!(adapter.compare_versions("1.0.1", "1.0.0"), Some(1));
    assert_eq!(adapter.compare_versions("1.0.0", "1.0.0"), Some(0));
}

#[test]
fn test_compare_versions_invalid() {
    let adapter = UpdaterAdapter::new();
    assert!(adapter.compare_versions("invalid", "1.0.0").is_none());
    assert!(adapter.compare_versions("1.0.0", "invalid").is_none());
}

#[test]
fn test_has_update() {
    let adapter = UpdaterAdapter::new();
    assert_eq!(adapter.has_update("1.0.9", "1.0.10"), Some(true));
    assert_eq!(adapter.has_update("1.0.10", "1.0.9"), Some(false));
    assert_eq!(adapter.has_update("1.0.0", "1.0.0"), Some(false));
}

#[test]
fn test_has_update_invalid() {
    let adapter = UpdaterAdapter::new();
    assert!(adapter.has_update("invalid", "1.0.0").is_none());
    assert!(adapter.has_update("1.0.0", "invalid").is_none());
}

#[test]
fn updater_test_default() {
    let _adapter = UpdaterAdapter::default();
}

#[test]
fn test_clone_copy() {
    let adapter = UpdaterAdapter::new();
    let _cloned = adapter.clone();
    let _copied = adapter;
}

#[test]
fn version_parse_forms() {
    assert_eq!(Version::parse("v2.10.0"), Some(Version { major: 2, minor: 10, patch: 0 }));
    assert_eq!(Version::parse("V0.0.7"), Some(Version { major: 0, minor: 0, patch: 7 }));
    assert_eq!(Version::parse("1.2"), None);
    assert_eq!(Version::parse("1.2.3.4"), None);
    assert_eq!(Version::parse("1..3"), None);
    assert_eq!(Version::parse("1.2.x"), None);
    assert_eq!(Version::parse(""), None);
    assert_eq!(Version::parse("4294967295.0.1"), Some(Version { major: 4294967295, minor: 0, patch: 1 }));
    assert_eq!(Version::parse("4294967296.0.1"), None);
}

#[test]
fn version_compare_order() {
    let a = Version::parse("1.9.9").unwrap();
    let b = Version::parse("2.0.0").unwrap();
    assert_eq!(a.compare(&b), -1);
    assert_eq!(b.compare(&a), 1);
    assert!(a.has_update(&b));
    assert!(!b.has_update(&a));
    assert_eq!(UpdaterAdapter::new().compare_versions("1.10.0", "1.9.0"), Some(1));
}
