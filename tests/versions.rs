use cmake_init::project::App;
use cmake_init::versions::{supports_version, DEFAULT_VERSION};

#[test]
fn every_listed_standard_is_supported() {
    for v in [11u8, 14, 17, 20, 23] {
        assert!(supports_version(v), "{} should be supported", v);
    }
}

#[test]
fn neighbours_of_the_listed_standards_are_refused() {
    for v in [0u8, 10, 12, 13, 15, 16, 18, 19, 21, 22, 24, 98, 99, 255] {
        assert!(!supports_version(v), "{} should be refused", v);
    }
}

#[test]
fn default_standard_is_supported() {
    assert!(supports_version(DEFAULT_VERSION));
}

#[test]
fn app_validates_its_standard() {
    assert!(App::new("demo".to_string(), 20, false).validate_arguments());
    assert!(!App::new("demo".to_string(), 99, false).validate_arguments());
}
