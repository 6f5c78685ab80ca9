//! The gamma-control decisions: ramp-size validation and version binding.

use way_cooler_core::gamma::{bind_version_supported, set_gamma_size, GammaError, GAMMA_CONTROL_VERSION};

#[test]
fn equal_ramp_sizes_are_forwarded() {
    assert_eq!(set_gamma_size(256, 256, 256), Ok(256u16));
    assert_eq!(set_gamma_size(0, 0, 0), Ok(0u16));
}

#[test]
fn mismatched_ramp_sizes_are_refused() {
    assert_eq!(set_gamma_size(256, 256, 128), Err(GammaError::SizeMismatch));
    assert_eq!(set_gamma_size(1, 2, 2), Err(GammaError::SizeMismatch));
    assert_eq!(set_gamma_size(2, 1, 2), Err(GammaError::SizeMismatch));
}

#[test]
fn largest_ramp_size_is_forwarded() {
    assert_eq!(set_gamma_size(65535, 65535, 65535), Ok(65535u16));
}

#[test]
fn bind_refuses_versions_newer_than_supported() {
    assert!(bind_version_supported(GAMMA_CONTROL_VERSION));
    assert!(bind_version_supported(0));
    assert!(!bind_version_supported(GAMMA_CONTROL_VERSION + 1));
}
