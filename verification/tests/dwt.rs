use std::time::Duration;
use touchpad_core::dwt::{DwtConfig, DwtConfigError};

#[test]
fn defaults_match_libinput_short_and_long_windows() {
    let config = DwtConfig::default();
    assert_eq!(config.short_timeout(), Duration::from_millis(200));
    assert_eq!(config.long_timeout(), Duration::from_millis(500));
    assert!(config.enabled);
    config.validate().unwrap();
}

#[test]
fn invalid_timeout_order_is_rejected() {
    let config = DwtConfig {
        short_timeout_ms: 600,
        ..DwtConfig::default()
    };
    assert_eq!(config.validate(), Err(DwtConfigError::OutOfOrder));
}

#[test]
fn timeouts_outside_range_are_rejected_short_first() {
    let config = DwtConfig {
        enabled: true,
        short_timeout_ms: 0,
        long_timeout_ms: 6_000,
    };
    assert_eq!(
        config.validate(),
        Err(DwtConfigError::TimeoutRange {
            name: "short_timeout_ms",
            value: 0,
            max: 5_000
        })
    );
    let config = DwtConfig {
        enabled: false,
        short_timeout_ms: 5_000,
        long_timeout_ms: 5_001,
    };
    assert_eq!(
        config.validate(),
        Err(DwtConfigError::TimeoutRange {
            name: "long_timeout_ms",
            value: 5_001,
            max: 5_000
        })
    );
    let config = DwtConfig {
        enabled: true,
        short_timeout_ms: 1,
        long_timeout_ms: 5_000,
    };
    assert_eq!(config.validate(), Ok(()));
    let config = DwtConfig {
        enabled: true,
        short_timeout_ms: 300,
        long_timeout_ms: 300,
    };
    assert_eq!(config.validate(), Ok(()));
}
