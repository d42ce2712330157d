//! The human-readable duration rendering.

use starship::modules::cmd_duration::render_time;

#[test]
fn test_10s() {
    assert_eq!(render_time(10 as u64), "10s")
}

#[test]
fn test_90s() {
    assert_eq!(render_time(90 as u64), "1m30s")
}

#[test]
fn test_10110s() {
    assert_eq!(render_time(10110 as u64), "2h48m30s")
}

#[test]
fn test_1d() {
    assert_eq!(render_time(86400 as u64), "1d")
}

#[test]
fn render_time_component_zero_is_empty() {
    assert_eq!(starship::modules::cmd_duration::render_time_component(0, "h"), "");
    assert_eq!(starship::modules::cmd_duration::render_time_component(7, "m"), "7m");
}
