//! Toolchain version-report formatting.

use starship::modules::golang::format_go_version;
use starship::modules::python::format_python_version;

#[test]
fn test_format_go_version() {
    let input = "go version go1.12 darwin/amd64";
    assert_eq!(format_go_version(input), Some("v1.12".to_string()));
}

#[test]
fn test_format_python_version() {
    let input = "Python 3.7.2";
    assert_eq!(format_python_version(input), "v3.7.2");
}

#[test]
fn format_go_version_without_marker_is_none() {
    assert_eq!(format_go_version("gopher"), None);
    assert_eq!(format_go_version("go version go"), None);
}

#[test]
fn format_python_version_trims_and_keeps_the_rest() {
    assert_eq!(format_python_version("Python 3.7.2\n"), "v3.7.2");
    assert_eq!(format_python_version("3.7.2"), "v3.7.2");
}
