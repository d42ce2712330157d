//! Path contraction and truncation.

use starship::modules::directory::{contract_path, truncate};

#[test]
fn contract_home_directory() {
    let full_path = "/Users/astronaut/schematics/rocket";
    let home = "/Users/astronaut";

    let output = contract_path(full_path, home, "~");
    assert_eq!(output, "~/schematics/rocket");
}

#[test]
fn contract_repo_directory() {
    let full_path = "/Users/astronaut/dev/rocket-controls/src";
    let repo_root = "/Users/astronaut/dev/rocket-controls";

    let output = contract_path(full_path, repo_root, "rocket-controls");
    assert_eq!(output, "rocket-controls/src");
}

#[test]
fn truncate_smaller_path_than_provided_length() {
    let path = "~/starship";
    let output = truncate(path.to_string(), 3);
    assert_eq!(output, "~/starship")
}

#[test]
fn truncate_same_path_as_provided_length() {
    let path = "~/starship/engines";
    let output = truncate(path.to_string(), 3);
    assert_eq!(output, "~/starship/engines")
}

#[test]
fn truncate_slightly_larger_path_than_provided_length() {
    let path = "~/starship/engines/booster";
    let output = truncate(path.to_string(), 3);
    assert_eq!(output, "starship/engines/booster")
}

#[test]
fn truncate_larger_path_than_provided_length() {
    let path = "~/starship/engines/booster/rocket";
    let output = truncate(path.to_string(), 3);
    assert_eq!(output, "engines/booster/rocket")
}

#[test]
fn truncate_same_path_as_provided_length_from_root() {
    let path = "/starship/engines/booster";
    let output = truncate(path.to_string(), 3);
    assert_eq!(output, "/starship/engines/booster");
}

#[test]
fn truncate_larger_path_than_provided_length_from_root() {
    let path = "/starship/engines/booster/rocket";
    let output = truncate(path.to_string(), 3);
    assert_eq!(output, "engines/booster/rocket");
}

#[test]
fn truncate_zero_length_is_untouched() {
    let path = "/a/b/c/d/e/f/g/h";
    assert_eq!(truncate(path.to_string(), 0), path);
}

#[test]
fn contract_path_without_that_prefix_is_untouched() {
    assert_eq!(contract_path("/a/b", "/x", "~"), "/a/b");
    // a partial component never counts as a prefix
    assert_eq!(contract_path("/abc/d", "/ab", "~"), "/abc/d");
}

#[test]
fn contract_path_of_the_top_itself_is_the_replacement() {
    assert_eq!(contract_path("/a/b", "/a/b", "repl"), "repl");
}
