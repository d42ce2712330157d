//! The module evaluators over plain collaborator values and a fake listing.

use std::cell::Cell;

use starship::context::{Context, DirEntry};
use starship::module::Module;
use starship::repo::PathData;
use starship::style::Color;

fn ctx_with(props: Vec<(&str, &str)>) -> Context {
    let properties: Vec<(String, String)> =
        props.into_iter().map(|(k, v)| (k.to_string(), v.to_string())).collect();
    Context::new("/tmp".to_string(), properties)
}

fn values(m: &Module) -> Vec<String> {
    m.segments.iter().map(|s| s.value.clone()).collect()
}

#[test]
fn prompt_module_reflects_the_status_code() {
    let ok = starship::modules::prompt::module(&ctx_with(vec![("status_code", "0")])).unwrap();
    assert_eq!(values(&ok), vec!["<$>"]);
    assert_eq!(ok.style, Color::Green.bold());

    let bad = starship::modules::prompt::module(&ctx_with(vec![("status_code", "127")])).unwrap();
    assert_eq!(values(&bad), vec!["</>"]);
    assert_eq!(bad.style, Color::Red.bold());

    let none = starship::modules::prompt::module(&ctx_with(vec![])).unwrap();
    assert_eq!(values(&none), vec!["<$>"]);
}

#[test]
fn character_module_styles_through_an_override() {
    let bad = starship::modules::character::module(&ctx_with(vec![("status_code", "1")])).unwrap();
    assert_eq!(bad.segments[0].value, "T_T");
    assert_eq!(bad.segments[0].style_override, Some(Color::Red.bold()));
}

#[test]
fn jobs_module_shows_only_nonzero_counts() {
    assert!(starship::modules::jobs::module(&ctx_with(vec![("jobs", "0")])).is_none());
    assert!(starship::modules::jobs::module(&ctx_with(vec![("jobs", "a few")])).is_none());
    assert!(starship::modules::jobs::module(&ctx_with(vec![])).is_none());
    let m = starship::modules::jobs::module(&ctx_with(vec![("jobs", " 3\n")])).unwrap();
    assert_eq!(values(&m), vec![" +", "3"]);
    let neg = starship::modules::jobs::module(&ctx_with(vec![("jobs", "-2")])).unwrap();
    assert_eq!(values(&neg), vec![" +", "-2"]);
}

#[test]
fn cmd_duration_module_elides_fast_commands() {
    assert!(starship::modules::cmd_duration::module(&ctx_with(vec![("cmd_duration", "1")]))
        .is_none());
    assert!(starship::modules::cmd_duration::module(&ctx_with(vec![("cmd_duration", "soon")]))
        .is_none());
    assert!(starship::modules::cmd_duration::module(&ctx_with(vec![])).is_none());
    let m = starship::modules::cmd_duration::module(&ctx_with(vec![("cmd_duration", "90")]))
        .unwrap();
    assert_eq!(values(&m), vec!["tók 1m30s"]);
    assert_eq!(m.prefix.value, "");
}

#[test]
fn aws_module_formats_profile_and_region() {
    let ctx = ctx_with(vec![]);
    assert!(starship::modules::aws::module(&ctx, None, None, None).is_none());
    let profile = "dev".to_string();
    let region = "us-east-1".to_string();
    let m = starship::modules::aws::module(&ctx, Some(&profile), None, Some(&region)).unwrap();
    assert_eq!(values(&m), vec!["-<", "dev", "@us-east-1"]);
    // the default region is not repeated
    let home_region = "eu-central-1".to_string();
    let m2 = starship::modules::aws::module(&ctx, Some(&profile), Some(&home_region), None)
        .unwrap();
    assert_eq!(values(&m2), vec!["-<", "dev", ""]);
}

#[test]
fn kube_and_plaio_and_tailscale_blank_out_without_their_environment() {
    let ctx = ctx_with(vec![]);
    let kube = starship::modules::kube::module(&ctx, None, None).unwrap();
    assert!(kube.is_empty());
    let cluster = "prod".to_string();
    let ns = "web".to_string();
    let kube2 = starship::modules::kube::module(&ctx, Some(&cluster), Some(&ns)).unwrap();
    assert_eq!(values(&kube2), vec![">-prod/web"]);

    let plaio = starship::modules::plaio::module(&ctx, None).unwrap();
    assert!(plaio.is_empty());
    let env = "stage".to_string();
    let plaio2 = starship::modules::plaio::module(&ctx, Some(&env)).unwrap();
    assert_eq!(values(&plaio2), vec!["\u{1f17f}\u{fe0f} stage"]);

    let node = "exit".to_string();
    let ts = starship::modules::tailscale::module(&ctx, Some(&node)).unwrap();
    assert_eq!(values(&ts), vec!["\u{2197}tailscale"]);
}

#[test]
fn scan_modules_match_files_and_extensions() {
    let listing = || {
        Some(vec![
            DirEntry { name: "main.go".to_string(), is_dir: false },
            DirEntry { name: "src".to_string(), is_dir: true },
        ])
    };
    let mut ctx = ctx_with(vec![]);
    let go = starship::modules::golang::module(&mut ctx, listing, None).unwrap();
    assert_eq!(values(&go), vec!["+Go "]);

    // the same cached listing holds no Rust marker
    assert!(starship::modules::rust::module(&mut ctx, listing).is_none());
    assert!(starship::modules::elixir::module(&mut ctx, listing).is_none());

    let version = "go version go1.12 darwin/amd64".to_string();
    let mut ctx2 = ctx_with(vec![]);
    let go2 = starship::modules::golang::module(&mut ctx2, listing, Some(&version)).unwrap();
    assert_eq!(values(&go2), vec!["+Go ", "v1.12"]);
}

#[test]
fn a_directory_named_like_a_marker_file_does_not_match() {
    let listing = || Some(vec![DirEntry { name: "Cargo.toml".to_string(), is_dir: true }]);
    let mut ctx = ctx_with(vec![]);
    assert!(starship::modules::rust::module(&mut ctx, listing).is_none());
}

#[test]
fn python_module_needs_a_version_report() {
    let listing = || Some(vec![DirEntry { name: "Pipfile".to_string(), is_dir: false }]);
    let mut ctx = ctx_with(vec![]);
    assert!(starship::modules::python::module(&mut ctx, listing, false, None, None).is_none());

    let report = "Python 3.7.2\n".to_string();
    let venv = "venv-dir".to_string();
    let mut ctx2 = ctx_with(vec![]);
    let m = starship::modules::python::module(&mut ctx2, listing, false, Some(&report), Some(&venv))
        .unwrap();
    assert_eq!(values(&m), vec!["+Py ", "v3.7.2", " (venv-dir)"]);

    // pipenv alone activates the module even without markers
    let empty = || Some(vec![]);
    let mut ctx3 = ctx_with(vec![]);
    let m2 = starship::modules::python::module(&mut ctx3, empty, true, Some(&report), None)
        .unwrap();
    assert_eq!(values(&m2), vec!["+Py ", "v3.7.2"]);
}

#[test]
fn track_module_shows_one_segment_per_direction() {
    assert!(starship::modules::git_track::track_module(0, 0).is_none());
    let ahead = starship::modules::git_track::track_module(2, 0).unwrap();
    assert_eq!(values(&ahead), vec!["\u{21e1}2"]);
    let both = starship::modules::git_track::track_module(1, 3).unwrap();
    assert_eq!(values(&both), vec!["\u{21e1}1", "\u{21e3}3"]);
}

#[test]
fn probing_twice_issues_one_listing() {
    let count = Cell::new(0u32);
    let mut ctx = ctx_with(vec![]);
    let listing = || {
        count.set(count.get() + 1);
        Some(vec![DirEntry { name: "go.mod".to_string(), is_dir: false }])
    };
    let hit = ctx.probe(&vec!["go.mod"], &vec![], &vec![], listing);
    assert!(hit);
    let miss = ctx.probe(&vec!["Cargo.toml"], &vec!["rs"], &vec![], listing);
    assert!(!miss);
    assert_eq!(count.get(), 1);
    assert_eq!(ctx.listings_issued, 1);
}

#[test]
fn property_lookup_takes_the_first_match() {
    let ctx = ctx_with(vec![("jobs", "1"), ("jobs", "2")]);
    assert_eq!(ctx.get_property("jobs"), Some(&"1".to_string()));
    assert_eq!(ctx.get_property("absent"), None);
}

#[test]
fn a_failed_listing_degrades_to_no_match() {
    let mut ctx = ctx_with(vec![]);
    let failing = || None;
    assert!(!ctx.probe(&vec!["go.mod"], &vec![], &vec![], failing));
    assert!(!ctx.probe(&vec![], &vec!["rs"], &vec![], failing));
    assert_eq!(ctx.listings_issued, 1);
}
