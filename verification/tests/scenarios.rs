//! End-to-end prompts over real repositories and plain collaborators.

use starship::context::Context;
use starship::print::{ansi_strings_modified, get_prompt, Collaborators};
use starship::repo::PathData;

fn no_collaborators() -> Collaborators {
    Collaborators {
        aws_profile: None,
        aws_default_region: None,
        aws_region: None,
        eks_cluster: None,
        kube_ns: None,
        plaio_env: None,
        ts_exit_node: None,
        pipenv_active: false,
        virtual_env: None,
        go_version: None,
        python_version: None,
    }
}

fn props(pairs: Vec<(&str, &str)>) -> Vec<(String, String)> {
    pairs.into_iter().map(|(k, v)| (k.to_string(), v.to_string())).collect()
}

fn no_listing() -> Option<Vec<starship::context::DirEntry>> {
    Some(vec![])
}

fn no_path(_p: String) -> PathData {
    PathData::Missing
}

/// An empty tree, committed with a fixed signature so reruns rebuild the
/// same objects.
fn empty_commit(
    repo: &git2::Repository,
    message: &str,
    parents: &[&git2::Commit],
) -> git2::Oid {
    let sig =
        git2::Signature::new("tester", "tester@example.com", &git2::Time::new(1600000000, 0))
            .unwrap();
    let tree_id = repo.treebuilder(None).unwrap().write().unwrap();
    let tree = repo.find_tree(tree_id).unwrap();
    repo.commit(None, &sig, &sig, message, &tree, parents).unwrap()
}

#[test]
fn scenario_no_markers_no_repository_success() {
    let context = Context::new("/tmp".to_string(), props(vec![("status_code", "0")]));
    let prompt = get_prompt(context, no_listing, no_path, &no_collaborators());
    // only the line break and the success-state character module remain
    assert_eq!(prompt, "\n\n%{\u{1b}[1;32m%}<$>%{\u{1b}[0m%} ");
}

#[test]
fn scenario_repository_with_branch_ahead_of_upstream() {
    let path = "/tmp/starship_scenario_track";
    let repo = git2::Repository::init(path).unwrap();
    let c1 = empty_commit(&repo, "one", &[]);
    let c1c = repo.find_commit(c1).unwrap();
    let c2 = empty_commit(&repo, "two", &[&c1c]);
    let c2c = repo.find_commit(c2).unwrap();
    let c3 = empty_commit(&repo, "three", &[&c2c]);
    repo.reference("refs/heads/main", c3, true, "test").unwrap();
    repo.reference("refs/heads/up", c1, true, "test").unwrap();
    repo.set_head("refs/heads/main").unwrap();
    let mut cfg = repo.config().unwrap();
    cfg.set_str("branch.main.remote", ".").unwrap();
    cfg.set_str("branch.main.merge", "refs/heads/up").unwrap();

    let context = Context::new(path.to_string(), props(vec![("status_code", "1")]));
    let prompt = get_prompt(context, no_listing, no_path, &no_collaborators());

    // the directory, contracted to the repository folder
    assert!(prompt.contains("starship_scenario_track"));
    // the branch
    assert!(prompt.contains("main"));
    // ahead of upstream by two, not behind
    assert!(prompt.contains("\u{21e1}2"));
    assert!(!prompt.contains("\u{21e3}"));
    // a clean state shows no operation label
    assert!(!prompt.contains("REBASING"));
    assert!(!prompt.contains("MERGING"));
    // the failure-style character
    assert!(prompt.contains("%{\u{1b}[1;31m%}</>"));
    assert!(!prompt.contains("<$>"));
}

#[test]
fn scenario_mid_rebase_shows_label_and_progress() {
    let path = "/tmp/starship_scenario_rebase";
    let repo = git2::Repository::init(path).unwrap();
    if repo.state() == git2::RepositoryState::Clean {
        let c1 = empty_commit(&repo, "base", &[]);
        let c1c = repo.find_commit(c1).unwrap();
        let c2 = empty_commit(&repo, "main work", &[&c1c]);
        let c3 = empty_commit(&repo, "topic work", &[&c1c]);
        repo.reference("refs/heads/main", c2, true, "test").unwrap();
        repo.reference("refs/heads/topic", c3, true, "test").unwrap();
        repo.set_head("refs/heads/topic").unwrap();
        let topic = repo.find_annotated_commit(c3).unwrap();
        let onto = repo.find_annotated_commit(c2).unwrap();
        // leave the rebase in progress
        let _rebase = repo.rebase(Some(&topic), None, Some(&onto), None).unwrap();
    }
    assert_ne!(repo.state(), git2::RepositoryState::Clean);

    // the metadata probe stands in for the progress files
    let probe = |p: String| {
        if p.ends_with("/rebase-merge") {
            PathData::Directory
        } else if p.ends_with("/rebase-merge/msgnum") {
            PathData::Contents("3\n".to_string())
        } else if p.ends_with("/rebase-merge/end") {
            PathData::Contents("10\n".to_string())
        } else {
            PathData::Missing
        }
    };
    let mut context = Context::new(path.to_string(), props(vec![]));
    let module = starship::modules::git_state::module(&mut context, probe).unwrap();
    let values: Vec<String> = module.segments.iter().map(|s| s.value.clone()).collect();
    assert_eq!(values, vec!["REBASING", " 3", "/", "10"]);

    let prompt = get_prompt(
        Context::new(path.to_string(), props(vec![("status_code", "0")])),
        no_listing,
        probe,
        &no_collaborators(),
    );
    assert!(prompt.contains("REBASING"));
    assert!(prompt.contains(" 3"));
    assert!(prompt.contains("/10") || prompt.contains("/"));
}

#[test]
fn escape_wrapping_marks_only_escape_sequences() {
    assert_eq!(
        ansi_strings_modified("a\u{1b}[1mxm"),
        "a%{\u{1b}[1m%}xm"
    );
    // an m with no escape before it is left alone
    assert_eq!(ansi_strings_modified("m"), "m");
    assert_eq!(ansi_strings_modified(""), "");
    // two sequences in a row
    assert_eq!(
        ansi_strings_modified("\u{1b}[31mred\u{1b}[0m"),
        "%{\u{1b}[31m%}red%{\u{1b}[0m%}"
    );
}

#[test]
fn root_config_carries_the_fixed_order() {
    let config = starship::configs::StarshipRootConfig::new();
    assert!(config.add_newline);
    assert_eq!(config.scan_timeout, 30);
    assert_eq!(config.prompt_order.len(), 15);
    assert_eq!(config.prompt_order[0], "directory");
    assert_eq!(config.prompt_order[14], "character");
}
