//! Repository-state pieces: rebase progress from the metadata files, state
//! descriptions, and status counting.

use starship::modules::git_state::{
    describe_rebase, get_state_description, StateDescription, StateLabel,
};
use starship::repo::{
    count_statuses, is_conflicted, is_deleted, is_staged, rebase_progress, Operation, PathData,
    Progress,
};

#[test]
fn rebase_progress_prefers_the_merge_pair() {
    let progress = rebase_progress(
        &PathData::Directory,
        &PathData::Contents("3\n".to_string()),
        &PathData::Contents("10\n".to_string()),
        &PathData::Directory,
        &PathData::Contents("1".to_string()),
        &PathData::Contents("2".to_string()),
    );
    assert_eq!(progress, Some(Progress { current: 3, total: 10 }));
}

#[test]
fn rebase_progress_falls_back_to_the_apply_pair() {
    let progress = rebase_progress(
        &PathData::Missing,
        &PathData::Missing,
        &PathData::Missing,
        &PathData::Directory,
        &PathData::Contents("1".to_string()),
        &PathData::Contents("2".to_string()),
    );
    assert_eq!(progress, Some(Progress { current: 1, total: 2 }));
}

#[test]
fn an_unparsable_progress_file_means_label_only() {
    // the merge directory exists, so the apply pair is not consulted
    let description = describe_rebase(
        &PathData::Directory,
        &PathData::Contents("three".to_string()),
        &PathData::Contents("10".to_string()),
        &PathData::Directory,
        &PathData::Contents("1".to_string()),
        &PathData::Contents("2".to_string()),
    );
    assert_eq!(description, StateDescription::Label(StateLabel::Rebasing));

    let nothing = describe_rebase(
        &PathData::Missing,
        &PathData::Missing,
        &PathData::Missing,
        &PathData::Missing,
        &PathData::Missing,
        &PathData::Missing,
    );
    assert_eq!(nothing, StateDescription::Label(StateLabel::Rebasing));
}

#[test]
fn rebase_with_progress_describes_its_steps() {
    let description = describe_rebase(
        &PathData::Directory,
        &PathData::Contents("3".to_string()),
        &PathData::Contents("10".to_string()),
        &PathData::Missing,
        &PathData::Missing,
        &PathData::Missing,
    );
    assert_eq!(
        description,
        StateDescription::LabelAndProgress(StateLabel::Rebasing, Progress { current: 3, total: 10 })
    );
}

#[test]
fn every_operation_has_its_description() {
    assert_eq!(get_state_description(&Operation::Clean), StateDescription::Clean);
    assert_eq!(
        get_state_description(&Operation::Merge),
        StateDescription::Label(StateLabel::Merging)
    );
    assert_eq!(
        get_state_description(&Operation::Revert),
        StateDescription::Label(StateLabel::Reverting)
    );
    assert_eq!(
        get_state_description(&Operation::CherryPick),
        StateDescription::Label(StateLabel::CherryPicking)
    );
    assert_eq!(
        get_state_description(&Operation::Bisect),
        StateDescription::Label(StateLabel::Bisecting)
    );
    assert_eq!(
        get_state_description(&Operation::ApplyMailbox),
        StateDescription::Label(StateLabel::Am)
    );
    assert_eq!(
        get_state_description(&Operation::ApplyMailboxOrRebase),
        StateDescription::Label(StateLabel::AmOrRebase)
    );
    assert_eq!(
        get_state_description(&Operation::Rebase(None)),
        StateDescription::Label(StateLabel::Rebasing)
    );
    assert_eq!(StateLabel::Rebasing.message_default(), "REBASING");
    assert_eq!(StateLabel::CherryPicking.message_default(), "CHERRY-PICKING");
}

#[test]
fn status_module_composes_markers_in_the_fixed_order() {
    let counts = starship::repo::RepoStatus {
        conflicted: 1,
        deleted: 2,
        renamed: 0,
        modified: 3,
        staged: 1,
        untracked: 4,
    };
    let m = starship::modules::git_status::status_module(Some(counts), true).unwrap();
    let values: Vec<String> = m.segments.iter().map(|s| s.value.clone()).collect();
    assert_eq!(values, vec!["!", "$stash ", "D", "M", "+", "U"]);
    assert_eq!(m.prefix.value, "[");
    assert_eq!(m.suffix.value, "] ");

    // a stash alone still shows
    let quiet = starship::repo::RepoStatus {
        conflicted: 0,
        deleted: 0,
        renamed: 0,
        modified: 0,
        staged: 0,
        untracked: 0,
    };
    let only_stash = starship::modules::git_status::status_module(Some(quiet), true).unwrap();
    let stash_values: Vec<String> =
        only_stash.segments.iter().map(|s| s.value.clone()).collect();
    assert_eq!(stash_values, vec!["$stash "]);

    // nothing to mark, no module
    assert!(starship::modules::git_status::status_module(Some(quiet), false).is_none());
    assert!(starship::modules::git_status::status_module(None, false).is_none());
}

#[test]
fn status_counting_goes_by_the_flag_bits() {
    // one conflicted entry, one deleted in the working tree, one staged new
    // file that is also modified in the working tree
    let bits: Vec<u32> = vec![0x8000, 0x200, 0x1 | 0x100];
    let counts = count_statuses(&bits);
    assert_eq!(counts.conflicted, 1);
    assert_eq!(counts.deleted, 1);
    assert_eq!(counts.modified, 1);
    assert_eq!(counts.staged, 1);
    assert_eq!(counts.renamed, 0);
    assert_eq!(counts.untracked, 0);

    assert!(is_conflicted(0x8000));
    assert!(!is_conflicted(0x7fff));
    assert!(is_deleted(0x4));
    assert!(is_deleted(0x200));
    assert!(is_staged(0x2));
    assert!(!is_staged(0x100));
}
