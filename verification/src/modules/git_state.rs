//! The git-state module: the operation in progress in the repository —
//! MERGING, REBASING and so on — with step progress for a rebase when the
//! metadata files carry it.

use vstd::prelude::*;

use crate::context::{evolves, Context};
use crate::module::Module;
use crate::repo::{rebase_progress, rebase_progress_spec, Operation, PathData, Progress, Repo};
use crate::strutil::{dec_digits, string_of, u64_to_chars};
use crate::style::{fg_bold, Color};

verus! {

/// The label a non-clean operation renders as.
#[derive(Clone, Copy, PartialEq, Eq, Debug)]
pub enum StateLabel {
    Merging,
    Reverting,
    CherryPicking,
    Bisecting,
    Am,
    AmOrRebase,
    Rebasing,
}

/// The message a label renders as.
pub open spec fn label_message(l: StateLabel) -> Seq<char> {
    match l {
        StateLabel::Merging => "MERGING"@,
        StateLabel::Reverting => "REVERTING"@,
        StateLabel::CherryPicking => "CHERRY-PICKING"@,
        StateLabel::Bisecting => "BISECTING"@,
        StateLabel::Am => "AM"@,
        StateLabel::AmOrRebase => "AM/REBASE"@,
        StateLabel::Rebasing => "REBASING"@,
    }
}

impl StateLabel {
    /// The default message for this label.
    pub fn message_default(&self) -> (r: &'static str)
        ensures
            r@ == label_message(*self),
    {
        match self {
            StateLabel::Merging => "MERGING",
            StateLabel::Reverting => "REVERTING",
            StateLabel::CherryPicking => "CHERRY-PICKING",
            StateLabel::Bisecting => "BISECTING",
            StateLabel::Am => "AM",
            StateLabel::AmOrRebase => "AM/REBASE",
            StateLabel::Rebasing => "REBASING",
        }
    }
}

/// How an operation is described: not at all, by a label, or by a label with
/// step progress.
#[derive(Clone, Copy, PartialEq, Eq, Debug)]
pub enum StateDescription {
    Clean,
    Label(StateLabel),
    LabelAndProgress(StateLabel, Progress),
}

/// The description each operation renders as; no variant is passed over.
pub open spec fn state_description_of(op: Operation) -> StateDescription {
    match op {
        Operation::Clean => StateDescription::Clean,
        Operation::Merge => StateDescription::Label(StateLabel::Merging),
        Operation::Revert => StateDescription::Label(StateLabel::Reverting),
        Operation::CherryPick => StateDescription::Label(StateLabel::CherryPicking),
        Operation::Bisect => StateDescription::Label(StateLabel::Bisecting),
        Operation::ApplyMailbox => StateDescription::Label(StateLabel::Am),
        Operation::ApplyMailboxOrRebase => StateDescription::Label(StateLabel::AmOrRebase),
        Operation::Rebase(None) => StateDescription::Label(StateLabel::Rebasing),
        Operation::Rebase(Some(p)) => StateDescription::LabelAndProgress(StateLabel::Rebasing, p),
    }
}

/// Returns the state of the given repository operation.
pub fn get_state_description(op: &Operation) -> (r: StateDescription)
    ensures
        r == state_description_of(*op),
{
    match op {
        Operation::Clean => StateDescription::Clean,
        Operation::Merge => StateDescription::Label(StateLabel::Merging),
        Operation::Revert => StateDescription::Label(StateLabel::Reverting),
        Operation::CherryPick => StateDescription::Label(StateLabel::CherryPicking),
        Operation::Bisect => StateDescription::Label(StateLabel::Bisecting),
        Operation::ApplyMailbox => StateDescription::Label(StateLabel::Am),
        Operation::ApplyMailboxOrRebase => StateDescription::Label(StateLabel::AmOrRebase),
        Operation::Rebase(None) => StateDescription::Label(StateLabel::Rebasing),
        Operation::Rebase(Some(p)) => StateDescription::LabelAndProgress(StateLabel::Rebasing, *p),
    }
}

/// Describes a rebase from the probed metadata: the rebase label, with the
/// step progress the `rebase-merge` files carry when that directory exists,
/// else the `rebase-apply` files; label only when neither pair parses.
pub fn describe_rebase(
    merge_dir: &PathData,
    msgnum: &PathData,
    end: &PathData,
    apply_dir: &PathData,
    next: &PathData,
    last: &PathData,
) -> (r: StateDescription)
    ensures
        r == (match rebase_progress_spec(*merge_dir, *msgnum, *end, *apply_dir, *next, *last) {
            None => StateDescription::Label(StateLabel::Rebasing),
            Some(p) => StateDescription::LabelAndProgress(StateLabel::Rebasing, p),
        }),
{
    match rebase_progress(merge_dir, msgnum, end, apply_dir, next, last) {
        None => StateDescription::Label(StateLabel::Rebasing),
        Some(p) => StateDescription::LabelAndProgress(StateLabel::Rebasing, p),
    }
}

/// What the evaluator yields over the cached repository: nothing without a
/// repository or for a clean state; else the operation's label, with the
/// step progress when a rebase carries it.
#[verifier::opaque]
pub open spec fn git_state_result(repo: Option<Repo>, r: Option<Module>) -> bool {
    match repo {
        None => r is None,
        Some(rep) => match state_description_of(rep.operation) {
                StateDescription::Clean => r is None,
                StateDescription::Label(label) => ({
                    let m = r->0;
                    &&& r is Some
                    &&& m.style == fg_bold(Color::Blue)
                    &&& m.prefix.value@ == Seq::<char>::empty()
                    &&& m.suffix.value@ == seq![' ']
                    &&& m.segments@.len() == 1
                    &&& m.segments@[0].value@ == label_message(label)
                }),
                StateDescription::LabelAndProgress(label, progress) => ({
                    let m = r->0;
                    &&& r is Some
                    &&& m.style == fg_bold(Color::Blue)
                    &&& m.prefix.value@ == Seq::<char>::empty()
                    &&& m.suffix.value@ == seq![' ']
                    &&& m.segments@.len() == 4
                    &&& m.segments@[0].value@ == label_message(label)
                    &&& m.segments@[1].value@ == seq![' '] + dec_digits(progress.current as int)
                    &&& m.segments@[2].value@ == "/"@
                    &&& m.segments@[3].value@ == dec_digits(progress.total as int)
                }),
            },
    }
}

/// Creates a module with the state of the repository enclosing the current
/// directory; absent without a repository, and for a clean state.
pub fn module<F: Fn(String) -> PathData>(context: &mut Context, probe_path: F) -> (r: Option<
    Module,
>)
    requires
        old(context).inv(),
        forall|p: String| call_requires(probe_path, (p,)),
    ensures
        evolves(*old(context), *final(context)),
        final(context).repo is Some,
        git_state_result(final(context).repo->0, r),
{
    proof {
        reveal(git_state_result);
    }
    let mut module = Module::new("");
    let repo = match context.get_repo(probe_path) {
        Some(repo) => repo,
        None => {
            return None;
        },
    };
    let state_description = get_state_description(&repo.operation);
    let label = match &state_description {
        StateDescription::Clean => {
            return None;
        },
        StateDescription::Label(label) => label,
        StateDescription::LabelAndProgress(label, _) => label,
    };
    module.set_style(Color::Blue.bold());
    module.set_prefix_value("");
    module.set_suffix_value(" ");
    proof {
        reveal_strlit("");
        reveal_strlit(" ");
        assert(module.prefix.value@ =~= Seq::<char>::empty());
        assert(module.suffix.value@ =~= seq![' ']);
    }
    module.append_segment_str(label.message_default());
    if let StateDescription::LabelAndProgress(_, progress) = &state_description {
        let mut current: Vec<char> = Vec::new();
        current.push(' ');
        let digits = u64_to_chars(progress.current as u64);
        let mut i: usize = 0;
        while i < digits.len()
            invariant
                i <= digits@.len(),
                current@ == seq![' '] + digits@.take(i as int),
            decreases digits@.len() - i,
        {
            current.push(digits[i]);
            i = i + 1;
            proof {
                assert(current@ =~= seq![' '] + digits@.take(i as int));
            }
        }
        proof {
            assert(digits@.take(digits@.len() as int) =~= digits@);
        }
        let current_str = string_of(&current);
        module.append_segment_str(current_str.as_str());
        module.append_segment_str("/");
        let total = u64_to_chars(progress.total as u64);
        let total_str = string_of(&total);
        module.append_segment_str(total_str.as_str());
    }
    Some(module)
}

} // verus!
