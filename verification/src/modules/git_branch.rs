//! The git-branch module: the name of the branch HEAD points at.

use vstd::prelude::*;

use crate::context::{evolves, Context};
use crate::module::Module;
use crate::repo::{PathData, Repo};
use crate::style::{fg_plain, Color};

verus! {

/// What the evaluator yields over the cached repository: nothing without a
/// repository or on a detached HEAD; else the branch name after its marker.
#[verifier::opaque]
pub open spec fn git_branch_result(repo: Option<Repo>, r: Option<Module>) -> bool {
    match repo {
        None => r is None,
        Some(rep) => match rep.branch {
            None => r is None,
            Some(branch) => ({
                let m = r->0;
                &&& r is Some
                &&& m.style == fg_plain(Color::Blue)
                &&& m.segments@.len() == 2
                &&& m.segments@[0].value@ == " "@
                &&& m.segments@[1].value@ == branch@
            }),
        },
    }
}

/// Creates a module with the branch of the repository enclosing the current
/// directory; absent without a repository or on a detached HEAD.
pub fn module<F: Fn(String) -> PathData>(context: &mut Context, probe_path: F) -> (r: Option<
    Module,
>)
    requires
        old(context).inv(),
        forall|p: String| call_requires(probe_path, (p,)),
    ensures
        evolves(*old(context), *final(context)),
        final(context).repo is Some,
        git_branch_result(final(context).repo->0, r),
{
    proof {
        reveal(git_branch_result);
    }
    let mut module = Module::new("");
    module.set_style(Color::Blue.normal());
    module.append_segment_str(" ");
    let repo = match context.get_repo(probe_path) {
        Some(repo) => repo,
        None => {
            return None;
        },
    };
    let branch = match &repo.branch {
        Some(branch) => branch,
        None => {
            return None;
        },
    };
    module.append_segment_str(branch.as_str());
    Some(module)
}

} // verus!
