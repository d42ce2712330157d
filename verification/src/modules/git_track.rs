//! The git-track module: how far the branch has diverged from the branch it
//! tracks — one segment per non-zero direction, none when even.

use vstd::prelude::*;

use crate::context::{evolves, Context};
use crate::module::Module;
use crate::repo::{get_ahead_behind, open_repository, PathData, Repo};
use crate::strutil::{dec_digits, string_of, u64_to_chars};
use crate::style::{fg_plain, plain_style, Color};

verus! {

/// Creates the divergence module for given ahead/behind counts: nothing at
/// `(0, 0)`, else exactly one segment per non-zero direction, in the order
/// ahead then behind.
pub fn track_module(ahead: usize, behind: usize) -> (r: Option<Module>)
    ensures
        ahead == 0 && behind == 0 ==> r is None,
        ahead > 0 || behind > 0 ==> r is Some,
        r is Some ==> ({
            let m = r->0;
            &&& m.style == fg_plain(Color::White)
            &&& m.segments@.len() == (if ahead > 0 {
                1int
            } else {
                0int
            }) + (if behind > 0 {
                1int
            } else {
                0int
            })
            &&& (ahead > 0 ==> m.segments@[0].value@ == seq!['\u{21e1}'] + dec_digits(
                ahead as int,
            ))
            &&& (behind > 0 ==> m.segments@.last().value@ == seq!['\u{21e3}'] + dec_digits(
                behind as int,
            ))
        }),
{
    if ahead == 0 && behind == 0 {
        return None;
    }
    let mut module = Module::new("");
    module.set_style(Color::White.normal());
    if ahead > 0 {
        let text = arrow_count('\u{21e1}', ahead);
        module.append_segment_str(text.as_str());
    }
    if behind > 0 {
        let text = arrow_count('\u{21e3}', behind);
        module.append_segment_str(text.as_str());
    }
    Some(module)
}

/// An arrow character followed by a decimal count.
fn arrow_count(arrow: char, count: usize) -> (r: String)
    ensures
        r@ == seq![arrow] + dec_digits(count as int),
{
    let mut out: Vec<char> = Vec::new();
    out.push(arrow);
    let digits = u64_to_chars(count as u64);
    let mut i: usize = 0;
    while i < digits.len()
        invariant
            i <= digits@.len(),
            out@ == seq![arrow] + digits@.take(i as int),
        decreases digits@.len() - i,
    {
        out.push(digits[i]);
        i = i + 1;
        proof {
            assert(out@ =~= seq![arrow] + digits@.take(i as int));
        }
        assert(digits@.take(digits@.len() as int) =~= digits@);
    }
    string_of(&out)
}

/// What the evaluator yields over the cached repository: nothing without a
/// repository, a branch, an upstream, or any divergence; what shows is the
/// white divergence module, one segment per direction (`track_module` pins
/// the segments for given counts).
#[verifier::opaque]
pub open spec fn git_track_result(repo: Option<Repo>, r: Option<Module>) -> bool {
    &&& (repo is None ==> r is None)
    &&& (repo matches Some(rep) && rep.branch is None ==> r is None)
    &&& (r matches Some(m) ==> ({
        &&& m.style == fg_plain(Color::White)
        &&& 1 <= m.segments@.len() <= 2
    }))
}

/// Creates a module showing how far the current branch is ahead of or behind
/// its upstream; absent without a repository, a branch, an upstream, or any
/// divergence.
pub fn module<F: Fn(String) -> PathData>(context: &mut Context, probe_path: F) -> (r: Option<
    Module,
>)
    requires
        old(context).inv(),
        forall|p: String| call_requires(probe_path, (p,)),
    ensures
        evolves(*old(context), *final(context)),
        final(context).repo is Some,
        git_track_result(final(context).repo->0, r),
{
    proof {
        reveal(git_track_result);
    }
    let repo = match context.get_repo(probe_path) {
        Some(repo) => repo,
        None => {
            return None;
        },
    };
    let branch = match &repo.branch {
        Some(branch) => branch,
        None => {
            return None;
        },
    };
    let repository = match open_repository(repo.root.as_str()) {
        Some(repository) => repository,
        None => {
            return None;
        },
    };
    match get_ahead_behind(&repository, branch.as_str()) {
        Some((ahead, behind)) => track_module(ahead, behind),
        None => None,
    }
}

} // verus!
