//! The git-status module: one marker per working-tree state present in the
//! repository — conflicts, a stash, deletions, renames, modifications,
//! staged and untracked files.

use vstd::prelude::*;

use crate::context::{evolves, Context};
use crate::module::{module_blank, segment_values, Module};
use crate::repo::{get_repo_status, has_stash, open_repository, PathData, Repo, RepoStatus};
use crate::strutil::{is_space_char, trim_spec};
use crate::style::{fg_plain, Color};

verus! {

/// The marker values the module shows for given counts and stash state, in
/// their fixed order: conflicts, the stash, then deletions, renames,
/// modifications, staged and untracked files — each present exactly when its
/// count is positive (the stash, when the stash reference resolves).
pub open spec fn status_segment_values(status: Option<RepoStatus>, stashed: bool) -> Seq<
    Seq<char>,
> {
    (match status {
        Some(s) => if s.conflicted > 0 {
            seq!["!"@]
        } else {
            Seq::<Seq<char>>::empty()
        },
        None => Seq::<Seq<char>>::empty(),
    }) + (if stashed {
        seq!["$stash "@]
    } else {
        Seq::<Seq<char>>::empty()
    }) + (match status {
        Some(s) => (if s.deleted > 0 {
            seq!["D"@]
        } else {
            Seq::<Seq<char>>::empty()
        }) + (if s.renamed > 0 {
            seq!["R"@]
        } else {
            Seq::<Seq<char>>::empty()
        }) + (if s.modified > 0 {
            seq!["M"@]
        } else {
            Seq::<Seq<char>>::empty()
        }) + (if s.staged > 0 {
            seq!["+"@]
        } else {
            Seq::<Seq<char>>::empty()
        }) + (if s.untracked > 0 {
            seq!["U"@]
        } else {
            Seq::<Seq<char>>::empty()
        }),
        None => Seq::<Seq<char>>::empty(),
    })
}

/// None of the marker strings is blank once trimmed.
proof fn lemma_symbols_not_blank()
    ensures
        trim_spec("!"@).len() > 0,
        trim_spec("$stash "@).len() > 0,
        trim_spec("D"@).len() > 0,
        trim_spec("R"@).len() > 0,
        trim_spec("M"@).len() > 0,
        trim_spec("+"@).len() > 0,
        trim_spec("U"@).len() > 0,
{
    reveal_strlit("!");
    reveal_strlit("$stash ");
    reveal_strlit("D");
    reveal_strlit("R");
    reveal_strlit("M");
    reveal_strlit("+");
    reveal_strlit("U");
    assert(trim_spec("!"@) == "!"@);
    assert(trim_spec("D"@) == "D"@);
    assert(trim_spec("R"@) == "R"@);
    assert(trim_spec("M"@) == "M"@);
    assert(trim_spec("+"@) == "+"@);
    assert(trim_spec("U"@) == "U"@);
    let t = "$stash "@;
    assert(!is_space_char(t[0]));
    assert(crate::strutil::trim_start_spec(t) == t);
    let u = t.drop_last();
    assert(is_space_char(t.last()));
    assert(crate::strutil::trim_end_spec(t) == crate::strutil::trim_end_spec(u));
    assert(u.last() == 'h' && !is_space_char(u.last()));
    assert(crate::strutil::trim_end_spec(u) == u);
    assert(trim_spec(t).len() == 6);
}

/// Every marker value is non-blank.
proof fn lemma_status_values_not_blank(status: Option<RepoStatus>, stashed: bool, i: int)
    requires
        0 <= i < status_segment_values(status, stashed).len(),
    ensures
        trim_spec(status_segment_values(status, stashed)[i]).len() > 0,
{
    lemma_symbols_not_blank();
    let vals = status_segment_values(status, stashed);
    assert(vals[i] == "!"@ || vals[i] == "$stash "@ || vals[i] == "D"@ || vals[i] == "R"@
        || vals[i] == "M"@ || vals[i] == "+"@ || vals[i] == "U"@);
}

/// Appends one named marker segment when its count is positive; a zero count
/// leaves the module as it stands.
pub fn create_segment_with_count(module: &mut Module, name: &str, count: usize, symbol: &str)
    ensures
        count == 0 ==> *final(module) == *old(module),
        count > 0 ==> ({
            &&& final(module).segments@.len() == old(module).segments@.len() + 1
            &&& final(module).segments@.take(old(module).segments@.len() as int) == old(
                module,
            ).segments@
            &&& final(module).segments@.last().name@ == name@
            &&& final(module).segments@.last().value@ == symbol@
            &&& final(module).name == old(module).name
            &&& final(module).style == old(module).style
            &&& final(module).prefix == old(module).prefix
            &&& final(module).suffix == old(module).suffix
        }),
{
    if count > 0 {
        module.create_segment(name, symbol, None);
    }
}

/// Builds the status module from the working-tree counts and the stash
/// state: the markers in their fixed order, framed in red, or nothing when
/// no marker applies.
#[verifier::rlimit(60)]
pub fn status_module(repo_status: Option<RepoStatus>, stashed: bool) -> (r: Option<Module>)
    ensures
        r is Some <==> status_segment_values(repo_status, stashed).len() > 0,
        r matches Some(m) ==> ({
            &&& m.name@ == "git_status"@
            &&& m.style == fg_plain(Color::Red)
            &&& m.prefix.value@ == "["@
            &&& m.prefix.style == fg_plain(Color::Red)
            &&& m.suffix.value@ == "] "@
            &&& m.suffix.style == fg_plain(Color::Red)
            &&& segment_values(m.segments@) == status_segment_values(repo_status, stashed)
            &&& !module_blank(m)
        }),
{
    let ghost vals = status_segment_values(repo_status, stashed);
    let mut module = Module::new("git_status");
    module.set_prefix_value("[");
    module.set_prefix_style(Color::Red.normal());
    module.set_suffix_value("] ");
    module.set_suffix_style(Color::Red.normal());
    module.set_style(Color::Red.normal());
    proof {
        assert(segment_values(module.segments@) =~~= Seq::<Seq<char>>::empty());
    }
    let ghost e = Seq::<Seq<char>>::empty();
    let ghost part_conflicted = match repo_status {
        Some(s) => if s.conflicted > 0 {
            seq!["!"@]
        } else {
            e
        },
        None => e,
    };
    let ghost part_stash = if stashed {
        seq!["$stash "@]
    } else {
        e
    };
    match &repo_status {
        Some(status) => {
            create_segment_with_count(&mut module, "conflicted", status.conflicted, "!");
        },
        None => {},
    }
    proof {
        assert(segment_values(module.segments@) =~~= part_conflicted);
    }
    if stashed {
        module.create_segment("stashed", "$stash ", None);
    }
    proof {
        assert(segment_values(module.segments@) =~~= part_conflicted + part_stash);
    }
    match &repo_status {
        Some(status) => {
            let ghost s = *status;
            create_segment_with_count(&mut module, "deleted", status.deleted, "D");
            proof {
                assert(segment_values(module.segments@) =~~= part_conflicted + part_stash + (if s.deleted
                    > 0 {
                    seq!["D"@]
                } else {
                    e
                }));
            }
            create_segment_with_count(&mut module, "renamed", status.renamed, "R");
            proof {
                assert(segment_values(module.segments@) =~~= part_conflicted + part_stash + (if s.deleted
                    > 0 {
                    seq!["D"@]
                } else {
                    e
                }) + (if s.renamed > 0 {
                    seq!["R"@]
                } else {
                    e
                }));
            }
            create_segment_with_count(&mut module, "modified", status.modified, "M");
            proof {
                assert(segment_values(module.segments@) =~~= part_conflicted + part_stash + (if s.deleted
                    > 0 {
                    seq!["D"@]
                } else {
                    e
                }) + (if s.renamed > 0 {
                    seq!["R"@]
                } else {
                    e
                }) + (if s.modified > 0 {
                    seq!["M"@]
                } else {
                    e
                }));
            }
            create_segment_with_count(&mut module, "staged", status.staged, "+");
            proof {
                assert(segment_values(module.segments@) =~~= part_conflicted + part_stash + (if s.deleted
                    > 0 {
                    seq!["D"@]
                } else {
                    e
                }) + (if s.renamed > 0 {
                    seq!["R"@]
                } else {
                    e
                }) + (if s.modified > 0 {
                    seq!["M"@]
                } else {
                    e
                }) + (if s.staged > 0 {
                    seq!["+"@]
                } else {
                    e
                }));
            }
            create_segment_with_count(&mut module, "untracked", status.untracked, "U");
            proof {
                assert(segment_values(module.segments@) =~~= vals);
            }
        },
        None => {
            proof {
                assert(segment_values(module.segments@) =~~= vals);
            }
        },
    }
    if module.is_empty() {
        proof {
            if vals.len() > 0 {
                assert(module.segments@.len() == vals.len());
                lemma_status_values_not_blank(repo_status, stashed, 0);
                assert(module.segments@[0].value@ == vals[0]);
                assert(!crate::segment::segment_blank(module.segments@[0]));
            }
        }
        return None;
    }
    proof {
        if vals.len() == 0 {
            assert(module.segments@.len() == 0);
            assert(module_blank(module));
        }
    }
    Some(module)
}

/// What the evaluator yields over the cached repository: nothing without a
/// repository or a branch; else, when something shows at all, the red-framed
/// status module whose markers are exactly those of some status counting and
/// stash probe.
#[verifier::opaque]
pub open spec fn git_status_result(repo: Option<Repo>, r: Option<Module>) -> bool {
    &&& (repo is None ==> r is None)
    &&& (repo matches Some(rep) && rep.branch is None ==> r is None)
    &&& (r matches Some(m) ==> ({
        &&& m.name@ == "git_status"@
        &&& m.style == fg_plain(Color::Red)
        &&& m.prefix.value@ == "["@
        &&& m.prefix.style == fg_plain(Color::Red)
        &&& m.suffix.value@ == "] "@
        &&& m.suffix.style == fg_plain(Color::Red)
        &&& !module_blank(m)
        &&& exists|status: Option<RepoStatus>, stashed: bool|
            {
                &&& segment_values(m.segments@) == status_segment_values(status, stashed)
                &&& status_segment_values(status, stashed).len() > 0
            }
    }))
}

/// Creates a module with markers for the repository's working-tree states;
/// absent without a repository or a branch, and when no marker applies.
pub fn module<F: Fn(String) -> PathData>(context: &mut Context, probe_path: F) -> (r: Option<
    Module,
>)
    requires
        old(context).inv(),
        forall|p: String| call_requires(probe_path, (p,)),
    ensures
        evolves(*old(context), *final(context)),
        final(context).repo is Some,
        git_status_result(final(context).repo->0, r),
{
    proof {
        reveal(git_status_result);
    }
    let repo = match context.get_repo(probe_path) {
        Some(repo) => repo,
        None => {
            return None;
        },
    };
    match &repo.branch {
        Some(_) => {},
        None => {
            return None;
        },
    }
    let repository = match open_repository(repo.root.as_str()) {
        Some(repository) => repository,
        None => {
            return None;
        },
    };
    let stashed = has_stash(&repository);
    let repo_status: Option<RepoStatus> = get_repo_status(&repository);
    status_module(repo_status, stashed)
}

} // verus!
