//! The directory module: the current directory, contracted to the repository
//! root or to `~` for the home directory, and truncated to a bounded number
//! of path components.

use vstd::prelude::*;

use path_slash::PathExt;

use vstd::string::StringExecFns;

use crate::context::{evolves, Context};
use crate::module::Module;
use crate::repo::{PathData, Repo};
use crate::strutil::{
    chars_eq, chars_of, join_chars, join_with, lemma_split_at_len, push_char, skip_chars,
    split_at, split_chars, str_eq, string_of,
};
use crate::style::{fg_bold, Color};

verus! {

/// The `/`-separated components of a path string.
pub open spec fn components_of(p: Seq<char>) -> Seq<Seq<char>> {
    split_at(p, '/')
}

/// Whether `full` starts with `top`, component-wise: a partial component
/// never counts as a prefix.
pub open spec fn path_starts_with(full: Seq<char>, top: Seq<char>) -> bool {
    components_of(top).is_prefix_of(components_of(full))
}

/// What contracting `top` out of `full` yields: `full` untouched when it
/// does not start with `top`; exactly the replacement when the two are
/// equal; else the replacement joined to the remaining components by one
/// separator.
pub open spec fn contract_path_spec(full: Seq<char>, top: Seq<char>, repl: Seq<char>) -> Seq<
    char,
> {
    if !path_starts_with(full, top) {
        full
    } else if components_of(full).len() == components_of(top).len() {
        repl
    } else {
        repl + seq!['/'] + join_with(
            components_of(full).skip(components_of(top).len() as int),
            '/',
        )
    }
}

/// Contract the root component of a path: replaces `top_level_path` in
/// `full_path` with `top_level_replacement`.
pub fn contract_path(full_path: &str, top_level_path: &str, top_level_replacement: &str) -> (r:
    String)
    ensures
        r@ == contract_path_spec(full_path@, top_level_path@, top_level_replacement@),
        !path_starts_with(full_path@, top_level_path@) ==> r@ == full_path@,
        components_of(full_path@) == components_of(top_level_path@) ==> r@
            == top_level_replacement@,
{
    let fullv = chars_of(full_path);
    let fc = split_chars(&fullv, '/');
    let topv = chars_of(top_level_path);
    let tc = split_chars(&topv, '/');
    proof {
        lemma_split_at_len(full_path@, '/');
        lemma_split_at_len(top_level_path@, '/');
    }
    if tc.len() > fc.len() {
        proof {
            assert(!path_starts_with(full_path@, top_level_path@));
        }
        return full_path.to_owned();
    }
    let mut j: usize = 0;
    while j < tc.len()
        invariant
            j <= tc@.len() <= fc@.len(),
            fc.deep_view() == components_of(full_path@),
            tc.deep_view() == components_of(top_level_path@),
            forall|k: int| 0 <= k < j ==> components_of(top_level_path@)[k] == components_of(
                full_path@,
            )[k],
        decreases tc@.len() - j,
    {
        proof {
            assert(tc@[j as int]@ == components_of(top_level_path@)[j as int]);
            assert(fc@[j as int]@ == components_of(full_path@)[j as int]);
        }
        if !chars_eq(&tc[j], &fc[j]) {
            proof {
                assert(components_of(full_path@).take(components_of(top_level_path@).len() as int)[
                    j as int] != components_of(top_level_path@)[j as int]);
                assert(!path_starts_with(full_path@, top_level_path@));
            }
            return full_path.to_owned();
        }
        j = j + 1;
    }
    proof {
        assert(components_of(full_path@).take(components_of(top_level_path@).len() as int) =~~=
            components_of(top_level_path@));
        assert(path_starts_with(full_path@, top_level_path@));
    }
    if tc.len() == fc.len() {
        proof {
            assert(components_of(full_path@) =~~= components_of(top_level_path@));
        }
        return top_level_replacement.to_owned();
    }
    let mut rest: Vec<Vec<char>> = Vec::new();
    let mut i: usize = tc.len();
    while i < fc.len()
        invariant
            tc@.len() <= i <= fc@.len(),
            fc.deep_view() == components_of(full_path@),
            tc.deep_view() == components_of(top_level_path@),
            rest.deep_view() == components_of(full_path@).subrange(tc@.len() as int, i as int),
        decreases fc@.len() - i,
    {
        let ghost rest0 = rest.deep_view();
        let part = skip_chars(&fc[i], 0);
        proof {
            assert(fc@[i as int]@ == components_of(full_path@)[i as int]);
            assert(fc@[i as int]@.skip(0) =~= fc@[i as int]@);
        }
        rest.push(part);
        i = i + 1;
        proof {
            assert(rest.deep_view() =~~= rest0.push(components_of(full_path@)[i - 1]));
            assert(rest.deep_view() =~~= components_of(full_path@).subrange(
                tc@.len() as int,
                i as int,
            ));
        }
    }
    proof {
        assert(rest.deep_view() =~~= components_of(full_path@).skip(tc@.len() as int));
    }
    let joined = join_chars(&rest, '/');
    let mut out = top_level_replacement.to_owned();
    push_char(&mut out, '/');
    let tail = string_of(&joined);
    out.append(tail.as_str());
    proof {
        assert(out@ =~= contract_path_spec(full_path@, top_level_path@, top_level_replacement@));
    }
    out
}

/// The components a truncation counts: the path's components, without a
/// leading empty one from an absolute path's first separator.
pub open spec fn counted_components(s: Seq<char>) -> Seq<Seq<char>> {
    let comps = components_of(s);
    if comps.len() > 0 && comps[0].len() == 0 {
        comps.drop_first()
    } else {
        comps
    }
}

/// What truncating to `length` components yields: the string untouched for
/// length zero or when it has no more components than asked; else exactly
/// the last `length` components joined, with no leading separator added.
pub open spec fn truncate_spec(s: Seq<char>, length: int) -> Seq<char> {
    if length == 0 {
        s
    } else {
        let comps = counted_components(s);
        if comps.len() <= length {
            s
        } else {
            join_with(comps.skip(comps.len() - length), '/')
        }
    }
}

/// Truncate a path to at most `length` trailing components; a length of
/// zero means no truncation at all.
pub fn truncate(dir_string: String, length: usize) -> (r: String)
    ensures
        r@ == truncate_spec(dir_string@, length as int),
        length == 0 ==> r@ == dir_string@,
        length > 0 && counted_components(dir_string@).len() <= length ==> r@ == dir_string@,
{
    if length == 0 {
        return dir_string;
    }
    let chars = chars_of(dir_string.as_str());
    let comps_all = split_chars(&chars, '/');
    proof {
        lemma_split_at_len(dir_string@, '/');
    }
    let drop_leading = comps_all[0].len() == 0;
    let start: usize = if drop_leading {
        1
    } else {
        0
    };
    proof {
        assert(comps_all@[0]@ == components_of(dir_string@)[0]);
    }
    let count = comps_all.len() - start;
    if count <= length {
        proof {
            assert(counted_components(dir_string@).len() == count);
        }
        return dir_string;
    }
    let from = comps_all.len() - length;
    let mut rest: Vec<Vec<char>> = Vec::new();
    let mut i: usize = from;
    while i < comps_all.len()
        invariant
            from <= i <= comps_all@.len(),
            comps_all.deep_view() == components_of(dir_string@),
            rest.deep_view() == components_of(dir_string@).subrange(from as int, i as int),
        decreases comps_all@.len() - i,
    {
        let ghost rest0 = rest.deep_view();
        let part = skip_chars(&comps_all[i], 0);
        proof {
            assert(comps_all@[i as int]@ == components_of(dir_string@)[i as int]);
            assert(comps_all@[i as int]@.skip(0) =~= comps_all@[i as int]@);
        }
        rest.push(part);
        i = i + 1;
        proof {
            assert(rest.deep_view() =~~= rest0.push(components_of(dir_string@)[i - 1]));
            assert(rest.deep_view() =~~= components_of(dir_string@).subrange(
                from as int,
                i as int,
            ));
        }
    }
    proof {
        assert(rest.deep_view() =~~= components_of(dir_string@).skip(from as int));
        assert(counted_components(dir_string@).skip(counted_components(dir_string@).len()
            - length) =~~= components_of(dir_string@).skip(from as int));
    }
    let joined = join_chars(&rest, '/');
    string_of(&joined)
}

/// The last `/`-separated component of a path string.
pub open spec fn last_component(p: Seq<char>) -> Seq<char> {
    components_of(p).last()
}

/// Executable counterpart of `last_component`.
fn last_component_of(p: &str) -> (r: String)
    ensures
        r@ == last_component(p@),
{
    let chars = chars_of(p);
    let comps = split_chars(&chars, '/');
    proof {
        lemma_split_at_len(p@, '/');
        assert(comps@[comps@.len() - 1]@ == components_of(p@).last());
    }
    let last = skip_chars(&comps[comps.len() - 1], 0);
    proof {
        assert(comps@[comps@.len() - 1]@.skip(0) =~= comps@[comps@.len() - 1]@);
    }
    string_of(&last)
}

/// Relies on dirs' `home_dir` and path_slash's `to_slash`: the user's home
/// directory as a `/`-separated string; what it is depends on the machine.
#[verifier::external_body]
fn home_dir_slash() -> Option<String> {
    dirs::home_dir().and_then(|p| p.to_slash().map(|c| c.to_string()))
}

/// The directory text shown for a current directory, repository root and
/// home directory: contracted to `~` when the root is the home, else to the
/// repository's folder name, then truncated.
pub open spec fn dir_text(cwd: Seq<char>, root: Seq<char>, home: Option<Seq<char>>) -> Seq<char> {
    let contracted = match home {
        Some(h) => if root == h {
            contract_path_spec(cwd, h, "~"@)
        } else {
            contract_path_spec(cwd, root, last_component(root))
        },
        None => contract_path_spec(cwd, root, last_component(root)),
    };
    truncate_spec(contracted, 7)
}

/// What the evaluator yields over the current directory and the cached
/// repository: nothing without a repository; else one segment showing the
/// contracted, truncated directory, for whatever home directory the machine
/// reported.
#[verifier::opaque]
pub open spec fn directory_result(cwd: Seq<char>, repo: Option<Repo>, r: Option<Module>) -> bool {
    match repo {
        None => r is None,
        Some(rep) => ({
            let m = r->0;
            &&& r is Some
            &&& m.style == fg_bold(Color::Cyan)
            &&& m.segments@.len() == 1
            &&& (exists|home: Option<Seq<char>>|
                m.segments@[0].value@ == dir_text(cwd, rep.root@, home))
        }),
    }
}

/// Creates a module with the current directory, contracted and truncated;
/// absent without an enclosing repository.
pub fn module<F: Fn(String) -> PathData>(context: &mut Context, probe_path: F) -> (r: Option<
    Module,
>)
    requires
        old(context).inv(),
        forall|p: String| call_requires(probe_path, (p,)),
    ensures
        evolves(*old(context), *final(context)),
        final(context).repo is Some,
        directory_result(final(context).current_dir@, final(context).repo->0, r),
{
    proof {
        reveal(directory_result);
    }
    let mut module = Module::new("");
    module.set_style(Color::Cyan.bold());
    let repo = match context.get_repo(probe_path) {
        Some(repo) => repo,
        None => {
            return None;
        },
    };
    let home = home_dir_slash();
    let use_home = match &home {
        Some(h) => str_eq(repo.root.as_str(), h.as_str()),
        None => false,
    };
    let ghost home_view: Option<Seq<char>> = match &home {
        Some(h) => Some(h@),
        None => None,
    };
    let dir_string = if use_home {
        let h = match &home {
            Some(h) => h,
            None => {
                proof {
                    assert(false);
                }
                unreached()
            },
        };
        contract_path(context.current_dir.as_str(), h.as_str(), "~")
    } else {
        let folder = last_component_of(repo.root.as_str());
        contract_path(context.current_dir.as_str(), repo.root.as_str(), folder.as_str())
    };
    let truncated = truncate(dir_string, 7);
    module.append_segment_str(truncated.as_str());
    proof {
        assert(module.segments@[0].value@ == dir_text(
            final(context).current_dir@,
            final(context).repo->0->0.root@,
            home_view,
        ));
    }
    Some(module)
}

} // verus!
