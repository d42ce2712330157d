//! The Go module: marks a Go project — recognised by `go.mod`, `go.sum` or
//! any `.go` file — and shows the toolchain version when its probe supplied
//! one.

use vstd::prelude::*;

use vstd::string::StringExecFns;

use crate::context::{evolves, scan_matches, Context, DirEntry};
use crate::module::Module;
use crate::strutil::{
    chars_of, find_sub, find_sub_chars, skip_chars, string_of, tokenize_chars, tokens_of,
    view_of_opt_ref, views_of_strs,
};
use crate::style::{fg_dimmed, Color};

verus! {

/// Whether a directory listing marks a Go project.
pub open spec fn is_go_project(entries: Seq<DirEntry>) -> bool {
    scan_matches(entries, seq!["go.mod"@, "go.sum"@], seq!["go"@], Seq::<Seq<char>>::empty())
}

/// The version shown for a toolchain report: the first whitespace-separated
/// token after the first `go version go`, prefixed `v`; nothing when the
/// marker or the token is missing.
pub open spec fn go_version_of(stdout: Seq<char>) -> Option<Seq<char>> {
    match find_sub(stdout, "go version go"@) {
        None => None,
        Some(k) => {
            let toks = tokens_of(stdout.skip(k + "go version go"@.len()));
            if toks.len() == 0 {
                None
            } else {
                Some(seq!['v'] + toks[0])
            }
        },
    }
}

/// Formats the report of the toolchain's version query.
pub fn format_go_version(go_stdout: &str) -> (r: Option<String>)
    ensures
        match r {
            Some(v) => go_version_of(go_stdout@) == Some(v@),
            None => go_version_of(go_stdout@) is None,
        },
{
    let chars = chars_of(go_stdout);
    proof {
        reveal_strlit("go version go");
    }
    let k = match find_sub_chars(&chars, "go version go") {
        Some(k) => k,
        None => {
            return None;
        },
    };
    let n = chars.len();
    proof {
        assert(k + 13 <= n);
    }
    let rest = skip_chars(&chars, k + 13);
    let toks = tokenize_chars(&rest);
    if toks.len() == 0 {
        proof {
            assert(tokens_of(go_stdout@.skip(k + "go version go"@.len())).len() == 0);
        }
        return None;
    }
    let mut out: Vec<char> = Vec::new();
    out.push('v');
    let tok = &toks[0];
    let mut i: usize = 0;
    while i < tok.len()
        invariant
            i <= tok@.len(),
            out@ == seq!['v'] + tok@.take(i as int),
        decreases tok@.len() - i,
    {
        out.push(tok[i]);
        i = i + 1;
        proof {
            assert(out@ =~= seq!['v'] + tok@.take(i as int));
        }
    }
    proof {
        assert(tok@.take(tok@.len() as int) =~= tok@);
        assert(toks@[0]@ == tokens_of(rest@)[0]);
    }
    Some(string_of(&out))
}

/// What the evaluator yields over the cached listing and the version
/// report: the marker module exactly when the listing marks a Go project,
/// with the formatted version when the report carries one.
#[verifier::opaque]
pub open spec fn golang_result(
    entries: Seq<DirEntry>,
    go_version: Option<Seq<char>>,
    r: Option<Module>,
) -> bool {
    if is_go_project(entries) {
        ({
            let m = r->0;
            let shown = match go_version {
                Some(out) => go_version_of(out),
                None => None,
            };
            &&& r is Some
            &&& m.style == fg_dimmed(Color::Cyan)
            &&& m.segments@[0].value@ == "+Go "@
            &&& (match shown {
                Some(v) => m.segments@.len() == 2 && m.segments@[1].value@ == v,
                None => m.segments@.len() == 1,
            })
        })
    } else {
        r is None
    }
}

/// Creates a module marking a Go project, with the reported version when one
/// was supplied and readable.
pub fn module<F: FnOnce() -> Option<Vec<DirEntry>>>(
    context: &mut Context,
    read_dir: F,
    go_version: Option<&String>,
) -> (r: Option<Module>)
    requires
        old(context).inv(),
        call_requires(read_dir, ()),
    ensures
        evolves(*old(context), *final(context)),
        final(context).scan is Some,
        golang_result(final(context).scan->0.entries@, view_of_opt_ref(go_version), r),
{
    proof {
        reveal(golang_result);
    }
    let mut files: Vec<&str> = Vec::new();
    files.push("go.mod");
    files.push("go.sum");
    let mut extensions: Vec<&str> = Vec::new();
    extensions.push("go");
    let folders: Vec<&str> = Vec::new();
    proof {
        assert(views_of_strs(files@) =~= seq!["go.mod"@, "go.sum"@]);
        assert(views_of_strs(extensions@) =~= seq!["go"@]);
        assert(views_of_strs(folders@) =~= Seq::<Seq<char>>::empty());
    }
    if !context.probe(&files, &extensions, &folders, read_dir) {
        return None;
    }
    let mut module = Module::new("");
    module.set_style(Color::Cyan.dimmed());
    module.append_segment_str("+Go ");
    match go_version {
        Some(out) => {
            match format_go_version(out.as_str()) {
                Some(ver) => {
                    module.append_segment_str(ver.as_str());
                },
                None => {},
            }
        },
        None => {},
    }
    Some(module)
}

} // verus!
