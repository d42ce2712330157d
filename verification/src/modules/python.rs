//! The Python module: marks a Python project — a `Pipfile`, or an active
//! pipenv shell — and shows the interpreter version its probe supplied.

use vstd::prelude::*;

use vstd::string::StringExecFns;

use crate::context::{evolves, scan_matches, Context, DirEntry};
use crate::module::Module;
use crate::strutil::{
    chars_of, string_of, strip_repeated_prefix, strip_repeated_prefix_chars, trim_chars,
    trim_spec, view_of_opt_ref, views_of_strs,
};
use crate::style::{plain_style, Color, Style};

verus! {

/// Whether a directory listing marks a Python project.
pub open spec fn is_python_project(entries: Seq<DirEntry>) -> bool {
    scan_matches(entries, seq!["Pipfile"@], Seq::<Seq<char>>::empty(), Seq::<Seq<char>>::empty())
}

/// The version shown for an interpreter report: the report without its
/// `Python ` markers, trimmed, prefixed `v`.
pub open spec fn python_version_of(stdout: Seq<char>) -> Seq<char> {
    seq!['v'] + trim_spec(strip_repeated_prefix(stdout, "Python "@))
}

/// The style the module shows: white on red, struck through.
pub open spec fn python_style() -> Style {
    Style {
        foreground: Some(Color::White),
        background: Some(Color::Red),
        is_strikethrough: true,
        ..plain_style()
    }
}

/// Formats the report of the interpreter's version query.
pub fn format_python_version(python_stdout: &str) -> (r: String)
    ensures
        r@ == python_version_of(python_stdout@),
{
    let chars = chars_of(python_stdout);
    let stripped = strip_repeated_prefix_chars(chars, "Python ");
    let trimmed = trim_chars(&stripped);
    let mut out: Vec<char> = Vec::new();
    out.push('v');
    let mut i: usize = 0;
    while i < trimmed.len()
        invariant
            i <= trimmed@.len(),
            out@ == seq!['v'] + trimmed@.take(i as int),
        decreases trimmed@.len() - i,
    {
        out.push(trimmed[i]);
        i = i + 1;
        proof {
            assert(out@ =~= seq!['v'] + trimmed@.take(i as int));
        }
        assert(trimmed@.take(trimmed@.len() as int) =~= trimmed@);
    }
    string_of(&out)
}

/// What the evaluator yields over the cached listing, the pipenv flag and
/// the supplied reports: nothing unless the project (or shell) is Python and
/// a version was reported; else the version, and the virtual environment
/// when one was supplied.
#[verifier::opaque]
pub open spec fn python_result(
    entries: Seq<DirEntry>,
    pipenv_active: bool,
    python_version: Option<Seq<char>>,
    virtual_env: Option<Seq<char>>,
    r: Option<Module>,
) -> bool {
    if is_python_project(entries) || pipenv_active {
        match python_version {
            None => r is None,
            Some(out) => ({
                let m = r->0;
                &&& r is Some
                &&& m.style == python_style()
                &&& m.segments@[0].value@ == "+Py "@
                &&& m.segments@[1].value@ == python_version_of(out)
                &&& (match virtual_env {
                    Some(venv) => m.segments@.len() == 3 && m.segments@[2].value@ == " ("@ + venv
                        + seq![')'],
                    None => m.segments@.len() == 2,
                })
            }),
        }
    } else {
        r is None
    }
}

/// Creates a module marking a Python project, with the reported interpreter
/// version and the active virtual environment when they were supplied.
pub fn module<F: FnOnce() -> Option<Vec<DirEntry>>>(
    context: &mut Context,
    read_dir: F,
    pipenv_active: bool,
    python_version: Option<&String>,
    virtual_env: Option<&String>,
) -> (r: Option<Module>)
    requires
        old(context).inv(),
        call_requires(read_dir, ()),
    ensures
        evolves(*old(context), *final(context)),
        final(context).scan is Some,
        python_result(
            final(context).scan->0.entries@,
            pipenv_active,
            view_of_opt_ref(python_version),
            view_of_opt_ref(virtual_env),
            r,
        ),
{
    proof {
        reveal(python_result);
    }
    let mut files: Vec<&str> = Vec::new();
    files.push("Pipfile");
    let extensions: Vec<&str> = Vec::new();
    let folders: Vec<&str> = Vec::new();
    proof {
        assert(views_of_strs(files@) =~= seq!["Pipfile"@]);
        assert(views_of_strs(extensions@) =~= Seq::<Seq<char>>::empty());
        assert(views_of_strs(folders@) =~= Seq::<Seq<char>>::empty());
    }
    let is_py_project = context.probe(&files, &extensions, &folders, read_dir);
    if !is_py_project && !pipenv_active {
        return None;
    }
    let mut module = Module::new("");
    module.set_style(Style::new().fg(Color::White).on(Color::Red).strikethrough());
    module.append_segment_str("+Py ");
    let out = match python_version {
        Some(out) => out,
        None => {
            proof {
                assert(view_of_opt_ref(python_version) is None);
            }
            return None;
        },
    };
    proof {
        assert(view_of_opt_ref(python_version) == Some(out@));
    }
    let formatted = format_python_version(out.as_str());
    module.append_segment_str(formatted.as_str());
    match virtual_env {
        Some(venv) => {
            let mut tail = " (".to_owned();
            tail.append(venv.as_str());
            tail.append(")");
            proof {
                reveal_strlit(")");
                assert(view_of_opt_ref(virtual_env) == Some(venv@));
                assert(tail@ =~= " ("@ + venv@ + seq![')']);
            }
            module.append_segment_str(tail.as_str());
        },
        None => {
            proof {
                assert(view_of_opt_ref(virtual_env) is None);
            }
        },
    }
    Some(module)
}

} // verus!
