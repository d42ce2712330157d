//! The Rust module: marks a Rust project, recognised by a `Cargo.toml` file
//! or any file with the `rs` extension.

use vstd::prelude::*;

use crate::context::{evolves, scan_matches, Context, DirEntry};
use crate::module::Module;
use crate::strutil::views_of_strs;
use crate::style::{fg_bold, Color};

verus! {

/// Whether a directory listing marks a Rust project.
pub open spec fn is_rust_project(entries: Seq<DirEntry>) -> bool {
    scan_matches(entries, seq!["Cargo.toml"@], seq!["rs"@], Seq::<Seq<char>>::empty())
}

/// What the evaluator yields over the cached listing: the marker module
/// exactly when the listing marks a Rust project.
#[verifier::opaque]
pub open spec fn rust_result(entries: Seq<DirEntry>, r: Option<Module>) -> bool {
    if is_rust_project(entries) {
        ({
            let m = r->0;
            &&& r is Some
            &&& m.style == fg_bold(Color::Green)
            &&& m.segments@.len() == 1
            &&& m.segments@[0].value@ == ">Rust"@
        })
    } else {
        r is None
    }
}

/// Creates a module marking a Rust project.
pub fn module<F: FnOnce() -> Option<Vec<DirEntry>>>(context: &mut Context, read_dir: F) -> (r:
    Option<Module>)
    requires
        old(context).inv(),
        call_requires(read_dir, ()),
    ensures
        evolves(*old(context), *final(context)),
        final(context).scan is Some,
        rust_result(final(context).scan->0.entries@, r),
{
    proof {
        reveal(rust_result);
    }
    let mut files: Vec<&str> = Vec::new();
    files.push("Cargo.toml");
    let mut extensions: Vec<&str> = Vec::new();
    extensions.push("rs");
    let folders: Vec<&str> = Vec::new();
    proof {
        assert(views_of_strs(files@) =~= seq!["Cargo.toml"@]);
        assert(views_of_strs(extensions@) =~= seq!["rs"@]);
        assert(views_of_strs(folders@) =~= Seq::<Seq<char>>::empty());
    }
    let is_rs_project = context.probe(&files, &extensions, &folders, read_dir);
    if is_rs_project {
        let mut module = Module::new("");
        module.set_style(Color::Green.bold());
        module.append_segment_str(">Rust");
        Some(module)
    } else {
        None
    }
}

} // verus!
