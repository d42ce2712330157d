//! The Elixir module: marks an Elixir project, recognised by a `mix.exs`
//! file.

use vstd::prelude::*;

use crate::context::{evolves, scan_matches, Context, DirEntry};
use crate::module::Module;
use crate::strutil::views_of_strs;
use crate::style::{fg_bold, Color};

verus! {

/// Whether a directory listing marks an Elixir project.
pub open spec fn is_elixir_project(entries: Seq<DirEntry>) -> bool {
    scan_matches(
        entries,
        seq!["mix.exs"@],
        Seq::<Seq<char>>::empty(),
        Seq::<Seq<char>>::empty(),
    )
}

/// Creates a module marking an Elixir project.
pub fn module<F: FnOnce() -> Option<Vec<DirEntry>>>(context: &mut Context, read_dir: F) -> (r:
    Option<Module>)
    requires
        old(context).inv(),
        call_requires(read_dir, ()),
    ensures
        evolves(*old(context), *final(context)),
        final(context).scan is Some,
        if is_elixir_project(final(context).scan->0.entries@) {
            ({
                let m = r->0;
                &&& r is Some
                &&& m.style == fg_bold(Color::Blue)
                &&& m.segments@.len() == 1
                &&& m.segments@[0].value@ == ">Elixir"@
            })
        } else {
            r is None
        },
{
    let mut files: Vec<&str> = Vec::new();
    files.push("mix.exs");
    let extensions: Vec<&str> = Vec::new();
    let folders: Vec<&str> = Vec::new();
    proof {
        assert(views_of_strs(files@) =~= seq!["mix.exs"@]);
        assert(views_of_strs(extensions@) =~= Seq::<Seq<char>>::empty());
        assert(views_of_strs(folders@) =~= Seq::<Seq<char>>::empty());
    }
    if context.probe(&files, &extensions, &folders, read_dir) {
        let mut module = Module::new("");
        module.set_style(Color::Blue.bold());
        module.append_segment_str(">Elixir");
        Some(module)
    } else {
        None
    }
}

} // verus!
