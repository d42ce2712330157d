//! The tailscale module: marks an active exit node.

use vstd::prelude::*;

use crate::context::Context;
use crate::module::Module;
use crate::strutil::view_of_opt_ref;
use crate::style::{fg_plain, Color};

verus! {

/// What the module shows: a marker when an exit node is set, else nothing.
pub open spec fn tailscale_fragment(exit_node: Option<Seq<char>>) -> Seq<char> {
    match exit_node {
        Some(_) => "\u{2197}tailscale"@,
        None => Seq::<char>::empty(),
    }
}

/// What the evaluator yields over the environment value: always one
/// segment, the exit-node marker or nothing.
#[verifier::opaque]
pub open spec fn tailscale_result(exit_node: Option<Seq<char>>, r: Option<Module>) -> bool {
    &&& r is Some
    &&& ({
        let m = r->0;
        &&& m.style == fg_plain(Color::White)
        &&& m.segments@.len() == 1
        &&& m.segments@[0].value@ == tailscale_fragment(exit_node)
    })
}

/// Creates a module marking an active exit node; always present, blank when
/// none is set.
pub fn module(_context: &Context, ts_exit_node: Option<&String>) -> (r: Option<Module>)
    ensures
        tailscale_result(view_of_opt_ref(ts_exit_node), r),
{
    proof {
        reveal(tailscale_result);
        reveal_strlit("");
    }
    let ts: &str = match ts_exit_node {
        Some(_) => "\u{2197}tailscale",
        None => "",
    };
    let mut module = Module::new("");
    module.set_style(Color::White.normal());
    module.append_segment_str(ts);
    proof {
        match ts_exit_node {
            Some(e) => {
                assert(view_of_opt_ref(ts_exit_node) == Some(e@));
            },
            None => {
                assert(view_of_opt_ref(ts_exit_node) is None);
                assert(ts@ =~= Seq::<char>::empty());
            },
        }
        assert(module.segments@[0].value@ == tailscale_fragment(view_of_opt_ref(ts_exit_node)));
    }
    Some(module)
}

} // verus!
