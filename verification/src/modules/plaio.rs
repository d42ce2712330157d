//! The plaio module: marks the active platform environment from the
//! environment variable of the same name.

use vstd::prelude::*;

use vstd::string::StringExecFns;

use crate::context::Context;
use crate::module::Module;
use crate::strutil::view_of_opt_ref;
use crate::style::{fg_plain, Color};

verus! {

/// What the module shows: the platform marker and the environment name, or
/// nothing when none is set.
pub open spec fn plaio_fragment(env: Option<Seq<char>>) -> Seq<char> {
    match env {
        Some(e) => "\u{1f17f}\u{fe0f} "@ + e,
        None => Seq::<char>::empty(),
    }
}

/// What the evaluator yields over the environment value: always one
/// segment, the platform fragment or nothing.
#[verifier::opaque]
pub open spec fn plaio_result(env: Option<Seq<char>>, r: Option<Module>) -> bool {
    &&& r is Some
    &&& ({
        let m = r->0;
        &&& m.style == fg_plain(Color::White)
        &&& m.segments@.len() == 1
        &&& m.segments@[0].value@ == plaio_fragment(env)
    })
}

/// Creates a module marking the platform environment; always present, blank
/// when none is set.
pub fn module(_context: &Context, plaio_env: Option<&String>) -> (r: Option<Module>)
    ensures
        plaio_result(view_of_opt_ref(plaio_env), r),
{
    proof {
        reveal(plaio_result);
    }
    let ts: String = match plaio_env {
        Some(e) => {
            let mut s = "\u{1f17f}\u{fe0f} ".to_owned();
            s.append(e.as_str());
            s
        },
        None => String::new(),
    };
    let mut module = Module::new("");
    module.set_style(Color::White.normal());
    module.append_segment_str(ts.as_str());
    Some(module)
}

} // verus!
