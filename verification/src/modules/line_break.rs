//! The line-break module: a bare newline between the two prompt lines.

use vstd::prelude::*;

use crate::context::Context;
use crate::module::Module;
use crate::style::plain_style;

verus! {

/// What the evaluator yields: always the unstyled newline module.
#[verifier::opaque]
pub open spec fn line_break_result(r: Option<Module>) -> bool {
    &&& r is Some
    &&& ({
        let m = r->0;
        &&& m.name@ == "line_break"@
        &&& m.style == plain_style()
        &&& m.prefix.style == plain_style()
        &&& m.prefix.value@ == Seq::<char>::empty()
        &&& m.suffix.style == plain_style()
        &&& m.suffix.value@ == Seq::<char>::empty()
        &&& m.segments@.len() == 1
        &&& m.segments@[0].value@ == "\n"@
        &&& m.segments@[0].style_override is None
    })
}

/// Creates a module for the line break.
pub fn module(_context: &Context) -> (r: Option<Module>)
    ensures
        line_break_result(r),
{
    proof {
        reveal(line_break_result);
    }
    let mut module = Module::new("line_break");
    module.create_segment("character", "\n", None);
    module.set_suffix_value("");
    proof {
        reveal_strlit("");
        assert(module.suffix.value@ =~= Seq::<char>::empty());
    }
    Some(module)
}

} // verus!
