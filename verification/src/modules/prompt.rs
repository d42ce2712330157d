//! The prompt-character module: an arrow whose colour reflects the exit code
//! of the last command — success style when the code was `0`, failure style
//! otherwise.

use vstd::prelude::*;

use crate::context::{lookup_prop, Context};
use crate::module::Module;
use crate::strutil::str_eq;
use crate::style::{fg_bold, plain_style, Color};

verus! {

/// Whether the exit-status property reads as success; an absent property
/// counts as success.
pub open spec fn exit_success(props: Seq<(String, String)>) -> bool {
    match lookup_prop(props, "status_code"@) {
        Some(code) => code == "0"@,
        None => true,
    }
}

/// What the evaluator yields over the properties: always one arrow segment,
/// success-styled for exit status `0`, failure-styled otherwise.
#[verifier::opaque]
pub open spec fn prompt_result(props: Seq<(String, String)>, r: Option<Module>) -> bool {
    &&& r is Some
    &&& ({
        let m = r->0;
        &&& m.name@ == Seq::<char>::empty()
        &&& m.prefix.style == plain_style()
        &&& m.prefix.value@ == Seq::<char>::empty()
        &&& m.suffix.style == plain_style()
        &&& m.suffix.value@ == seq![' ']
        &&& m.segments@.len() == 1
        &&& m.segments@[0].style_override is None
        &&& (exit_success(props) ==> m.style == fg_bold(Color::Green) && m.segments@[0].value@
            == "<$>"@)
        &&& (!exit_success(props) ==> m.style == fg_bold(Color::Red) && m.segments@[0].value@
            == "</>"@)
    })
}

/// Creates a module for the prompt character.
pub fn module(context: &Context) -> (r: Option<Module>)
    ensures
        prompt_result(context.properties@, r),
{
    proof {
        reveal(prompt_result);
    }
    let mut module = Module::new("");
    proof {
        reveal_strlit("");
        assert(module.name@ =~= Seq::<char>::empty());
    }
    let success = match context.get_property("status_code") {
        Some(code) => str_eq(code.as_str(), "0"),
        None => true,
    };
    if success {
        module.set_style(Color::Green.bold());
        module.append_segment_str("<$>");
    } else {
        module.set_style(Color::Red.bold());
        module.append_segment_str("</>");
    }
    Some(module)
}

} // verus!
