//! The character module: like the prompt-character module, but carrying its
//! style as a per-segment override taken from a segment configuration.

use vstd::prelude::*;

use crate::configs::SegmentConfig;
use crate::context::Context;
use crate::module::Module;
use crate::modules::prompt::exit_success;
use crate::strutil::str_eq;
use crate::style::{fg_bold, Color};

verus! {

/// Creates a module for the prompt character, styled through a segment
/// configuration.
pub fn module(context: &Context) -> (r: Option<Module>)
    ensures
        r is Some,
        ({
            let m = r->0;
            &&& m.name@ == "character"@
            &&& m.segments@.len() == 1
            &&& m.segments@[0].name@ == "symbol"@
            &&& (exit_success(context.properties@) ==> m.segments@[0].value@ == "<$>"@ && m.segments@[0].style_override
                == Some(fg_bold(Color::Green)))
            &&& (!exit_success(context.properties@) ==> m.segments@[0].value@ == "T_T"@ && m.segments@[0].style_override
                == Some(fg_bold(Color::Red)))
        }),
{
    let mut module = Module::new("character");
    let success = match context.get_property("status_code") {
        Some(code) => str_eq(code.as_str(), "0"),
        None => true,
    };
    let sc = if success {
        SegmentConfig { value: "<$>".to_owned(), style: Some(Color::Green.bold()) }
    } else {
        SegmentConfig { value: "T_T".to_owned(), style: Some(Color::Red.bold()) }
    };
    module.create_segment("symbol", sc.value.as_str(), sc.style);
    Some(module)
}

} // verus!
