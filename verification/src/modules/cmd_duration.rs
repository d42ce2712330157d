//! The command-duration module: how long the last command took, shown only
//! from two seconds up.

use vstd::prelude::*;

use vstd::string::StringExecFns;

use crate::context::{lookup_prop, Context};
use crate::module::Module;
use crate::strutil::{
    chars_of, dec_digits, parse_u64_chars, parse_u64_spec, string_of, u64_to_chars,
};
use crate::style::{fg_dimmed, Color};

verus! {

/// The duration the properties carry, if it parses as seconds.
pub open spec fn duration_seconds(props: Seq<(String, String)>) -> Option<u64> {
    match lookup_prop(props, "cmd_duration"@) {
        Some(v) => parse_u64_spec(v),
        None => None,
    }
}

/// What the evaluator yields over the properties: nothing when the duration
/// is unreadable or under two seconds, else the rendered duration.
#[verifier::opaque]
pub open spec fn cmd_duration_result(props: Seq<(String, String)>, r: Option<Module>) -> bool {
    match duration_seconds(props) {
        None => r is None,
        Some(t) => if t < 2 {
            r is None
        } else {
            ({
                let m = r->0;
                &&& r is Some
                &&& m.name@ == "cmd_duration"@
                &&& m.style == fg_dimmed(Color::Yellow)
                &&& m.prefix.value@ == Seq::<char>::empty()
                &&& m.segments@.len() == 1
                &&& m.segments@[0].name@ == "cmd_duration"@
                &&& m.segments@[0].value@ == "tók "@ + render_time_spec(t as int)
            })
        },
    }
}

/// One component of the rendered time: the value and its unit suffix, or
/// nothing when the value is zero.
pub open spec fn render_component_spec(component: int, suffix: Seq<char>) -> Seq<char> {
    if component == 0 {
        Seq::<char>::empty()
    } else {
        dec_digits(component) + suffix
    }
}

/// The human-readable breakdown of a duration into days, hours, minutes and
/// seconds, zero components left out.
pub open spec fn render_time_spec(raw_seconds: int) -> Seq<char> {
    let seconds = raw_seconds % 60;
    let raw_minutes = raw_seconds / 60;
    let minutes = raw_minutes % 60;
    let raw_hours = raw_minutes / 60;
    let hours = raw_hours % 24;
    let days = raw_hours / 24;
    render_component_spec(days, "d"@) + render_component_spec(hours, "h"@) + render_component_spec(
        minutes,
        "m"@,
    ) + render_component_spec(seconds, "s"@)
}

/// Render a single component of the time string, an empty string when the
/// component is zero.
pub fn render_time_component(component: u64, suffix: &str) -> (r: String)
    ensures
        r@ == render_component_spec(component as int, suffix@),
{
    if component == 0 {
        String::new()
    } else {
        let digits = u64_to_chars(component);
        let mut out = string_of(&digits);
        out.append(suffix);
        out
    }
}

/// Render the time into a human-readable string.
pub fn render_time(raw_seconds: u64) -> (r: String)
    ensures
        r@ == render_time_spec(raw_seconds as int),
{
    let seconds = raw_seconds % 60;
    let raw_minutes = raw_seconds / 60;
    let minutes = raw_minutes % 60;
    let raw_hours = raw_minutes / 60;
    let hours = raw_hours % 24;
    let days = raw_hours / 24;
    let mut out = render_time_component(days, "d");
    let h = render_time_component(hours, "h");
    out.append(h.as_str());
    let m = render_time_component(minutes, "m");
    out.append(m.as_str());
    let s = render_time_component(seconds, "s");
    out.append(s.as_str());
    out
}

/// Outputs the time the last command took, when it took at least two seconds.
pub fn module(context: &Context) -> (r: Option<Module>)
    ensures
        cmd_duration_result(context.properties@, r),
{
    proof {
        reveal(cmd_duration_result);
    }
    let mut module = Module::new("cmd_duration");
    let elapsed: u64 = match context.get_property("cmd_duration") {
        Some(v) => {
            let chars = chars_of(v.as_str());
            match parse_u64_chars(&chars) {
                Some(t) => t,
                None => {
                    return None;
                },
            }
        },
        None => {
            return None;
        },
    };
    if elapsed < 2 {
        return None;
    }
    module.set_style(Color::Yellow.dimmed());
    let mut value = "tók ".to_owned();
    let rendered = render_time(elapsed);
    value.append(rendered.as_str());
    module.create_segment("cmd_duration", value.as_str(), None);
    module.set_prefix_value("");
    proof {
        reveal_strlit("");
        assert(module.prefix.value@ =~= Seq::<char>::empty());
    }
    Some(module)
}

} // verus!
