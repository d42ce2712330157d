//! The jobs module: shows the number of background jobs when any are running.

use vstd::prelude::*;

use crate::context::{lookup_prop, Context};
use crate::module::Module;
use crate::strutil::{
    chars_of, i64_to_chars, parse_i64_chars, parse_i64_spec, signed_dec_digits, string_of,
    trim_chars, trim_spec,
};
use crate::style::{fg_bold, Color};

verus! {

/// The job count the properties carry, if it parses: the `jobs` property
/// (default `0`), trimmed, read as a signed integer.
pub open spec fn job_count(props: Seq<(String, String)>) -> Option<i64> {
    let raw = match lookup_prop(props, "jobs"@) {
        Some(v) => v,
        None => "0"@,
    };
    parse_i64_spec(trim_spec(raw))
}

/// What the evaluator yields over the properties: nothing for a zero or
/// unreadable count, else the jobs marker and the count.
#[verifier::opaque]
pub open spec fn jobs_result(props: Seq<(String, String)>, r: Option<Module>) -> bool {
    match job_count(props) {
            None => r is None,
            Some(n) => if n == 0 {
                r is None
            } else {
                ({
                    let m = r->0;
                    &&& r is Some
                    &&& m.name@ == "jobs"@
                    &&& m.style == fg_bold(Color::Blue)
                    &&& m.segments@.len() == 2
                    &&& m.segments@[0].value@ == " +"@
                    &&& m.segments@[1].value@ == signed_dec_digits(n as int)
                })
            },
        }
}

/// Creates a segment showing any active jobs.
pub fn module(context: &Context) -> (r: Option<Module>)
    ensures
        jobs_result(context.properties@, r),
{
    proof {
        reveal(jobs_result);
    }
    let mut module = Module::new("jobs");
    module.set_style(Color::Blue.bold());
    let raw: Vec<char> = match context.get_property("jobs") {
        Some(v) => chars_of(v.as_str()),
        None => chars_of("0"),
    };
    let trimmed = trim_chars(&raw);
    let num_of_jobs: i64 = match parse_i64_chars(&trimmed) {
        Some(n) => n,
        None => {
            return None;
        },
    };
    if num_of_jobs == 0 {
        return None;
    }
    module.append_segment_str(" +");
    let digits = i64_to_chars(num_of_jobs);
    let text = string_of(&digits);
    module.append_segment_str(text.as_str());
    Some(module)
}

} // verus!
