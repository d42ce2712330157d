//! The AWS module: the active profile, with its region when one is set and
//! worth showing.

use vstd::prelude::*;

use vstd::string::StringExecFns;

use crate::context::Context;
use crate::module::Module;
use crate::strutil::{str_eq, view_of_opt_ref};
use crate::style::{fg_plain, Color};

verus! {

/// The region fragment shown after the profile: nothing for the default
/// region, else `@` and the region name. The dedicated variable wins over
/// the generic one.
pub open spec fn region_fragment(
    default_region: Option<Seq<char>>,
    region: Option<Seq<char>>,
) -> Seq<char> {
    let chosen = if default_region is Some {
        default_region
    } else {
        region
    };
    match chosen {
        Some(name) => if name == "eu-central-1"@ {
            Seq::<char>::empty()
        } else {
            seq!['@'] + name
        },
        None => Seq::<char>::empty(),
    }
}

/// What the evaluator yields over the environment values: nothing without a
/// profile, else the profile with its region fragment.
#[verifier::opaque]
pub open spec fn aws_result(
    aws_profile: Option<Seq<char>>,
    aws_default_region: Option<Seq<char>>,
    aws_region: Option<Seq<char>>,
    r: Option<Module>,
) -> bool {
    let profile = match aws_profile {
        Some(p) => p,
        None => Seq::<char>::empty(),
    };
    if profile.len() == 0 {
        r is None
    } else {
        ({
            let m = r->0;
            &&& r is Some
            &&& m.style == fg_plain(Color::Yellow)
            &&& m.segments@.len() == 3
            &&& m.segments@[0].value@ == "-<"@
            &&& m.segments@[1].value@ == profile
            &&& m.segments@[2].value@ == region_fragment(aws_default_region, aws_region)
        })
    }
}

/// Creates a module showing the AWS profile and region the environment
/// carries; no profile, no module.
pub fn module(
    _context: &Context,
    aws_profile: Option<&String>,
    aws_default_region: Option<&String>,
    aws_region: Option<&String>,
) -> (r: Option<Module>)
    ensures
        aws_result(
            view_of_opt_ref(aws_profile),
            view_of_opt_ref(aws_default_region),
            view_of_opt_ref(aws_region),
            r,
        ),
{
    proof {
        reveal(aws_result);
        reveal_strlit("");
    }
    let profile: &str = match aws_profile {
        Some(p) => p.as_str(),
        None => "",
    };
    if profile.is_empty() {
        return None;
    }
    let chosen: Option<&String> = match aws_default_region {
        Some(right) => Some(right),
        None => aws_region,
    };
    let fragment: String = match chosen {
        Some(name) => {
            if str_eq(name.as_str(), "eu-central-1") {
                String::new()
            } else {
                let mut s = "@".to_owned();
                s.append(name.as_str());
                proof {
                    reveal_strlit("@");
                    assert(s@ =~= seq!['@'] + name@);
                }
                s
            }
        },
        None => String::new(),
    };
    let mut module = Module::new("");
    module.set_style(Color::Yellow.normal());
    module.append_segment_str("-<");
    module.append_segment_str(profile);
    module.append_segment_str(fragment.as_str());
    Some(module)
}

} // verus!
