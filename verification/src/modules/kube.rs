//! The Kubernetes module: the active cluster and namespace from the
//! environment; blank when no cluster is set.

use vstd::prelude::*;

use vstd::string::StringExecFns;

use crate::context::Context;
use crate::module::Module;
use crate::strutil::view_of_opt_ref;
use crate::style::{fg_plain, Color};

verus! {

/// What the module shows: `>-cluster/namespace`, the namespace part only
/// when set; nothing without a cluster.
pub open spec fn kube_fragment(cluster: Option<Seq<char>>, namespace: Option<Seq<char>>) -> Seq<
    char,
> {
    match cluster {
        Some(c) => ">-"@ + c + (match namespace {
            Some(ns) => seq!['/'] + ns,
            None => Seq::<char>::empty(),
        }),
        None => Seq::<char>::empty(),
    }
}

/// What the evaluator yields over the environment values: always one
/// segment, the cluster fragment or nothing.
#[verifier::opaque]
pub open spec fn kube_result(
    cluster: Option<Seq<char>>,
    namespace: Option<Seq<char>>,
    r: Option<Module>,
) -> bool {
    &&& r is Some
    &&& ({
        let m = r->0;
        &&& m.style == fg_plain(Color::Purple)
        &&& m.segments@.len() == 1
        &&& m.segments@[0].value@ == kube_fragment(cluster, namespace)
    })
}

/// Creates a module showing the cluster and namespace the environment
/// carries; always present, blank when no cluster is set.
pub fn module(_context: &Context, eks_cluster: Option<&String>, kube_ns: Option<&String>) -> (r:
    Option<Module>)
    ensures
        kube_result(view_of_opt_ref(eks_cluster), view_of_opt_ref(kube_ns), r),
{
    proof {
        reveal(kube_result);
    }
    let ghost target: Seq<char> = kube_fragment(
        match eks_cluster {
            Some(c) => Some(c@),
            None => None,
        },
        match kube_ns {
            Some(ns) => Some(ns@),
            None => None,
        },
    );
    let kube: String = match eks_cluster {
        Some(c) => {
            let mut s = ">-".to_owned();
            s.append(c.as_str());
            match kube_ns {
                Some(ns) => {
                    s.append("/");
                    s.append(ns.as_str());
                },
                None => {},
            }
            proof {
                reveal_strlit("/");
                assert(s@ =~= target);
            }
            s
        },
        None => String::new(),
    };
    proof {
        assert(kube@ =~= target);
    }
    let mut module = Module::new("");
    module.set_style(Color::Purple.normal());
    module.append_segment_str(kube.as_str());
    Some(module)
}

} // verus!
