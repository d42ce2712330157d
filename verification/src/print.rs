//! The renderer: evaluates the fixed module list against one shared context,
//! folds the surviving modules into a single styled line — first emitted
//! module and the module after a line break lose their prefix — and wraps
//! every escape sequence in zero-width markers so line-editing shells do not
//! miscount the cursor position.

use vstd::prelude::*;

use vstd::string::StringExecFns;

use crate::context::{Context, DirEntry};
use crate::module::{module_blank, module_rendered, Module};
use crate::modules;
use crate::repo::PathData;
use crate::context::{evolves, lemma_evolves_trans};
use crate::strutil::{chars_of, push_char, str_eq, string_of, view_of_opt};

verus! {

/// A module survives to the renderer when some segment has visible text;
/// the designated line-break module always survives, it is what breaks the
/// line.
pub open spec fn module_kept(m: Module) -> bool {
    !module_blank(m) || m.name@ == "line_break"@
}

/// The whole styled line a module sequence renders as: kept modules in
/// order, each with its prefix unless suppressed — `suppress` starts true
/// for the first emitted module and is raised again after a line break.
pub open spec fn render_all(mods: Seq<Module>, suppress: bool) -> Seq<char>
    decreases mods.len(),
{
    if mods.len() == 0 {
        Seq::<char>::empty()
    } else if !module_kept(mods[0]) {
        render_all(mods.drop_first(), suppress)
    } else {
        module_rendered(mods[0], !suppress) + render_all(
            mods.drop_first(),
            mods[0].name@ == "line_break"@,
        )
    }
}

/// One unfolding step of `render_all` along a suffix.
proof fn lemma_render_step(mods: Seq<Module>, i: int, sup: bool)
    requires
        0 <= i < mods.len(),
    ensures
        !module_kept(mods[i]) ==> render_all(mods.skip(i), sup) == render_all(
            mods.skip(i + 1),
            sup,
        ),
        module_kept(mods[i]) ==> render_all(mods.skip(i), sup) == module_rendered(mods[i], !sup)
            + render_all(mods.skip(i + 1), mods[i].name@ == "line_break"@),
{
    assert(mods.skip(i).len() > 0);
    assert(mods.skip(i)[0] == mods[i]);
    assert(mods.skip(i).drop_first() =~= mods.skip(i + 1));
}

/// Fold the ordered evaluated modules into the styled prompt line.
pub fn render_modules(mods: &Vec<Module>) -> (r: String)
    ensures
        r@ == render_all(mods@, true),
{
    let mut out = String::new();
    let mut suppress = true;
    let mut i: usize = 0;
    proof {
        assert(mods@.skip(0) =~= mods@);
    }
    while i < mods.len()
        invariant
            i <= mods@.len(),
            out@ + render_all(mods@.skip(i as int), suppress) == render_all(mods@, true),
        decreases mods@.len() - i,
    {
        proof {
            lemma_render_step(mods@, i as int, suppress);
        }
        let m = &mods[i];
        let is_break = str_eq(m.name.as_str(), "line_break");
        if !m.is_empty() || is_break {
            let piece = m.render(!suppress);
            out.append(piece.as_str());
            suppress = is_break;
        }
        i = i + 1;
    }
    proof {
        assert(mods@.skip(mods@.len() as int) =~= Seq::<Module>::empty());
    }
    out
}

/// The escape-safety rewrite: each escape introducer gets a zero-width-begin
/// marker before it, and the `m` that ends a colour escape gets a
/// zero-width-end marker after it; every other character passes through, and
/// an `m` outside an escape sequence is left alone.
pub open spec fn escape_wrapped_from(s: Seq<char>, escaped: bool) -> Seq<char>
    decreases s.len(),
{
    if s.len() == 0 {
        Seq::<char>::empty()
    } else if s[0] == '\u{1b}' {
        seq!['%', '{', '\u{1b}'] + escape_wrapped_from(s.drop_first(), true)
    } else if s[0] == 'm' && escaped {
        seq!['m', '%', '}'] + escape_wrapped_from(s.drop_first(), false)
    } else {
        seq![s[0]] + escape_wrapped_from(s.drop_first(), escaped)
    }
}

/// The escape-safety rewrite of a whole line, begun outside any escape.
pub open spec fn escape_wrapped(s: Seq<char>) -> Seq<char> {
    escape_wrapped_from(s, false)
}

/// One unfolding step of `escape_wrapped_from` along a suffix.
proof fn lemma_escape_step(s: Seq<char>, i: int, escaped: bool)
    requires
        0 <= i < s.len(),
    ensures
        s[i] == '\u{1b}' ==> escape_wrapped_from(s.skip(i), escaped) == seq!['%', '{', '\u{1b}']
            + escape_wrapped_from(s.skip(i + 1), true),
        s[i] != '\u{1b}' && s[i] == 'm' && escaped ==> escape_wrapped_from(s.skip(i), escaped)
            == seq!['m', '%', '}'] + escape_wrapped_from(s.skip(i + 1), false),
        s[i] != '\u{1b}' && !(s[i] == 'm' && escaped) ==> escape_wrapped_from(s.skip(i), escaped)
            == seq![s[i]] + escape_wrapped_from(s.skip(i + 1), escaped),
{
    assert(s.skip(i).len() > 0);
    assert(s.skip(i)[0] == s[i]);
    assert(s.skip(i).drop_first() =~= s.skip(i + 1));
}

/// Rewrite a styled line so raw escape sequences are wrapped in
/// shell-specific zero-width markers, in one linear pass that keeps every
/// other character as it stands.
pub fn ansi_strings_modified(s: &str) -> (r: String)
    ensures
        r@ == escape_wrapped(s@),
{
    let v = chars_of(s);
    let mut out: Vec<char> = Vec::new();
    let mut escaped = false;
    let mut i: usize = 0;
    proof {
        assert(v@.skip(0) =~= v@);
    }
    while i < v.len()
        invariant
            i <= v@.len(),
            v@ == s@,
            out@ + escape_wrapped_from(v@.skip(i as int), escaped) == escape_wrapped(s@),
        decreases v@.len() - i,
    {
        proof {
            lemma_escape_step(v@, i as int, escaped);
        }
        let c = v[i];
        if c == '\u{1b}' {
            out.push('%');
            out.push('{');
            out.push('\u{1b}');
            escaped = true;
        } else if c == 'm' && escaped {
            out.push('m');
            out.push('%');
            out.push('}');
            escaped = false;
        } else {
            out.push(c);
        }
        i = i + 1;
        proof {
            assert(out@ + escape_wrapped_from(v@.skip(i as int), escaped) =~= escape_wrapped(s@));
        }
    }
    proof {
        assert(v@.skip(v@.len() as int) =~= Seq::<char>::empty());
        assert(out@ =~= escape_wrapped(s@));
    }
    string_of(&out)
}

/// The plain values the prompt's external collaborators supply: environment
/// variables and toolchain version reports, gathered by the caller.
pub struct Collaborators {
    pub aws_profile: Option<String>,
    pub aws_default_region: Option<String>,
    pub aws_region: Option<String>,
    pub eks_cluster: Option<String>,
    pub kube_ns: Option<String>,
    pub plaio_env: Option<String>,
    pub ts_exit_node: Option<String>,
    pub pipenv_active: bool,
    pub virtual_env: Option<String>,
    pub go_version: Option<String>,
    pub python_version: Option<String>,
}

/// What an evaluator's optional result contributes to the module list.
pub open spec fn opt_seq(r: Option<Module>) -> Seq<Module> {
    match r {
        Some(m) => seq![m],
        None => Seq::<Module>::empty(),
    }
}

/// `mods` is the concatenation of the sixteen listed results, each of which
/// satisfies its evaluator's contract over the evolved context and the
/// collaborators, in the fixed static list order.
pub open spec fn prompt_mods_with(
    rs: Seq<Option<Module>>,
    mods: Seq<Module>,
    ctx: Context,
    collab: Collaborators,
) -> bool {
    &&& rs.len() == 16
    &&& ctx.repo is Some
    &&& ctx.scan is Some
    &&& crate::modules::directory::directory_result(ctx.current_dir@, ctx.repo->0, rs[0])
    &&& crate::modules::git_branch::git_branch_result(ctx.repo->0, rs[1])
    &&& crate::modules::git_state::git_state_result(ctx.repo->0, rs[2])
    &&& crate::modules::git_status::git_status_result(ctx.repo->0, rs[3])
    &&& crate::modules::git_track::git_track_result(ctx.repo->0, rs[4])
    &&& crate::modules::rust::rust_result(ctx.scan->0.entries@, rs[5])
    &&& crate::modules::golang::golang_result(
        ctx.scan->0.entries@,
        view_of_opt(collab.go_version),
        rs[6],
    )
    &&& crate::modules::python::python_result(
        ctx.scan->0.entries@,
        collab.pipenv_active,
        view_of_opt(collab.python_version),
        view_of_opt(collab.virtual_env),
        rs[7],
    )
    &&& crate::modules::aws::aws_result(
        view_of_opt(collab.aws_profile),
        view_of_opt(collab.aws_default_region),
        view_of_opt(collab.aws_region),
        rs[8],
    )
    &&& crate::modules::plaio::plaio_result(view_of_opt(collab.plaio_env), rs[9])
    &&& crate::modules::tailscale::tailscale_result(view_of_opt(collab.ts_exit_node), rs[10])
    &&& crate::modules::kube::kube_result(
        view_of_opt(collab.eks_cluster),
        view_of_opt(collab.kube_ns),
        rs[11],
    )
    &&& crate::modules::cmd_duration::cmd_duration_result(ctx.properties@, rs[12])
    &&& crate::modules::line_break::line_break_result(rs[13])
    &&& crate::modules::prompt::prompt_result(ctx.properties@, rs[14])
    &&& crate::modules::jobs::jobs_result(ctx.properties@, rs[15])
    &&& mods == opt_seq(rs[0]) + opt_seq(rs[1]) + opt_seq(rs[2]) + opt_seq(rs[3]) + opt_seq(rs[4])
        + opt_seq(rs[5]) + opt_seq(rs[6]) + opt_seq(rs[7]) + opt_seq(rs[8]) + opt_seq(rs[9])
        + opt_seq(rs[10]) + opt_seq(rs[11]) + opt_seq(rs[12]) + opt_seq(rs[13]) + opt_seq(rs[14])
        + opt_seq(rs[15])
}

/// There is such a sixteen-result decomposition of `mods`.
pub open spec fn prompt_mods(mods: Seq<Module>, ctx: Context, collab: Collaborators) -> bool {
    exists|rs: Seq<Option<Module>>| prompt_mods_with(rs, mods, ctx, collab)
}

/// Sixteen results satisfying their evaluators' contracts, concatenated in
/// the fixed order, are such a decomposition.
proof fn lemma_prompt_mods_intro(
    g0: Option<Module>,
    g1: Option<Module>,
    g2: Option<Module>,
    g3: Option<Module>,
    g4: Option<Module>,
    g5: Option<Module>,
    g6: Option<Module>,
    g7: Option<Module>,
    g8: Option<Module>,
    g9: Option<Module>,
    g10: Option<Module>,
    g11: Option<Module>,
    g12: Option<Module>,
    g13: Option<Module>,
    g14: Option<Module>,
    g15: Option<Module>,
    mods: Seq<Module>,
    ctx: Context,
    collab: Collaborators,
)
    requires
        ctx.repo is Some,
        ctx.scan is Some,
        crate::modules::directory::directory_result(ctx.current_dir@, ctx.repo->0, g0),
        crate::modules::git_branch::git_branch_result(ctx.repo->0, g1),
        crate::modules::git_state::git_state_result(ctx.repo->0, g2),
        crate::modules::git_status::git_status_result(ctx.repo->0, g3),
        crate::modules::git_track::git_track_result(ctx.repo->0, g4),
        crate::modules::rust::rust_result(ctx.scan->0.entries@, g5),
        crate::modules::golang::golang_result(
            ctx.scan->0.entries@,
            view_of_opt(collab.go_version),
            g6,
        ),
        crate::modules::python::python_result(
            ctx.scan->0.entries@,
            collab.pipenv_active,
            view_of_opt(collab.python_version),
            view_of_opt(collab.virtual_env),
            g7,
        ),
        crate::modules::aws::aws_result(
            view_of_opt(collab.aws_profile),
            view_of_opt(collab.aws_default_region),
            view_of_opt(collab.aws_region),
            g8,
        ),
        crate::modules::plaio::plaio_result(view_of_opt(collab.plaio_env), g9),
        crate::modules::tailscale::tailscale_result(view_of_opt(collab.ts_exit_node), g10),
        crate::modules::kube::kube_result(
            view_of_opt(collab.eks_cluster),
            view_of_opt(collab.kube_ns),
            g11,
        ),
        crate::modules::cmd_duration::cmd_duration_result(ctx.properties@, g12),
        crate::modules::line_break::line_break_result(g13),
        crate::modules::prompt::prompt_result(ctx.properties@, g14),
        crate::modules::jobs::jobs_result(ctx.properties@, g15),
        mods == opt_seq(g0) + opt_seq(g1) + opt_seq(g2) + opt_seq(g3) + opt_seq(g4) + opt_seq(g5)
            + opt_seq(g6) + opt_seq(g7) + opt_seq(g8) + opt_seq(g9) + opt_seq(g10) + opt_seq(g11)
            + opt_seq(g12) + opt_seq(g13) + opt_seq(g14) + opt_seq(g15),
    ensures
        prompt_mods(mods, ctx, collab),
{
    let rs: Seq<Option<Module>> = seq![
        g0,
        g1,
        g2,
        g3,
        g4,
        g5,
        g6,
        g7,
        g8,
        g9,
        g10,
        g11,
        g12,
        g13,
        g14,
        g15,
    ];
    assert(prompt_mods_with(rs, mods, ctx, collab));
}

/// Evaluate the five repository-driven evaluators, in order: directory,
/// branch, state, status, divergence. Their results are handed back as a
/// ghost five-tuple whose entries satisfy the evaluators' contracts over the
/// evolved context.
fn evaluate_repo_modules<F2>(
    context: &mut Context,
    probe_path: F2,
    mods: &mut Vec<Module>,
) -> (gs: Ghost<(Option<Module>, Option<Module>, Option<Module>, Option<Module>, Option<Module>)>) where
    F2: Fn(String) -> PathData + Copy,

    requires
        old(context).inv(),
        forall|p: String| call_requires(probe_path, (p,)),
    ensures
        evolves(*old(context), *final(context)),
        final(context).repo is Some,
        crate::modules::directory::directory_result(
            final(context).current_dir@,
            final(context).repo->0,
            gs@.0,
        ),
        crate::modules::git_branch::git_branch_result(final(context).repo->0, gs@.1),
        crate::modules::git_state::git_state_result(final(context).repo->0, gs@.2),
        crate::modules::git_status::git_status_result(final(context).repo->0, gs@.3),
        crate::modules::git_track::git_track_result(final(context).repo->0, gs@.4),
        final(mods)@ == old(mods)@ + opt_seq(gs@.0) + opt_seq(gs@.1) + opt_seq(gs@.2) + opt_seq(
            gs@.3,
        ) + opt_seq(gs@.4),
{
    let ghost m0 = mods@;
    let r_directory = modules::directory::module(context, probe_path);
    let ghost g0 = r_directory;
    let ghost c1 = *context;
    match r_directory {
        Some(m) => mods.push(m),
        None => {},
    }
    proof {
        assert(mods@ =~= m0 + opt_seq(g0));
    }
    let r_git_branch = modules::git_branch::module(context, probe_path);
    let ghost g1 = r_git_branch;
    let ghost c2 = *context;
    match r_git_branch {
        Some(m) => mods.push(m),
        None => {},
    }
    proof {
        assert(mods@ =~= m0 + opt_seq(g0) + opt_seq(g1));
    }
    let r_git_state = modules::git_state::module(context, probe_path);
    let ghost g2 = r_git_state;
    let ghost c3 = *context;
    match r_git_state {
        Some(m) => mods.push(m),
        None => {},
    }
    proof {
        assert(mods@ =~= m0 + opt_seq(g0) + opt_seq(g1) + opt_seq(g2));
    }
    let r_git_status = modules::git_status::module(context, probe_path);
    let ghost g3 = r_git_status;
    let ghost c4 = *context;
    match r_git_status {
        Some(m) => mods.push(m),
        None => {},
    }
    proof {
        assert(mods@ =~= m0 + opt_seq(g0) + opt_seq(g1) + opt_seq(g2) + opt_seq(g3));
    }
    let r_git_track = modules::git_track::module(context, probe_path);
    let ghost g4 = r_git_track;
    let ghost c5 = *context;
    match r_git_track {
        Some(m) => mods.push(m),
        None => {},
    }
    proof {
        assert(mods@ =~= m0 + opt_seq(g0) + opt_seq(g1) + opt_seq(g2) + opt_seq(g3) + opt_seq(g4));
        assert(c2.repo == c1.repo);
        assert(c3.repo == c2.repo);
        assert(c4.repo == c3.repo);
        assert(c5.repo == c4.repo);
    }
    Ghost((g0, g1, g2, g3, g4))
}

/// Evaluate the three listing-driven evaluators, in order: the Rust, Go and
/// Python project markers.
fn evaluate_scan_modules<F1>(
    context: &mut Context,
    read_dir: F1,
    collab: &Collaborators,
    mods: &mut Vec<Module>,
) -> (gs: Ghost<(Option<Module>, Option<Module>, Option<Module>)>) where
    F1: FnOnce() -> Option<Vec<DirEntry>> + Copy,

    requires
        old(context).inv(),
        call_requires(read_dir, ()),
    ensures
        evolves(*old(context), *final(context)),
        final(context).scan is Some,
        crate::modules::rust::rust_result(final(context).scan->0.entries@, gs@.0),
        crate::modules::golang::golang_result(
            final(context).scan->0.entries@,
            view_of_opt(collab.go_version),
            gs@.1,
        ),
        crate::modules::python::python_result(
            final(context).scan->0.entries@,
            collab.pipenv_active,
            view_of_opt(collab.python_version),
            view_of_opt(collab.virtual_env),
            gs@.2,
        ),
        final(mods)@ == old(mods)@ + opt_seq(gs@.0) + opt_seq(gs@.1) + opt_seq(gs@.2),
{
    let ghost m0 = mods@;
    let r_rust = modules::rust::module(context, read_dir);
    let ghost g5 = r_rust;
    let ghost c1 = *context;
    match r_rust {
        Some(m) => mods.push(m),
        None => {},
    }
    proof {
        assert(mods@ =~= m0 + opt_seq(g5));
    }
    let go_version_ref = collab.go_version.as_ref();
    let r_golang = modules::golang::module(context, read_dir, go_version_ref);
    let ghost g6 = r_golang;
    let ghost c2 = *context;
    match r_golang {
        Some(m) => mods.push(m),
        None => {},
    }
    proof {
        assert(mods@ =~= m0 + opt_seq(g5) + opt_seq(g6));
    }
    let python_version_ref = collab.python_version.as_ref();
    let virtual_env_ref = collab.virtual_env.as_ref();
    let r_python = modules::python::module(
        context,
        read_dir,
        collab.pipenv_active,
        python_version_ref,
        virtual_env_ref,
    );
    let ghost g7 = r_python;
    let ghost c3 = *context;
    match r_python {
        Some(m) => mods.push(m),
        None => {},
    }
    proof {
        assert(mods@ =~= m0 + opt_seq(g5) + opt_seq(g6) + opt_seq(g7));
        assert(c2.scan == c1.scan);
        assert(c3.scan == c2.scan);
        crate::strutil::lemma_view_as_ref(collab.go_version, go_version_ref);
        crate::strutil::lemma_view_as_ref(collab.python_version, python_version_ref);
        crate::strutil::lemma_view_as_ref(collab.virtual_env, virtual_env_ref);
    }
    Ghost((g5, g6, g7))
}

/// Evaluate the four evaluators that read only the environment values, in
/// order: AWS, the platform marker, the exit node, the cluster.
fn evaluate_env_modules(context: &Context, collab: &Collaborators, mods: &mut Vec<Module>) -> (gs:
    Ghost<(Option<Module>, Option<Module>, Option<Module>, Option<Module>)>)
    ensures
        crate::modules::aws::aws_result(
            view_of_opt(collab.aws_profile),
            view_of_opt(collab.aws_default_region),
            view_of_opt(collab.aws_region),
            gs@.0,
        ),
        crate::modules::plaio::plaio_result(view_of_opt(collab.plaio_env), gs@.1),
        crate::modules::tailscale::tailscale_result(view_of_opt(collab.ts_exit_node), gs@.2),
        crate::modules::kube::kube_result(
            view_of_opt(collab.eks_cluster),
            view_of_opt(collab.kube_ns),
            gs@.3,
        ),
        final(mods)@ == old(mods)@ + opt_seq(gs@.0) + opt_seq(gs@.1) + opt_seq(gs@.2) + opt_seq(
            gs@.3,
        ),
{
    let ghost m0 = mods@;
    let aws_profile_ref = collab.aws_profile.as_ref();
    let aws_default_region_ref = collab.aws_default_region.as_ref();
    let aws_region_ref = collab.aws_region.as_ref();
    let r_aws = modules::aws::module(
        context,
        aws_profile_ref,
        aws_default_region_ref,
        aws_region_ref,
    );
    let ghost g8 = r_aws;
    match r_aws {
        Some(m) => mods.push(m),
        None => {},
    }
    proof {
        crate::strutil::lemma_view_as_ref(collab.aws_profile, aws_profile_ref);
        crate::strutil::lemma_view_as_ref(collab.aws_default_region, aws_default_region_ref);
        crate::strutil::lemma_view_as_ref(collab.aws_region, aws_region_ref);
        assert(mods@ =~= m0 + opt_seq(g8));
    }
    let plaio_env_ref = collab.plaio_env.as_ref();
    let r_plaio = modules::plaio::module(context, plaio_env_ref);
    let ghost g9 = r_plaio;
    match r_plaio {
        Some(m) => mods.push(m),
        None => {},
    }
    proof {
        crate::strutil::lemma_view_as_ref(collab.plaio_env, plaio_env_ref);
        assert(mods@ =~= m0 + opt_seq(g8) + opt_seq(g9));
    }
    let ts_exit_node_ref = collab.ts_exit_node.as_ref();
    let r_tailscale = modules::tailscale::module(context, ts_exit_node_ref);
    let ghost g10 = r_tailscale;
    match r_tailscale {
        Some(m) => mods.push(m),
        None => {},
    }
    proof {
        crate::strutil::lemma_view_as_ref(collab.ts_exit_node, ts_exit_node_ref);
        assert(mods@ =~= m0 + opt_seq(g8) + opt_seq(g9) + opt_seq(g10));
    }
    let eks_cluster_ref = collab.eks_cluster.as_ref();
    let kube_ns_ref = collab.kube_ns.as_ref();
    let r_kube = modules::kube::module(context, eks_cluster_ref, kube_ns_ref);
    let ghost g11 = r_kube;
    match r_kube {
        Some(m) => mods.push(m),
        None => {},
    }
    proof {
        crate::strutil::lemma_view_as_ref(collab.eks_cluster, eks_cluster_ref);
        crate::strutil::lemma_view_as_ref(collab.kube_ns, kube_ns_ref);
        assert(mods@ =~= m0 + opt_seq(g8) + opt_seq(g9) + opt_seq(g10) + opt_seq(g11));
    }
    Ghost((g8, g9, g10, g11))
}

/// Evaluate the four evaluators that read only the properties, in order:
/// the duration, the line break, the prompt character, the jobs.
fn evaluate_property_modules(context: &Context, mods: &mut Vec<Module>) -> (gs: Ghost<
    (Option<Module>, Option<Module>, Option<Module>, Option<Module>),
>)
    ensures
        crate::modules::cmd_duration::cmd_duration_result(context.properties@, gs@.0),
        crate::modules::line_break::line_break_result(gs@.1),
        crate::modules::prompt::prompt_result(context.properties@, gs@.2),
        crate::modules::jobs::jobs_result(context.properties@, gs@.3),
        final(mods)@ == old(mods)@ + opt_seq(gs@.0) + opt_seq(gs@.1) + opt_seq(gs@.2) + opt_seq(
            gs@.3,
        ),
{
    let ghost m0 = mods@;
    let r_cmd_duration = modules::cmd_duration::module(context);
    let ghost g12 = r_cmd_duration;
    match r_cmd_duration {
        Some(m) => mods.push(m),
        None => {},
    }
    proof {
        assert(mods@ =~= m0 + opt_seq(g12));
    }
    let r_line_break = modules::line_break::module(context);
    let ghost g13 = r_line_break;
    match r_line_break {
        Some(m) => mods.push(m),
        None => {},
    }
    proof {
        assert(mods@ =~= m0 + opt_seq(g12) + opt_seq(g13));
    }
    let r_prompt = modules::prompt::module(context);
    let ghost g14 = r_prompt;
    match r_prompt {
        Some(m) => mods.push(m),
        None => {},
    }
    proof {
        assert(mods@ =~= m0 + opt_seq(g12) + opt_seq(g13) + opt_seq(g14));
    }
    let r_jobs = modules::jobs::module(context);
    let ghost g15 = r_jobs;
    match r_jobs {
        Some(m) => mods.push(m),
        None => {},
    }
    proof {
        assert(mods@ =~= m0 + opt_seq(g12) + opt_seq(g13) + opt_seq(g14) + opt_seq(g15));
    }
    Ghost((g12, g13, g14, g15))
}

/// Evaluate the sixteen evaluators in the fixed list order against the
/// context, handing back the surviving modules and (as a ghost value) the
/// evolved context over which their contracts speak.
#[verifier::rlimit(100)]
fn evaluate_modules<F1, F2>(
    context: Context,
    read_dir: F1,
    probe_path: F2,
    collab: &Collaborators,
) -> (out: (Vec<Module>, Ghost<Context>)) where
    F1: FnOnce() -> Option<Vec<DirEntry>> + Copy,
    F2: Fn(String) -> PathData + Copy,

    requires
        context.inv(),
        call_requires(read_dir, ()),
        forall|p: String| call_requires(probe_path, (p,)),
    ensures
        evolves(context, out.1@),
        prompt_mods(out.0@, out.1@, *collab),
{
    let mut context = context;
    let ghost cin = context;
    let mut mods: Vec<Module> = Vec::new();
    let gs_repo = evaluate_repo_modules(&mut context, probe_path, &mut mods);
    let ghost cg = context;
    let gs_scan = evaluate_scan_modules(&mut context, read_dir, collab, &mut mods);
    let ghost cs = context;
    let gs_env = evaluate_env_modules(&context, collab, &mut mods);
    let gs_prop = evaluate_property_modules(&context, &mut mods);
    proof {
        lemma_evolves_trans(cin, cg, cs);
        // the repository cache, once computed, stayed what it was
        assert(cs.repo == cg.repo);
        assert(cs.current_dir == cg.current_dir);
        assert(cs.properties == cg.properties);
        // the whole list, in the fixed order
        assert(Seq::<Module>::empty() + opt_seq(gs_repo@.0) =~= opt_seq(gs_repo@.0));
        assert(mods@ == opt_seq(gs_repo@.0) + opt_seq(gs_repo@.1) + opt_seq(gs_repo@.2) + opt_seq(
            gs_repo@.3,
        ) + opt_seq(gs_repo@.4) + opt_seq(gs_scan@.0) + opt_seq(gs_scan@.1) + opt_seq(gs_scan@.2)
            + opt_seq(gs_env@.0) + opt_seq(gs_env@.1) + opt_seq(gs_env@.2) + opt_seq(gs_env@.3)
            + opt_seq(gs_prop@.0) + opt_seq(gs_prop@.1) + opt_seq(gs_prop@.2) + opt_seq(
            gs_prop@.3,
        ));
        lemma_prompt_mods_intro(
            gs_repo@.0,
            gs_repo@.1,
            gs_repo@.2,
            gs_repo@.3,
            gs_repo@.4,
            gs_scan@.0,
            gs_scan@.1,
            gs_scan@.2,
            gs_env@.0,
            gs_env@.1,
            gs_env@.2,
            gs_env@.3,
            gs_prop@.0,
            gs_prop@.1,
            gs_prop@.2,
            gs_prop@.3,
            mods@,
            cs,
            *collab,
        );
    }
    (mods, Ghost(cs))
}

/// Evaluate the fixed module list against the context and fold the results
/// into the final prompt: one leading newline, the rendered modules, and the
/// escape-safety rewrite over the whole line. The returned string is the
/// rendering of the sixteen evaluators' results in the fixed list order,
/// over a context that evolved from the given one — each cache computed at
/// most once and never recomputed.
pub fn get_prompt<F1, F2>(
    context: Context,
    read_dir: F1,
    probe_path: F2,
    collab: &Collaborators,
) -> (r: String) where
    F1: FnOnce() -> Option<Vec<DirEntry>> + Copy,
    F2: Fn(String) -> PathData + Copy,

    requires
        context.inv(),
        call_requires(read_dir, ()),
        forall|p: String| call_requires(probe_path, (p,)),
    ensures
        r@.len() >= 1,
        r@[0] == '\n',
        exists|mods: Seq<Module>, ctx2: Context|
            #![trigger prompt_mods(mods, ctx2, *collab)]
            {
                &&& evolves(context, ctx2)
                &&& prompt_mods(mods, ctx2, *collab)
                &&& r@ == escape_wrapped(seq!['\n'] + render_all(mods, true))
            },
{
    let (mods, evolved) = evaluate_modules(context, read_dir, probe_path, collab);
    let rendered = render_modules(&mods);
    let mut buf = String::new();
    push_char(&mut buf, '\n');
    buf.append(rendered.as_str());
    let wrapped = ansi_strings_modified(buf.as_str());
    proof {
        assert(buf@ =~= seq!['\n'] + render_all(mods@, true));
        assert(wrapped@ == escape_wrapped(seq!['\n'] + render_all(mods@, true)));
        assert(buf@[0] == '\n');
        assert(wrapped@[0] == '\n');
    }
    wrapped
}

} // verus!
