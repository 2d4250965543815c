//! What holds of every lowering, proved from the definitions.

use crate::build_plan::{
    distinct_keys, keeps_link, keeps_output, lemma_filter_keeps_keys, InvocationView,
};
use crate::custom_build::{
    cdylib_link_args, custom_flags, BuildScriptOutputView, LinkArgTargetView,
};
use crate::graph::{link_names, BuildPlanView, Lowering};
use crate::lower::{
    dirs_of, ensure_dir_all_rule_id, lemma_place_of, link_rule_id, place_of, with_path,
};
use crate::ninja::{BuildView, CommandLineView};
use crate::path::{dir_marker, is_dwp, path_eq};
use vstd::prelude::*;

verus! {

/// A path that one of the dependencies hands on is among the paths that all
/// of them hand on, and the other way round.
pub proof fn lemma_paths_of_all(plan: BuildPlanView, deps: Seq<usize>, path: Seq<char>)
    ensures
        plan.paths_of_all(deps).contains(path) <==> exists|t: int|
            0 <= t < deps.len() && (#[trigger] plan.paths_of(deps[t] as int)).contains(path),
    decreases deps.len(),
{
    if deps.len() == 0 {
        assert(!plan.paths_of_all(deps).contains(path));
    } else {
        let before = deps.drop_last();
        let last = plan.paths_of(deps.last() as int);
        lemma_paths_of_all(plan, before, path);
        let all = plan.paths_of_all(before) + last;
        if all.contains(path) {
            let k = choose|k: int| 0 <= k < all.len() && all[k] == path;
            if k < plan.paths_of_all(before).len() {
                assert(plan.paths_of_all(before)[k] == path);
                assert(plan.paths_of_all(before).contains(path));
                let t = choose|t: int|
                    0 <= t < before.len() && (#[trigger] plan.paths_of(before[t] as int)).contains(
                        path,
                    );
                assert(plan.paths_of(deps[t] as int).contains(path));
            } else {
                assert(last[k - plan.paths_of_all(before).len()] == path);
                assert(plan.paths_of(deps[deps.len() - 1] as int).contains(path));
            }
        }
        if exists|t: int|
            0 <= t < deps.len() && (#[trigger] plan.paths_of(deps[t] as int)).contains(path) {
            let t = choose|t: int|
                0 <= t < deps.len() && (#[trigger] plan.paths_of(deps[t] as int)).contains(path);
            if t < before.len() {
                assert(plan.paths_of(before[t] as int).contains(path));
                let k = choose|k: int|
                    0 <= k < plan.paths_of_all(before).len() && plan.paths_of_all(before)[k]
                        == path;
                assert(all[k] == path);
            } else {
                let k = choose|k: int| 0 <= k < last.len() && last[k] == path;
                assert(all[plan.paths_of_all(before).len() + k] == path);
            }
        }
    }
}

/// The graph of a plan is a function of the plan and of what the lowering
/// is given: two lowerings of one plan that are given the same yield the
/// same graph, rule for rule and edge for edge.
pub proof fn lemma_lowering_is_deterministic(plan: BuildPlanView, one: Lowering, other: Lowering)
    requires
        one.primary =~= other.primary,
        one.include_custom_build == other.include_custom_build,
        one.cx == other.cx,
        one.inputs =~= other.inputs,
        one.scripts =~= other.scripts,
    ensures
        plan.graph(one) == plan.graph(other),
{
}

/// A graph holds what it needs. Every primary invocation belongs to the
/// graph, and with an invocation every invocation that it depends on and
/// that may be drawn in.
pub proof fn lemma_graph_is_closed(
    plan: BuildPlanView,
    primary: Seq<bool>,
    include_custom_build: bool,
    i: int,
    j: int,
)
    requires
        plan.wf(),
        0 <= j < plan.invocations.len(),
    ensures
        primary[j] ==> plan.included(primary, include_custom_build, j),
        plan.included(primary, include_custom_build, i) && plan.depends_on(i, j) && plan.allowed(
            j,
            include_custom_build,
        ) ==> plan.included(primary, include_custom_build, j),
{
    if plan.included(primary, include_custom_build, i) && plan.depends_on(i, j) {
        let k = choose|k: int|
            0 <= k < plan.invocations[i].deps.len() && #[trigger] plan.invocations[i].deps[k] == j;
        assert(plan.invocations[i].deps[k] < i);
    }
}

/// Where a graph comes about, so does the graph of every shorter part of
/// the plan.
pub proof fn lemma_parts_are_graphs(plan: BuildPlanView, how: Lowering, k: nat, n: nat)
    requires
        k <= n,
        plan.lowered_upto(how, n) is Ok,
    ensures
        plan.lowered_upto(how, k) is Ok,
    decreases n - k,
{
    if k < n {
        if plan.lowered_upto(how, k) is Err {
            plan.lemma_error_stays(how, k, n);
        }
    }
}

/// The graph of a longer part of the plan holds the edges of the graph of
/// a shorter part.
pub proof fn lemma_edges_stay(
    plan: BuildPlanView,
    how: Lowering,
    k: nat,
    n: nat,
    edge: (Seq<char>, BuildView),
)
    requires
        k <= n,
        plan.lowered_upto(how, n) is Ok,
        plan.lowered_upto(how, k) is Ok,
        plan.lowered_upto(how, k)->Ok_0.builds.contains(edge),
    ensures
        plan.lowered_upto(how, n)->Ok_0.builds.contains(edge),
    decreases n - k,
{
    if k < n {
        lemma_parts_are_graphs(plan, how, (n - 1) as nat, n);
        lemma_edges_stay(plan, how, k, (n - 1) as nat, edge);
        let before = plan.lowered_upto(how, (n - 1) as nat)->Ok_0;
        let at = choose|a: int| 0 <= a < before.builds.len() && before.builds[a] == edge;
        let after = plan.lowered_upto(how, n)->Ok_0;
        assert(after.builds[at] == edge);
    }
}

/// Every edge that an invocation of the graph gives is an edge of the
/// graph.
pub proof fn lemma_fragment_in_graph(
    plan: BuildPlanView,
    how: Lowering,
    i: int,
    edge: (Seq<char>, BuildView),
)
    requires
        0 <= i < plan.invocations.len(),
        plan.included(how.primary, how.include_custom_build, i),
        plan.lowered(how) is Ok,
        plan.fragment(how, i) is Ok,
        plan.fragment(how, i)->Ok_0.builds.contains(edge),
    ensures
        plan.lowered(how)->Ok_0.builds.contains(edge),
{
    let n = plan.invocations.len();
    lemma_parts_are_graphs(plan, how, (i + 1) as nat, n);
    lemma_parts_are_graphs(plan, how, i as nat, n);
    let before = plan.lowered_upto(how, i as nat)->Ok_0;
    let part = plan.fragment(how, i)->Ok_0;
    let with_part = plan.lowered_upto(how, (i + 1) as nat)->Ok_0;
    let at = choose|a: int| 0 <= a < part.builds.len() && part.builds[a] == edge;
    assert(with_part.builds[before.builds.len() + at] == edge);
    lemma_edges_stay(plan, how, (i + 1) as nat, n, edge);
}

/// An invocation of a graph that comes about gives its part of the graph.
pub proof fn lemma_included_gives_part(plan: BuildPlanView, how: Lowering, i: int)
    requires
        0 <= i < plan.invocations.len(),
        plan.included(how.primary, how.include_custom_build, i),
        plan.lowered(how) is Ok,
    ensures
        plan.fragment(how, i) is Ok,
        plan.invocations[i].canonical_outputs() is Ok,
{
    lemma_parts_are_graphs(plan, how, (i + 1) as nat, plan.invocations.len());
    lemma_parts_are_graphs(plan, how, i as nat, plan.invocations.len());
}

/// Whether one of `list` is the path `path`: the same text, or a text that
/// is the same path.
pub open spec fn holds_path(list: Seq<Seq<char>>, path: Seq<char>) -> bool {
    exists|d: Seq<char>| is_path(d, path) && #[trigger] list.contains(d)
}

/// Whether `d` is the path `path`: the same text, or a text that is the same
/// path.
pub open spec fn is_path(d: Seq<char>, path: Seq<char>) -> bool {
    d == path || path_eq(d, path)
}

/// An ordered list with a path put into it holds that path, and all that it
/// held before.
pub proof fn lemma_with_path(list: Seq<Seq<char>>, path: Seq<char>)
    ensures
        holds_path(with_path(list, path), path),
        forall|d: Seq<char>| list.contains(d) ==> #[trigger] with_path(list, path).contains(d),
        with_path(list, path).len() <= list.len() + 1,
{
    lemma_place_of(list, path);
    let at = place_of(list, path) as int;
    let after = with_path(list, path);
    if at < list.len() && path_eq(list[at], path) {
        assert(is_path(list[at], path) && after.contains(list[at]));
    } else {
        assert(after[at] == path);
        assert(is_path(path, path) && after.contains(path));
        assert forall|d: Seq<char>| list.contains(d) implies #[trigger] after.contains(d) by {
            let j = choose|j: int| 0 <= j < list.len() && list[j] == d;
            if j < at {
                assert(after[j] == d);
            } else {
                assert(after[j + 1] == d);
            }
        }
    }
}

/// The marker of the directory of each path is, as a path, among the
/// directory markers of the paths.
pub proof fn lemma_dirs_hold_markers(outputs: Seq<Seq<char>>, k: int)
    requires
        0 <= k < outputs.len(),
        dir_marker(outputs[k]) is Some,
    ensures
        holds_path(dirs_of(outputs), dir_marker(outputs[k])->0),
    decreases outputs.len(),
{
    let before = dirs_of(outputs.drop_last());
    let marker = dir_marker(outputs[k])->0;
    if k == outputs.len() - 1 {
        lemma_with_path(before, marker);
    } else {
        lemma_dirs_hold_markers(outputs.drop_last(), k);
        let d = choose|d: Seq<char>| is_path(d, marker) && #[trigger] before.contains(d);
        if dir_marker(outputs.last()) is Some {
            lemma_with_path(before, dir_marker(outputs.last())->0);
        }
        assert(is_path(d, marker) && dirs_of(outputs).contains(d));
    }
}

/// The edge of an output. For every invocation of a graph and each of its
/// outputs, the graph has an edge that produces the output with the rule of
/// the invocation; the explicit inputs of that edge are what the
/// dependencies of the invocation hand on, in their order; and where the
/// output lies in a directory, the marker of that directory is the implicit
/// input of the edge, and the graph has an edge that produces that path,
/// under the marker's text or another text of the same path, with the
/// directory rule.
pub proof fn lemma_output_edge(plan: BuildPlanView, how: Lowering, i: int, k: int)
    requires
        0 <= i < plan.invocations.len(),
        plan.included(how.primary, how.include_custom_build, i),
        plan.lowered(how) is Ok,
        plan.invocations[i].canonical_outputs() is Ok,
        0 <= k < plan.invocations[i].canonical_outputs()->Ok_0.len(),
    ensures
        ({
            let inv = plan.invocations[i];
            let output = inv.canonical_outputs()->Ok_0[k];
            let edge = (
                output,
                inv.build(i as nat, plan.dep_paths(i), how.cx, how.inputs[i]).implicit_if(
                    dir_marker(output),
                ),
            );
            &&& plan.lowered(how)->Ok_0.builds.contains(edge)
            &&& edge.1.rule == inv.rule_id(i as nat)
            &&& edge.1.explicit == plan.dep_paths(i)
            &&& dir_marker(output) matches Some(marker) ==> edge.1.implicit == seq![marker]
                && exists|d: Seq<char>|
                    is_path(d, marker) && #[trigger] plan.lowered(how)->Ok_0.builds.contains(
                        (d, BuildView::new(ensure_dir_all_rule_id())),
                    )
        }),
{
    lemma_included_gives_part(plan, how, i);
    let inv = plan.invocations[i];
    let outputs = inv.canonical_outputs()->Ok_0;
    let output = outputs[k];
    let build = inv.build(i as nat, plan.dep_paths(i), how.cx, how.inputs[i]);
    let edge = (output, build.implicit_if(dir_marker(output)));
    let part = plan.fragment(how, i)->Ok_0;
    assert(part.builds[k] == edge);
    lemma_fragment_in_graph(plan, how, i, edge);
    if dir_marker(output) is Some {
        let marker = dir_marker(output)->0;
        assert(edge.1.implicit =~= seq![marker]);
        lemma_dirs_hold_markers(outputs, k);
        let dirs = dirs_of(outputs);
        let d = choose|d: Seq<char>| is_path(d, marker) && #[trigger] dirs.contains(d);
        let at = choose|a: int| 0 <= a < dirs.len() && dirs[a] == d;
        let dir_edge = (d, BuildView::new(ensure_dir_all_rule_id()));
        assert(part.builds[outputs.len() + at] == dir_edge);
        lemma_fragment_in_graph(plan, how, i, dir_edge);
        assert(is_path(d, marker) && plan.lowered(how)->Ok_0.builds.contains(dir_edge));
    }
}

/// What an edge needs. A path is an explicit input of the edges of an
/// invocation exactly if one of the invocations that it depends on, which
/// is not the run of a build script, has the path as an output or as the
/// path of a hard link.
pub proof fn lemma_explicit_deps(plan: BuildPlanView, i: int, path: Seq<char>)
    requires
        0 <= i < plan.invocations.len(),
    ensures
        plan.dep_paths(i).contains(path) <==> exists|t: int|
            0 <= t < plan.invocations[i].deps.len() && {
                let dep = #[trigger] plan.invocations[plan.invocations[i].deps[t] as int];
                !dep.is_run_custom_build() && (dep.outputs.filter(keeps_output()).contains(path)
                    || link_names(dep.kept_links()).contains(path))
            },
{
    let deps = plan.invocations[i].deps;
    lemma_paths_of_all(plan, deps, path);
    if plan.dep_paths(i).contains(path) {
        let t = choose|t: int|
            0 <= t < deps.len() && (#[trigger] plan.paths_of(deps[t] as int)).contains(path);
        let dep = plan.invocations[deps[t] as int];
        let paths = plan.paths_of(deps[t] as int);
        let k = choose|k: int| 0 <= k < paths.len() && paths[k] == path;
        let outs = dep.outputs.filter(keeps_output());
        if k < outs.len() {
            assert(outs[k] == path);
        } else {
            assert(link_names(dep.kept_links())[k - outs.len()] == path);
        }
    }
    if exists|t: int|
        0 <= t < deps.len() && {
            let dep = #[trigger] plan.invocations[deps[t] as int];
            !dep.is_run_custom_build() && (dep.outputs.filter(keeps_output()).contains(path)
                || link_names(dep.kept_links()).contains(path))
        } {
        let t = choose|t: int|
            0 <= t < deps.len() && {
                let dep = #[trigger] plan.invocations[deps[t] as int];
                !dep.is_run_custom_build() && (dep.outputs.filter(keeps_output()).contains(path)
                    || link_names(dep.kept_links()).contains(path))
            };
        let dep = plan.invocations[deps[t] as int];
        let outs = dep.outputs.filter(keeps_output());
        let names = link_names(dep.kept_links());
        let paths = plan.paths_of(deps[t] as int);
        if outs.contains(path) {
            let k = choose|k: int| 0 <= k < outs.len() && outs[k] == path;
            assert(paths[k] == path);
        } else {
            let k = choose|k: int| 0 <= k < names.len() && names[k] == path;
            assert(paths[outs.len() + k] == path);
        }
        assert(plan.paths_of(deps[t] as int).contains(path));
    }
}

/// Outputs of a dependency are inputs. Where the invocation at `a` depends
/// on the one at `b`, which is not the run of a build script, every output
/// of `b` is an explicit input of the edges of `a`.
pub proof fn lemma_dependency_outputs_are_inputs(plan: BuildPlanView, a: int, b: int, k: int)
    requires
        0 <= a < plan.invocations.len(),
        plan.depends_on(a, b),
        !plan.invocations[b].is_run_custom_build(),
        0 <= k < plan.invocations[b].canonical_outputs()->Ok_0.len(),
    ensures
        plan.dep_paths(a).contains(plan.invocations[b].canonical_outputs()->Ok_0[k]),
{
    let deps = plan.invocations[a].deps;
    let t = choose|t: int| 0 <= t < deps.len() && #[trigger] deps[t] == b;
    let outs = plan.invocations[b].canonical_outputs()->Ok_0;
    assert(plan.paths_of(deps[t] as int)[k] == outs[k]);
    assert(plan.paths_of(deps[t] as int).contains(outs[k]));
    lemma_paths_of_all(plan, deps, outs[k]);
}

/// The edge of a hard link. For every invocation of a graph and each of its
/// hard links, the graph has an edge that produces the link with the link
/// rule; the one explicit input of that edge is what the link points to.
/// Among the link edges of the invocation no other produces the link,
/// where the hard links of the invocation are a map.
pub proof fn lemma_link_edge(plan: BuildPlanView, how: Lowering, i: int, k: int)
    requires
        0 <= i < plan.invocations.len(),
        plan.included(how.primary, how.include_custom_build, i),
        plan.lowered(how) is Ok,
        0 <= k < plan.invocations[i].kept_links().len(),
    ensures
        ({
            let links = plan.invocations[i].kept_links();
            let edge = (
                links[k].0,
                BuildView::new(link_rule_id()).explicit(links[k].1).implicit_if(
                    dir_marker(links[k].1),
                ),
            );
            let part = plan.fragment(how, i)->Ok_0;
            let first = part.builds.len() - links.len();
            &&& plan.lowered(how)->Ok_0.builds.contains(edge)
            &&& edge.1.rule == link_rule_id()
            &&& edge.1.explicit == seq![links[k].1]
            &&& part.builds[first + k] == edge
            &&& distinct_keys(plan.invocations[i].links) ==> forall|other: int|
                0 <= other < links.len() && other != k ==> (#[trigger] part.builds[first
                    + other]).0 != links[k].0
        }),
{
    lemma_included_gives_part(plan, how, i);
    let inv = plan.invocations[i];
    let links = inv.kept_links();
    let outputs = inv.canonical_outputs()->Ok_0;
    let dirs = dirs_of(outputs);
    let part = plan.fragment(how, i)->Ok_0;
    let edge = (
        links[k].0,
        BuildView::new(link_rule_id()).explicit(links[k].1).implicit_if(dir_marker(links[k].1)),
    );
    assert(part.builds.len() == outputs.len() + dirs.len() + links.len());
    assert(part.builds[outputs.len() + dirs.len() + k] == edge);
    assert(edge.1.explicit =~= seq![links[k].1]);
    lemma_fragment_in_graph(plan, how, i, edge);
    let first = part.builds.len() - links.len();
    if distinct_keys(inv.links) {
        lemma_filter_keeps_keys(inv.links, keeps_link());
        assert forall|other: int| 0 <= other < links.len() && other != k implies (
        #[trigger] part.builds[first + other]).0 != links[k].0 by {
            assert(part.builds[first + other].0 == links[other].0);
            if other < k {
                assert(links[other].0 != links[k].0);
            } else {
                assert(links[k].0 != links[other].0);
            }
        }
    }
}

/// Split debug-info packages stay out. No output of an invocation that is
/// not the run of a build script, and nothing that one of its hard links
/// points to, has the extension `dwp`.
pub proof fn lemma_no_dwp(inv: InvocationView)
    ensures
        !inv.is_run_custom_build() ==> forall|k: int|
            0 <= k < inv.canonical_outputs()->Ok_0.len() ==> !is_dwp(
                #[trigger] inv.canonical_outputs()->Ok_0[k],
            ),
        forall|k: int| 0 <= k < inv.kept_links().len() ==> !is_dwp((#[trigger] inv.kept_links()[k]).1),
{
    if !inv.is_run_custom_build() {
        let outs = inv.outputs.filter(keeps_output());
        assert forall|k: int| 0 <= k < outs.len() implies !is_dwp(#[trigger] outs[k]) by {
            inv.outputs.lemma_filter_pred(keeps_output(), k);
        }
    }
    let links = inv.links.filter(keeps_link());
    assert forall|k: int| 0 <= k < links.len() implies !is_dwp((#[trigger] links[k]).1) by {
        inv.links.lemma_filter_pred(keeps_link(), k);
    }
}

/// Whether `edge` is the edge of an output of the invocation at `i`.
pub open spec fn is_output_edge(
    plan: BuildPlanView,
    how: Lowering,
    i: int,
    edge: (Seq<char>, BuildView),
) -> bool {
    let inv = plan.invocations[i];
    let outputs = inv.canonical_outputs()->Ok_0;
    exists|k: int|
        0 <= k < outputs.len() && edge == (
            #[trigger] outputs[k],
            inv.build(i as nat, plan.dep_paths(i), how.cx, how.inputs[i]).implicit_if(
                dir_marker(outputs[k]),
            ),
        )
}

/// Whether `edge` is the edge of a directory marker of the invocation at
/// `i`.
pub open spec fn is_dir_edge(plan: BuildPlanView, i: int, edge: (Seq<char>, BuildView)) -> bool {
    dirs_of(plan.invocations[i].canonical_outputs()->Ok_0).contains(edge.0) && edge.1
        == BuildView::new(ensure_dir_all_rule_id())
}

/// Whether `edge` is the edge of a hard link of the invocation at `i`.
pub open spec fn is_link_edge(plan: BuildPlanView, i: int, edge: (Seq<char>, BuildView)) -> bool {
    let links = plan.invocations[i].kept_links();
    exists|k: int|
        0 <= k < links.len() && edge == (
            (#[trigger] links[k]).0,
            BuildView::new(link_rule_id()).explicit(links[k].1).implicit_if(dir_marker(links[k].1)),
        )
}

/// Whether `edge` is one of the edges that the invocation at `i` gives to
/// the graph.
pub open spec fn is_edge_of(
    plan: BuildPlanView,
    how: Lowering,
    i: int,
    edge: (Seq<char>, BuildView),
) -> bool {
    &&& 0 <= i < plan.invocations.len()
    &&& plan.included(how.primary, how.include_custom_build, i)
    &&& plan.invocations[i].canonical_outputs() is Ok
    &&& is_output_edge(plan, how, i, edge) || is_dir_edge(plan, i, edge) || is_link_edge(
        plan,
        i,
        edge,
    )
}

/// Every edge of the graph of the first `n` invocations is the edge of an
/// output, of a directory marker or of a hard link of one of them that
/// belongs to the graph.
pub proof fn lemma_edges_of_parts(
    plan: BuildPlanView,
    how: Lowering,
    n: nat,
    edge: (Seq<char>, BuildView),
)
    requires
        n <= plan.invocations.len(),
        plan.lowered_upto(how, n) is Ok,
        plan.lowered_upto(how, n)->Ok_0.builds.contains(edge),
    ensures
        exists|i: int| 0 <= i < n && #[trigger] is_edge_of(plan, how, i, edge),
    decreases n,
{
    if n > 0 {
        let i = (n - 1) as int;
        lemma_parts_are_graphs(plan, how, (n - 1) as nat, n);
        let before = plan.lowered_upto(how, (n - 1) as nat)->Ok_0;
        let after = plan.lowered_upto(how, n)->Ok_0;
        let at = choose|a: int| 0 <= a < after.builds.len() && after.builds[a] == edge;
        if at < before.builds.len() {
            assert(before.builds[at] == edge);
            lemma_edges_of_parts(plan, how, (n - 1) as nat, edge);
            let j = choose|j: int| 0 <= j < n - 1 && #[trigger] is_edge_of(plan, how, j, edge);
            assert(0 <= j < n && is_edge_of(plan, how, j, edge));
        } else {
            let inv = plan.invocations[i];
            let part = plan.fragment(how, i)->Ok_0;
            let outputs = inv.canonical_outputs()->Ok_0;
            let dirs = dirs_of(outputs);
            let links = inv.kept_links();
            let k = at - before.builds.len();
            assert(part.builds[k] == edge);
            if k < outputs.len() {
                assert(edge.0 == outputs[k]);
                assert(is_output_edge(plan, how, i, edge));
            } else if k < outputs.len() + dirs.len() {
                assert(dirs[k - outputs.len()] == edge.0);
                assert(is_dir_edge(plan, i, edge));
            } else {
                assert(edge.0 == links[k - outputs.len() - dirs.len()].0);
                assert(is_link_edge(plan, i, edge));
            }
            assert(is_edge_of(plan, how, i, edge));
        }
    }
}

/// Where every edge comes from. Every edge of a graph is the edge of an
/// output, of a directory marker or of a hard link of an invocation that
/// belongs to the graph. So the graph produces an output of the plan only
/// if the output is no split debug-info package, and places a hard link
/// only to what is none.
pub proof fn lemma_edge_origin(plan: BuildPlanView, how: Lowering, edge: (Seq<char>, BuildView))
    requires
        plan.lowered(how) is Ok,
        plan.lowered(how)->Ok_0.builds.contains(edge),
    ensures
        exists|i: int| #[trigger] is_edge_of(plan, how, i, edge),
        forall|i: int|
            is_output_edge(plan, how, i, edge) && !plan.invocations[i].is_run_custom_build()
                ==> !is_dwp(edge.0),
        forall|i: int| #[trigger]
            is_link_edge(plan, i, edge) ==> edge.1.explicit.len() == 1 && !is_dwp(
                edge.1.explicit[0],
            ),
{
    lemma_edges_of_parts(plan, how, plan.invocations.len(), edge);
    assert forall|i: int|
        is_output_edge(plan, how, i, edge) && !plan.invocations[i].is_run_custom_build()
            implies !is_dwp(edge.0) by {
        lemma_no_dwp(plan.invocations[i]);
    }
    assert forall|i: int| #[trigger] is_link_edge(plan, i, edge) implies edge.1.explicit.len() == 1
        && !is_dwp(edge.1.explicit[0]) by {
        lemma_no_dwp(plan.invocations[i]);
        let links = plan.invocations[i].kept_links();
        let k = choose|k: int|
            0 <= k < links.len() && edge == (
                (#[trigger] links[k]).0,
                BuildView::new(link_rule_id()).explicit(links[k].1).implicit_if(
                    dir_marker(links[k].1),
                ),
            );
        assert(edge.1.explicit =~= seq![links[k].1]);
    }
}

/// Whether the graph has the path of the hard link `link` for that link
/// alone: no invocation of the graph has it as an output or as a directory
/// marker, and every hard link of that path in the graph points to the same
/// file.
pub open spec fn link_stands_alone(
    plan: BuildPlanView,
    how: Lowering,
    link: (Seq<char>, Seq<char>),
) -> bool {
    forall|j: int|
        0 <= j < plan.invocations.len() && #[trigger] plan.included(
            how.primary,
            how.include_custom_build,
            j,
        ) ==> {
            let inv = plan.invocations[j];
            let outputs = inv.canonical_outputs()->Ok_0;
            &&& !outputs.contains(link.0)
            &&& !dirs_of(outputs).contains(link.0)
            &&& forall|k: int|
                0 <= k < inv.kept_links().len() && (#[trigger] inv.kept_links()[k]).0 == link.0
                    ==> inv.kept_links()[k].1 == link.1
        }
}

/// One edge for a hard link. Where the graph has the path of a hard link
/// for that link alone, every edge of the graph that produces the path is
/// the edge of the link: it runs the link rule, and its one explicit input
/// is what the link points to.
pub proof fn lemma_link_has_one_edge(
    plan: BuildPlanView,
    how: Lowering,
    link: (Seq<char>, Seq<char>),
    edge: (Seq<char>, BuildView),
)
    requires
        plan.lowered(how) is Ok,
        link_stands_alone(plan, how, link),
        plan.lowered(how)->Ok_0.builds.contains(edge),
        edge.0 == link.0,
    ensures
        edge.1 == BuildView::new(link_rule_id()).explicit(link.1).implicit_if(dir_marker(link.1)),
        edge.1.rule == link_rule_id(),
        edge.1.explicit == seq![link.1],
{
    lemma_edges_of_parts(plan, how, plan.invocations.len(), edge);
    let i = choose|i: int|
        0 <= i < plan.invocations.len() && #[trigger] is_edge_of(plan, how, i, edge);
    let inv = plan.invocations[i];
    let outputs = inv.canonical_outputs()->Ok_0;
    assert(plan.included(how.primary, how.include_custom_build, i));
    if is_output_edge(plan, how, i, edge) {
        let k = choose|k: int|
            0 <= k < outputs.len() && edge == (
                #[trigger] outputs[k],
                inv.build(i as nat, plan.dep_paths(i), how.cx, how.inputs[i]).implicit_if(
                    dir_marker(outputs[k]),
                ),
            );
        assert(outputs[k] == link.0);
        assert(outputs.contains(link.0));
    }
    let links = inv.kept_links();
    let k = choose|k: int|
        0 <= k < links.len() && edge == (
            (#[trigger] links[k]).0,
            BuildView::new(link_rule_id()).explicit(links[k].1).implicit_if(dir_marker(links[k].1)),
        );
    assert(links[k].0 == link.0);
    assert(links[k].1 == link.1);
    assert(edge.1.explicit =~= seq![link.1]);
}

/// Whether the script outputs `scripts` are those of `how` wherever the
/// lowering `how` reads one.
pub open spec fn same_scripts_read(
    plan: BuildPlanView,
    how: Lowering,
    scripts: Seq<Option<BuildScriptOutputView>>,
) -> bool {
    &&& scripts.len() == how.scripts.len()
    &&& forall|r: int|
        0 <= r < plan.invocations.len() && #[trigger] plan.reads_script(
            how.primary,
            how.include_custom_build,
            r,
        ) ==> scripts[r] == how.scripts[r]
}

/// The run of a build script whose output goes to an invocation is one of
/// the invocations that it depends on.
proof fn lemma_script_dep_is_dep(plan: BuildPlanView, deps: Seq<usize>)
    ensures
        plan.script_dep(deps) matches Some(r) ==> exists|t: int|
            0 <= t < deps.len() && #[trigger] deps[t] == r,
    decreases deps.len(),
{
    if deps.len() > 0 {
        if plan.invocations[deps.last() as int].is_run_custom_build() {
            assert(deps[deps.len() - 1] == deps.last());
        } else {
            lemma_script_dep_is_dep(plan, deps.drop_last());
            if plan.script_dep(deps) is Some {
                let r = plan.script_dep(deps)->0;
                let t = choose|t: int|
                    0 <= t < deps.drop_last().len() && #[trigger] deps.drop_last()[t] == r;
                assert(deps[t] == r);
            }
        }
    }
}

/// The graph of the first `n` invocations is the same for script outputs
/// that differ only where none is read.
proof fn lemma_scripts_read_upto(
    plan: BuildPlanView,
    how: Lowering,
    scripts: Seq<Option<BuildScriptOutputView>>,
    n: nat,
)
    requires
        plan.wf(),
        same_scripts_read(plan, how, scripts),
        n <= plan.invocations.len(),
    ensures
        plan.lowered_upto(Lowering { scripts, ..how }, n) == plan.lowered_upto(how, n),
    decreases n,
{
    if n > 0 {
        lemma_scripts_read_upto(plan, how, scripts, (n - 1) as nat);
        let i = n - 1;
        let other = Lowering { scripts, ..how };
        if plan.included(how.primary, how.include_custom_build, i) {
            let deps = plan.invocations[i].deps;
            lemma_script_dep_is_dep(plan, deps);
            if plan.script_dep(deps) is Some {
                let r = plan.script_dep(deps)->0;
                let t = choose|t: int| 0 <= t < deps.len() && #[trigger] deps[t] == r;
                assert(plan.invocations[i].deps[t] < i);
                assert(plan.reads_script_upto(
                    how.primary,
                    how.include_custom_build,
                    r,
                    plan.invocations.len() as int,
                ));
                assert(plan.reads_script(how.primary, how.include_custom_build, r));
                assert(scripts[r] == how.scripts[r]);
            }
            assert(plan.script_of(deps, scripts) == plan.script_of(deps, how.scripts));
            assert(plan.fragment(other, i) == plan.fragment(how, i));
        }
    }
}

/// Only the script outputs that are read count. Two lowerings of a plan
/// that differ only in script outputs that the lowering does not read give
/// the same graph, or the same error.
pub proof fn lemma_unread_scripts_do_not_count(
    plan: BuildPlanView,
    how: Lowering,
    scripts: Seq<Option<BuildScriptOutputView>>,
)
    requires
        same_scripts_read(plan, how, scripts),
    ensures
        plan.graph(Lowering { scripts, ..how }) == plan.graph(how),
{
    if plan.fits(how) {
        lemma_scripts_read_upto(plan, how, scripts, plan.invocations.len());
    }
}

/// How many of the edges `builds` produce `output`.
pub open spec fn producers(builds: Seq<(Seq<char>, BuildView)>, output: Seq<char>) -> nat
    decreases builds.len(),
{
    if builds.len() == 0 {
        0
    } else {
        let before = producers(builds.drop_last(), output);
        if builds.last().0 == output {
            before + 1
        } else {
            before
        }
    }
}

/// The producers among two lists of edges are those of the one and those of
/// the other.
pub proof fn lemma_producers_add(
    a: Seq<(Seq<char>, BuildView)>,
    b: Seq<(Seq<char>, BuildView)>,
    output: Seq<char>,
)
    ensures
        producers(a + b, output) == producers(a, output) + producers(b, output),
    decreases b.len(),
{
    if b.len() == 0 {
        assert(a + b =~= a);
    } else {
        assert((a + b).drop_last() =~= a + b.drop_last());
        assert((a + b).last() == b.last());
        lemma_producers_add(a, b.drop_last(), output);
    }
}

/// Edges that all produce something else hold no producer.
pub proof fn lemma_producers_none(builds: Seq<(Seq<char>, BuildView)>, output: Seq<char>)
    requires
        forall|j: int| 0 <= j < builds.len() ==> (#[trigger] builds[j]).0 != output,
    ensures
        producers(builds, output) == 0,
    decreases builds.len(),
{
    if builds.len() > 0 {
        let before = builds.drop_last();
        assert forall|j: int| 0 <= j < before.len() implies (#[trigger] before[j]).0 != output by {
            assert(before[j] == builds[j]);
        }
        lemma_producers_none(before, output);
        assert(builds.last() == builds[builds.len() - 1]);
    }
}

/// Edges of which the one at `at` produces `output`, and no other, hold
/// one producer.
pub proof fn lemma_producers_one(
    builds: Seq<(Seq<char>, BuildView)>,
    output: Seq<char>,
    at: int,
)
    requires
        0 <= at < builds.len(),
        builds[at].0 == output,
        forall|j: int| 0 <= j < builds.len() && j != at ==> (#[trigger] builds[j]).0 != output,
    ensures
        producers(builds, output) == 1,
{
    let head = builds.take(at);
    let one = seq![builds[at]];
    let tail = builds.skip(at + 1);
    assert(builds =~= head + one + tail);
    lemma_producers_add(head + one, tail, output);
    lemma_producers_add(head, one, output);
    assert forall|j: int| 0 <= j < head.len() implies (#[trigger] head[j]).0 != output by {
        assert(head[j] == builds[j]);
    }
    lemma_producers_none(head, output);
    assert forall|j: int| 0 <= j < tail.len() implies (#[trigger] tail[j]).0 != output by {
        assert(tail[j] == builds[at + 1 + j]);
    }
    lemma_producers_none(tail, output);
    assert(one.drop_last() =~= Seq::empty());
    assert(producers(one.drop_last(), output) == 0);
    assert(one.last() == builds[at]);
}

/// Whether the path of the hard link at `k` of the invocation at `i` is in
/// the graph for that link alone: the hard links of the invocation are a
/// map, no invocation of the graph has the path as an output or as a
/// directory marker, and no other invocation of the graph has it as a hard
/// link.
pub open spec fn link_is_single(plan: BuildPlanView, how: Lowering, i: int, k: int) -> bool {
    let link = plan.invocations[i].kept_links()[k].0;
    &&& distinct_keys(plan.invocations[i].links)
    &&& forall|j: int|
        0 <= j < plan.invocations.len() && #[trigger] plan.included(
            how.primary,
            how.include_custom_build,
            j,
        ) ==> {
            let inv = plan.invocations[j];
            let outputs = inv.canonical_outputs()->Ok_0;
            &&& !outputs.contains(link)
            &&& !dirs_of(outputs).contains(link)
            &&& j != i ==> !link_names(inv.kept_links()).contains(link)
        }
}

/// The part of the invocation at `j` holds one producer of such a link
/// where it is the invocation of the link, and none where it is another.
proof fn lemma_part_producers(plan: BuildPlanView, how: Lowering, i: int, k: int, j: int)
    requires
        0 <= i < plan.invocations.len(),
        0 <= k < plan.invocations[i].kept_links().len(),
        link_is_single(plan, how, i, k),
        0 <= j < plan.invocations.len(),
        plan.included(how.primary, how.include_custom_build, j),
        plan.fragment(how, j) is Ok,
    ensures
        producers(plan.fragment(how, j)->Ok_0.builds, plan.invocations[i].kept_links()[k].0) == (
        if j == i {
            1nat
        } else {
            0nat
        }),
{
    let link = plan.invocations[i].kept_links()[k].0;
    let inv = plan.invocations[j];
    let outputs = inv.canonical_outputs()->Ok_0;
    let dirs = dirs_of(outputs);
    let links = inv.kept_links();
    let builds = plan.fragment(how, j)->Ok_0.builds;
    let first = outputs.len() + dirs.len();
    assert(builds.len() == first + links.len());
    if j == i {
        lemma_filter_keeps_keys(inv.links, keeps_link());
    }
    assert forall|at: int| 0 <= at < builds.len() && !(j == i && at == first + k) implies (
    #[trigger] builds[at]).0 != link by {
        if at < outputs.len() {
            assert(builds[at].0 == outputs[at]);
            assert(outputs.contains(outputs[at]));
        } else if at < first {
            assert(builds[at].0 == dirs[at - outputs.len()]);
            assert(dirs.contains(dirs[at - outputs.len()]));
        } else {
            let t = at - first;
            assert(builds[at].0 == links[t].0);
            if j == i {
                if t < k {
                    assert(links[t].0 != links[k].0);
                } else {
                    assert(links[k].0 != links[t].0);
                }
            } else {
                assert(link_names(links)[t] == links[t].0);
                assert(link_names(links).contains(links[t].0));
            }
        }
    }
    if j == i {
        assert(builds[first + k].0 == link);
        lemma_producers_one(builds, link, first + k);
    } else {
        lemma_producers_none(builds, link);
    }
}

/// The graph of the first `n` invocations holds one producer of such a link
/// where the invocation of the link is among them, and none before.
proof fn lemma_producers_upto(plan: BuildPlanView, how: Lowering, i: int, k: int, n: nat)
    requires
        0 <= i < plan.invocations.len(),
        plan.included(how.primary, how.include_custom_build, i),
        0 <= k < plan.invocations[i].kept_links().len(),
        link_is_single(plan, how, i, k),
        n <= plan.invocations.len(),
        plan.lowered_upto(how, n) is Ok,
    ensures
        producers(plan.lowered_upto(how, n)->Ok_0.builds, plan.invocations[i].kept_links()[k].0)
            == (if n > i {
            1nat
        } else {
            0nat
        }),
    decreases n,
{
    let link = plan.invocations[i].kept_links()[k].0;
    if n > 0 {
        let before = plan.lowered_upto(how, (n - 1) as nat)->Ok_0;
        lemma_producers_upto(plan, how, i, k, (n - 1) as nat);
        if plan.included(how.primary, how.include_custom_build, n - 1) {
            let part = plan.fragment(how, n - 1)->Ok_0;
            lemma_part_producers(plan, how, i, k, n - 1);
            lemma_producers_add(before.builds, part.builds, link);
        }
    }
}

/// One edge for each hard link. Where the path of a hard link is in the
/// graph for that link alone, exactly one edge of the graph produces it.
pub proof fn lemma_link_has_one_producer(plan: BuildPlanView, how: Lowering, i: int, k: int)
    requires
        0 <= i < plan.invocations.len(),
        plan.included(how.primary, how.include_custom_build, i),
        plan.lowered(how) is Ok,
        0 <= k < plan.invocations[i].kept_links().len(),
        link_is_single(plan, how, i, k),
    ensures
        producers(plan.lowered(how)->Ok_0.builds, plan.invocations[i].kept_links()[k].0) == 1,
{
    lemma_producers_upto(plan, how, i, k, plan.invocations.len());
}

/// Libraries to link are for libraries. For an invocation that builds no
/// library, what the output of a build script adds to its command does not
/// depend on the libraries that the script names: no `-l` argument comes
/// from them.
pub proof fn lemma_links_only_for_libraries(
    cmd: CommandLineView,
    output: BuildScriptOutputView,
    package_name: Seq<char>,
    target: InvocationView,
)
    requires
        !target.is_lib(),
    ensures
        custom_flags(cmd, Some(output), package_name, target) == custom_flags(
            cmd,
            Some(BuildScriptOutputView { library_links: Seq::empty(), ..output }),
            package_name,
            target,
        ),
{
}

/// Linker arguments reach dynamic system libraries only. For an invocation
/// that builds none, the linker arguments of a build script add nothing to
/// its command.
pub proof fn lemma_link_args_only_for_cdylibs(
    args: Seq<(LinkArgTargetView, Seq<char>)>,
    target: InvocationView,
)
    requires
        !LinkArgTargetView::Cdylib.applies_to(target),
    ensures
        cdylib_link_args(args, target) == Seq::<Seq<char>>::empty(),
    decreases args.len(),
{
    if args.len() > 0 {
        lemma_link_args_only_for_cdylibs(args.drop_last(), target);
    }
}

} // verus!
