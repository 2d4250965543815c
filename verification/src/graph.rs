//! The lowering of a build plan into a build graph.

use crate::build_plan::{
    keeps_output, without_dwp, Context, ContextView, Invocation, InvocationView,
};
use crate::custom_build::{BuildScriptOutput, BuildScriptOutputView};
use crate::error::{Error, ErrorKind, ErrorView};
use crate::ninja::{NinjaFile, NinjaFileView};
use crate::path::opt_text;
use crate::rustc_config::source_file;
use crate::text::{push_texts, text_pairs, texts};
use vstd::prelude::*;

verus! {

/// The invocations of `v` as mathematical values, in order.
pub open spec fn invocations(v: Seq<Invocation>) -> Seq<InvocationView> {
    Seq::new(v.len(), |i: int| v[i]@)
}

/// A build plan: the invocations of a build, each of which depends only on
/// invocations before it, and the manifests that the plan was made from.
#[derive(Clone, Debug)]
pub struct BuildPlan {
    /// The invocations of the build.
    pub invocations: Vec<Invocation>,
    /// The manifests involved in the build.
    pub inputs: Vec<String>,
}

/// A build plan as a mathematical value.
pub struct BuildPlanView {
    pub invocations: Seq<InvocationView>,
    pub inputs: Seq<Seq<char>>,
}

impl View for BuildPlan {
    type V = BuildPlanView;

    open spec fn view(&self) -> BuildPlanView {
        BuildPlanView { invocations: invocations(self.invocations@), inputs: texts(self.inputs@) }
    }
}

/// The paths of the links `links`, without what they point to.
pub open spec fn link_names(links: Seq<(Seq<char>, Seq<char>)>) -> Seq<Seq<char>> {
    Seq::new(links.len(), |i: int| links[i].0)
}

impl BuildPlanView {
    /// Whether every invocation depends only on invocations before it.
    pub open spec fn wf(self) -> bool {
        forall|i: int, k: int|
            0 <= i < self.invocations.len() && 0 <= k < self.invocations[i].deps.len()
                ==> #[trigger] self.invocations[i].deps[k] < i
    }

    /// Whether the invocation at `j` may be drawn into a graph as a
    /// dependency: without `include_custom_build`, the build and the run of
    /// a build script may not.
    pub open spec fn allowed(self, j: int, include_custom_build: bool) -> bool {
        include_custom_build || !(self.invocations[j].is_run_custom_build()
            || self.invocations[j].is_custom_build())
    }

    /// Whether the invocation at `j` is among the first `t` dependencies of
    /// the one at `i`.
    pub open spec fn depends_within(self, i: int, t: int, j: int) -> bool {
        exists|k: int| 0 <= k < t && #[trigger] self.invocations[i].deps[k] == j
    }

    /// Whether the invocation at `i` depends on the one at `j`.
    pub open spec fn depends_on(self, i: int, j: int) -> bool {
        0 <= i < self.invocations.len() && self.depends_within(
            i,
            self.invocations[i].deps.len() as int,
            j,
        )
    }

    /// Whether the invocation at `j` belongs to the graph for the primary
    /// invocations `primary`: it is primary, or it may be drawn in and an
    /// invocation of the graph depends on it.
    pub open spec fn included(self, primary: Seq<bool>, include_custom_build: bool, j: int) -> bool
        decreases self.invocations.len() - j,
    {
        0 <= j < self.invocations.len() && (primary[j] || (self.allowed(j, include_custom_build)
            && exists|i: int|
            j < i < self.invocations.len() && #[trigger] self.depends_on(i, j) && self.included(
                primary,
                include_custom_build,
                i,
            )))
    }

    /// What the invocation at `d` hands to the invocations that depend on
    /// it: its outputs and the paths of its hard links. The run of a build
    /// script hands on no path.
    pub open spec fn paths_of(self, d: int) -> Seq<Seq<char>> {
        let inv = self.invocations[d];
        if inv.is_run_custom_build() {
            Seq::empty()
        } else {
            inv.outputs.filter(keeps_output()) + link_names(inv.kept_links())
        }
    }

    /// What the invocations at `deps` hand on, in the order of `deps`.
    pub open spec fn paths_of_all(self, deps: Seq<usize>) -> Seq<Seq<char>>
        decreases deps.len(),
    {
        if deps.len() == 0 {
            Seq::empty()
        } else {
            self.paths_of_all(deps.drop_last()) + self.paths_of(deps.last() as int)
        }
    }

    /// The explicit inputs of the invocation at `i`: what the invocations
    /// that it depends on hand on.
    pub open spec fn dep_paths(self, i: int) -> Seq<Seq<char>> {
        self.paths_of_all(self.invocations[i].deps)
    }

    /// The run of a build script whose output goes to an invocation that
    /// depends on `deps`: the last one among them.
    pub open spec fn script_dep(self, deps: Seq<usize>) -> Option<int>
        decreases deps.len(),
    {
        if deps.len() == 0 {
            None
        } else if self.invocations[deps.last() as int].is_run_custom_build() {
            Some(deps.last() as int)
        } else {
            self.script_dep(deps.drop_last())
        }
    }

    /// The script output for an invocation that depends on `deps`: that of
    /// the last run of a build script among them.
    pub open spec fn script_of(
        self,
        deps: Seq<usize>,
        scripts: Seq<Option<BuildScriptOutputView>>,
    ) -> Option<BuildScriptOutputView> {
        match self.script_dep(deps) {
            Some(d) => scripts[d],
            None => None,
        }
    }
}

/// What a lowering is given besides the plan.
pub struct Lowering {
    /// For each invocation, whether it is primary.
    pub primary: Seq<bool>,
    /// Whether builds and runs of build scripts are drawn in as
    /// dependencies.
    pub include_custom_build: bool,
    pub cx: ContextView,
    /// For each invocation, its source file.
    pub inputs: Seq<Option<Seq<char>>>,
    /// For each run of a build script, the parsed output of the script.
    pub scripts: Seq<Option<BuildScriptOutputView>>,
}

impl BuildPlanView {
    /// The part of the graph that the invocation at `i` gives.
    pub open spec fn fragment(self, how: Lowering, i: int) -> Result<NinjaFileView, ErrorView> {
        self.invocations[i].fragment(
            i as nat,
            self.dep_paths(i),
            self.script_of(self.invocations[i].deps, how.scripts),
            how.cx,
            how.inputs[i],
        )
    }

    /// The graph of the first `n` invocations: the parts of those that
    /// belong to the graph, in the order of the plan, or the first error.
    pub open spec fn lowered_upto(self, how: Lowering, n: nat) -> Result<NinjaFileView, ErrorView>
        decreases n,
    {
        if n == 0 {
            Ok(NinjaFileView::empty())
        } else {
            match self.lowered_upto(how, (n - 1) as nat) {
                Ok(file) => if self.included(how.primary, how.include_custom_build, n - 1) {
                    match self.fragment(how, n - 1) {
                        Ok(part) => Ok(file.merge(part)),
                        Err(e) => Err(e),
                    }
                } else {
                    Ok(file)
                },
                Err(e) => Err(e),
            }
        }
    }

    /// The graph of the plan.
    pub open spec fn lowered(self, how: Lowering) -> Result<NinjaFileView, ErrorView> {
        self.lowered_upto(how, self.invocations.len())
    }
}

impl BuildPlanView {
    /// Whether `marks` holds, for each invocation before the one at `i`,
    /// what `before` holds, and in addition marks those that may be drawn
    /// in and are among the first `t` dependencies of the invocation at `i`.
    pub open spec fn marked(
        self,
        marks: Seq<bool>,
        before: Seq<bool>,
        include_custom_build: bool,
        i: int,
        t: int,
    ) -> bool {
        forall|j: int|
            0 <= j < i ==> #[trigger] marks[j] == (before[j] || (self.allowed(
                j,
                include_custom_build,
            ) && self.depends_within(i, t, j)))
    }

    /// Whether an invocation of the graph at `lo` or after it depends on
    /// the invocation at `j`.
    pub open spec fn reached_from(
        self,
        primary: Seq<bool>,
        include_custom_build: bool,
        lo: int,
        j: int,
    ) -> bool {
        exists|i: int|
            lo <= i < self.invocations.len() && #[trigger] self.depends_on(i, j) && self.included(
                primary,
                include_custom_build,
                i,
            )
    }

    /// An invocation belongs to the graph if it is primary, or may be drawn
    /// in and is reached from a later invocation of the graph.
    pub proof fn lemma_included(self, primary: Seq<bool>, include_custom_build: bool, j: int)
        requires
            0 <= j < self.invocations.len(),
        ensures
            self.included(primary, include_custom_build, j) == (primary[j] || (self.allowed(
                j,
                include_custom_build,
            ) && self.reached_from(primary, include_custom_build, j + 1, j))),
    {
        if self.reached_from(primary, include_custom_build, j + 1, j) {
            let i = choose|i: int|
                j + 1 <= i < self.invocations.len() && #[trigger] self.depends_on(i, j)
                    && self.included(primary, include_custom_build, i);
            assert(j < i < self.invocations.len() && self.depends_on(i, j) && self.included(
                primary,
                include_custom_build,
                i,
            ));
        }
    }

    /// What reaches the invocation at `j` from `lo` on is what reaches it
    /// from `lo + 1` on and, if it belongs to the graph, the invocation at
    /// `lo`.
    pub proof fn lemma_reached_step(
        self,
        primary: Seq<bool>,
        include_custom_build: bool,
        lo: int,
        j: int,
    )
        requires
            0 <= lo < self.invocations.len(),
        ensures
            self.reached_from(primary, include_custom_build, lo, j) == (self.reached_from(
                primary,
                include_custom_build,
                lo + 1,
                j,
            ) || (self.depends_on(lo, j) && self.included(primary, include_custom_build, lo))),
    {
        if self.reached_from(primary, include_custom_build, lo, j) {
            let i = choose|i: int|
                lo <= i < self.invocations.len() && #[trigger] self.depends_on(i, j)
                    && self.included(primary, include_custom_build, i);
            if i != lo {
                assert(lo + 1 <= i < self.invocations.len() && self.depends_on(i, j));
            }
        }
        if self.reached_from(primary, include_custom_build, lo + 1, j) {
            let i = choose|i: int|
                lo + 1 <= i < self.invocations.len() && #[trigger] self.depends_on(i, j)
                    && self.included(primary, include_custom_build, i);
            assert(lo <= i < self.invocations.len() && self.depends_on(i, j));
        }
    }
}

impl BuildPlan {
    /// Whether every invocation depends only on invocations before it.
    pub fn is_well_formed(&self) -> (b: bool)
        ensures
            b == self@.wf(),
    {
        let mut i: usize = 0;
        while i < self.invocations.len()
            invariant
                i <= self.invocations.len(),
                forall|a: int, k: int|
                    0 <= a < i && 0 <= k < self@.invocations[a].deps.len()
                        ==> #[trigger] self@.invocations[a].deps[k] < a,
            decreases self.invocations.len() - i,
        {
            let deps = &self.invocations[i].deps;
            let mut k: usize = 0;
            while k < deps.len()
                invariant
                    k <= deps.len(),
                    i < self.invocations.len(),
                    deps@ == self@.invocations[i as int].deps,
                    forall|t: int| 0 <= t < k ==> #[trigger] deps[t] < i,
                decreases deps.len() - k,
            {
                if deps[k] >= i {
                    assert(!(self@.invocations[i as int].deps[k as int] < i));
                    return false;
                }
                k = k + 1;
            }
            i = i + 1;
        }
        true
    }

    /// Whether the invocation at `j` may be drawn into a graph as a
    /// dependency.
    fn allowed(&self, j: usize, include_custom_build: bool) -> (b: bool)
        requires
            j < self.invocations.len(),
        ensures
            b == self@.allowed(j as int, include_custom_build),
    {
        include_custom_build || !(self.invocations[j].is_run_custom_build()
            || self.invocations[j].is_custom_build())
    }

    /// For each invocation, whether it belongs to the graph for the primary
    /// invocations `primary`.
    pub fn included(&self, primary: &Vec<bool>, include_custom_build: bool) -> (marks: Vec<bool>)
        requires
            self@.wf(),
            primary.len() == self.invocations.len(),
        ensures
            marks.len() == self.invocations.len(),
            forall|j: int|
                0 <= j < marks.len() ==> marks[j] == self@.included(
                    primary@,
                    include_custom_build,
                    j,
                ),
    {
        let n = self.invocations.len();
        let ghost plan = self@;
        let mut marks: Vec<bool> = Vec::new();
        let mut c: usize = 0;
        while c < n
            invariant
                c <= n,
                n == primary.len(),
                marks.len() == c,
                forall|j: int| 0 <= j < c ==> marks[j] == primary[j],
            decreases n - c,
        {
            marks.push(primary[c]);
            c = c + 1;
        }
        let mut i: usize = n;
        while i > 0
            invariant
                i <= n,
                n == self.invocations.len(),
                n == primary.len(),
                plan == self@,
                plan.wf(),
                marks.len() == n,
                forall|j: int|
                    i <= j < n ==> marks[j] == #[trigger] plan.included(
                        primary@,
                        include_custom_build,
                        j,
                    ),
                forall|j: int|
                    0 <= j < i ==> marks[j] == (primary[j] || (plan.allowed(j, include_custom_build)
                        && plan.reached_from(primary@, include_custom_build, i as int, j))),
            decreases i,
        {
            let idx = i - 1;
            proof {
                plan.lemma_included(primary@, include_custom_build, idx as int);
            }
            let deps = &self.invocations[idx].deps;
            let ghost before = marks@;
            let mut t: usize = 0;
            if marks[idx] {
                while t < deps.len()
                    invariant
                        t <= deps.len(),
                        idx < n,
                        n == self.invocations.len(),
                        plan == self@,
                        plan.wf(),
                        marks.len() == n,
                        before.len() == n,
                        deps@ == plan.invocations[idx as int].deps,
                        forall|j: int| idx <= j < n ==> marks[j] == #[trigger] before[j],
                        plan.marked(marks@, before, include_custom_build, idx as int, t as int),
                    decreases deps.len() - t,
                {
                    let d = deps[t];
                    assert(plan.invocations[idx as int].deps[t as int] < idx);
                    let ghost prior = marks@;
                    if self.allowed(d, include_custom_build) {
                        marks.set(d, true);
                    }
                    t = t + 1;
                    proof {
                        let m = marks@;
                        let tt = t as int;
                        let ix = idx as int;
                        assert(d == plan.invocations[ix].deps[tt - 1]);
                        assert forall|j: int| 0 <= j < ix implies #[trigger] m[j] == (before[j] || (
                        plan.allowed(j, include_custom_build) && plan.depends_within(ix, tt, j))) by {
                            assert(prior[j] == (before[j] || (plan.allowed(j, include_custom_build)
                                && plan.depends_within(ix, tt - 1, j))));
                            if plan.depends_within(ix, tt - 1, j) {
                                let k = choose|k: int|
                                    0 <= k < tt - 1 && #[trigger] plan.invocations[ix].deps[k] == j;
                                assert(0 <= k < tt && plan.invocations[ix].deps[k] == j);
                                assert(plan.depends_within(ix, tt, j));
                            }
                            if j == d {
                                assert(plan.invocations[ix].deps[tt - 1] == j);
                                assert(plan.depends_within(ix, tt, j));
                            } else {
                                assert(m[j] == prior[j]);
                                if plan.depends_within(ix, tt, j) {
                                    let k = choose|k: int|
                                        0 <= k < tt && #[trigger] plan.invocations[ix].deps[k] == j;
                                    assert(k != tt - 1);
                                    assert(0 <= k < tt - 1 && plan.invocations[ix].deps[k] == j);
                                    assert(plan.depends_within(ix, tt - 1, j));
                                }
                            }
                        }
                    }
                }
            }
            proof {
                assert forall|j: int|
                    0 <= j < idx implies marks[j] == (primary[j] || (plan.allowed(
                    j,
                    include_custom_build,
                ) && plan.reached_from(primary@, include_custom_build, idx as int, j))) by {
                    plan.lemma_reached_step(primary@, include_custom_build, idx as int, j);
                }
            }
            i = idx;
        }
        marks
    }
}

/// The script outputs of `v` as mathematical values, in order.
pub open spec fn script_views(v: Seq<Option<BuildScriptOutput>>) -> Seq<
    Option<BuildScriptOutputView>,
> {
    Seq::new(
        v.len(),
        |i: int|
            match v[i] {
                Some(out) => Some(out@),
                None => None,
            },
    )
}

/// The source files of `v` as texts, in order.
pub open spec fn input_views(v: Seq<Option<String>>) -> Seq<Option<Seq<char>>> {
    Seq::new(v.len(), |i: int| opt_text(v[i]))
}

/// The paths of the links `links`, without what they point to.
fn names_of(links: &Vec<(String, String)>) -> (r: Vec<String>)
    ensures
        texts(r@) == link_names(text_pairs(links@)),
{
    let mut out: Vec<String> = Vec::new();
    let mut i: usize = 0;
    while i < links.len()
        invariant
            i <= links.len(),
            out.len() == i,
            forall|j: int| 0 <= j < i ==> out[j]@ == links[j].0@,
        decreases links.len() - i,
    {
        out.push(links[i].0.clone());
        i = i + 1;
    }
    assert(texts(out@) =~= link_names(text_pairs(links@)));
    out
}

impl BuildPlanView {
    /// An error stays: once the graph of the first `k` invocations is an
    /// error, so is the graph of any more.
    pub proof fn lemma_error_stays(self, how: Lowering, k: nat, n: nat)
        requires
            k <= n,
            self.lowered_upto(how, k) is Err,
        ensures
            self.lowered_upto(how, n) == self.lowered_upto(how, k),
        decreases n - k,
    {
        if k < n {
            self.lemma_error_stays(how, k, (n - 1) as nat);
        }
    }
}

impl BuildPlan {
    /// The explicit inputs of the invocation at `i`.
    pub fn dep_paths(&self, i: usize) -> (r: Vec<String>)
        requires
            self@.wf(),
            i < self.invocations.len(),
        ensures
            texts(r@) == self@.dep_paths(i as int),
    {
        let deps = &self.invocations[i].deps;
        let ghost plan = self@;
        let mut out: Vec<String> = Vec::new();
        let mut t: usize = 0;
        assert(deps@.take(0) =~= Seq::empty());
        assert(texts(out@) =~= Seq::empty());
        while t < deps.len()
            invariant
                t <= deps.len(),
                i < self.invocations.len(),
                plan == self@,
                plan.wf(),
                deps@ == plan.invocations[i as int].deps,
                texts(out@) == plan.paths_of_all(deps@.take(t as int)),
            decreases deps.len() - t,
        {
            let d = deps[t];
            assert(plan.invocations[i as int].deps[t as int] < i);
            proof {
                let next = deps@.take(t + 1);
                assert(next.drop_last() =~= deps@.take(t as int));
                assert(next.last() == d);
                assert(plan.invocations[d as int] == self.invocations[d as int]@);
            }
            let dep = &self.invocations[d];
            if !dep.is_run_custom_build() {
                let ghost before = texts(out@);
                let outputs = without_dwp(&dep.outputs);
                let links = names_of(&dep.links());
                push_texts(&mut out, &outputs);
                push_texts(&mut out, &links);
                assert(texts(out@) =~= before + plan.paths_of(d as int));
            } else {
                assert(texts(out@) =~= texts(out@) + plan.paths_of(d as int));
            }
            t = t + 1;
        }
        assert(deps@.take(deps.len() as int) =~= deps@);
        out
    }

    /// The run of a build script whose output goes to the invocation at
    /// `i`: the last one that it depends on.
    pub fn script_index(&self, i: usize) -> (r: Option<usize>)
        requires
            self@.wf(),
            i < self.invocations.len(),
        ensures
            r is Some <==> self@.script_dep(self@.invocations[i as int].deps) is Some,
            r matches Some(d) ==> d < i && self@.script_dep(self@.invocations[i as int].deps)
                == Some(d as int),
    {
        let deps = &self.invocations[i].deps;
        let ghost plan = self@;
        let mut t: usize = deps.len();
        assert(deps@.take(t as int) =~= deps@);
        while t > 0
            invariant
                t <= deps.len(),
                i < self.invocations.len(),
                plan == self@,
                plan.wf(),
                deps@ == plan.invocations[i as int].deps,
                plan.script_dep(deps@) == plan.script_dep(deps@.take(t as int)),
            decreases t,
        {
            let d = deps[t - 1];
            assert(plan.invocations[i as int].deps[t - 1] < i);
            proof {
                let now = deps@.take(t as int);
                assert(now.drop_last() =~= deps@.take(t - 1));
                assert(now.last() == d);
                assert(plan.invocations[d as int] == self.invocations[d as int]@);
            }
            if self.invocations[d].is_run_custom_build() {
                return Some(d);
            }
            t = t - 1;
        }
        None
    }

    /// The script output for the invocation at `i`: that of the last run of
    /// a build script that it depends on.
    pub fn script_of<'a>(&self, i: usize, scripts: &'a Vec<Option<BuildScriptOutput>>) -> (r: Option<
        &'a BuildScriptOutput,
    >)
        requires
            self@.wf(),
            i < self.invocations.len(),
            scripts.len() == self.invocations.len(),
        ensures
            crate::custom_build::output_view(r) == self@.script_of(
                self@.invocations[i as int].deps,
                script_views(scripts@),
            ),
    {
        match self.script_index(i) {
            Some(d) => scripts[d].as_ref(),
            None => None,
        }
    }
}

impl BuildPlanView {
    /// Whether the plan can be lowered as `how` says: every invocation
    /// depends only on invocations before it, and `how` has one entry for
    /// each invocation in each of its lists.
    pub open spec fn fits(self, how: Lowering) -> bool {
        self.wf() && how.primary.len() == self.invocations.len() && how.inputs.len()
            == self.invocations.len() && how.scripts.len() == self.invocations.len()
    }

    /// The graph of the plan, or the error that says why there is none.
    pub open spec fn graph(self, how: Lowering) -> Result<NinjaFileView, ErrorView> {
        if self.fits(how) {
            self.lowered(how)
        } else {
            Err(misfit())
        }
    }
}

/// The error for a plan that is not in order, or for lists that do not
/// match the plan.
pub open spec fn misfit() -> ErrorView {
    ErrorView {
        kind: ErrorKind::PlanShape,
        message: "an invocation depends on a later one, or a list does not match the plan"@,
    }
}

/// What a lowering of a plan is given, for the executable lists.
pub open spec fn lowering_of(
    primary: Seq<bool>,
    include_custom_build: bool,
    cx: ContextView,
    inputs: Seq<Option<String>>,
    scripts: Seq<Option<BuildScriptOutput>>,
) -> Lowering {
    Lowering {
        primary,
        include_custom_build,
        cx,
        inputs: input_views(inputs),
        scripts: script_views(scripts),
    }
}

impl BuildPlan {
    /// Lowers the plan into a build graph.
    ///
    /// The graph holds the part of each invocation that is primary or that
    /// a primary invocation needs, in the order of the plan.
    /// `include_custom_build` tells whether builds and runs of build scripts
    /// are drawn in as dependencies. `inputs` has the source file of each
    /// invocation, and `scripts` the parsed script output of each run of a
    /// build script.
    pub fn lower(
        &self,
        cx: &Context,
        include_custom_build: bool,
        primary: &Vec<bool>,
        inputs: &Vec<Option<String>>,
        scripts: &Vec<Option<BuildScriptOutput>>,
    ) -> (r: Result<NinjaFile, Error>)
        ensures
            r matches Ok(file) ==> self@.graph(
                lowering_of(primary@, include_custom_build, cx@, inputs@, scripts@),
            ) == Ok::<NinjaFileView, ErrorView>(file@),
            r matches Err(e) ==> self@.graph(
                lowering_of(primary@, include_custom_build, cx@, inputs@, scripts@),
            ) == Err::<NinjaFileView, ErrorView>(e@),
    {
        let n = self.invocations.len();
        let ghost how = lowering_of(primary@, include_custom_build, cx@, inputs@, scripts@);
        let ghost plan = self@;
        if !self.is_well_formed() || primary.len() != n || inputs.len() != n || scripts.len() != n {
            return Err(
                Error::new(
                    ErrorKind::PlanShape,
                    crate::text::copy_of(
                        "an invocation depends on a later one, or a list does not match the plan",
                    ),
                ),
            );
        }
        let marks = self.included(primary, include_custom_build);
        let mut file = NinjaFile::new();
        let mut i: usize = 0;
        while i < n
            invariant
                i <= n,
                n == self.invocations.len(),
                inputs.len() == n,
                scripts.len() == n,
                marks.len() == n,
                plan == self@,
                plan.fits(how),
                how == lowering_of(primary@, include_custom_build, cx@, inputs@, scripts@),
                forall|j: int|
                    0 <= j < n ==> marks[j] == plan.included(primary@, include_custom_build, j),
                plan.lowered_upto(how, i as nat) == Ok::<NinjaFileView, ErrorView>(file@),
            decreases n - i,
        {
            if marks[i] {
                let deps = self.dep_paths(i);
                let script = self.script_of(i, scripts);
                assert(plan.invocations[i as int] == self.invocations[i as int]@);
                match self.invocations[i].ninja_build_with(i, deps, script, cx, &inputs[i]) {
                    Ok(part) => {
                        file = file.merge(part);
                    },
                    Err(e) => {
                        proof {
                            assert(plan.lowered_upto(how, (i + 1) as nat) == Err::<
                                NinjaFileView,
                                ErrorView,
                            >(e@));
                            plan.lemma_error_stays(how, (i + 1) as nat, n as nat);
                        }
                        return Err(e);
                    },
                }
            }
            i = i + 1;
        }
        Ok(file)
    }

    /// Lowers the plan into a build graph for the invocations that `filter`
    /// picks and for what they need.
    ///
    /// The source file of each invocation is the one that the compiler's
    /// grammar finds among its arguments. `scripts` has the parsed script
    /// output of each run of a build script.
    pub fn to_ninja<F: Fn(&Invocation) -> bool>(
        &self,
        cx: &Context,
        include_custom_build: bool,
        filter: F,
        scripts: &Vec<Option<BuildScriptOutput>>,
    ) -> (r: Result<NinjaFile, Error>)
        requires
            forall|inv: &Invocation| call_requires(filter, (inv,)),
        ensures
            exists|primary: Seq<bool>|
                {
                    let wanted = #[trigger] self@.graph(
                        Lowering {
                            primary,
                            include_custom_build,
                            cx: cx@,
                            inputs: self@.source_files(),
                            scripts: script_views(scripts@),
                        },
                    );
                    &&& primary.len() == self.invocations.len()
                    &&& forall|i: int|
                        0 <= i < primary.len() ==> call_ensures(
                            filter,
                            (&self.invocations[i],),
                            #[trigger] primary[i],
                        )
                    &&& r matches Ok(file) ==> wanted == Ok::<NinjaFileView, ErrorView>(file@)
                    &&& r matches Err(e) ==> wanted == Err::<NinjaFileView, ErrorView>(e@)
                },
    {
        let inputs = self.source_files();
        let mut primary: Vec<bool> = Vec::new();
        let mut i: usize = 0;
        while i < self.invocations.len()
            invariant
                i <= self.invocations.len(),
                primary.len() == i,
                forall|inv: &Invocation| call_requires(filter, (inv,)),
                forall|j: int|
                    0 <= j < i ==> call_ensures(
                        filter,
                        (&self.invocations[j],),
                        #[trigger] primary[j],
                    ),
            decreases self.invocations.len() - i,
        {
            primary.push(filter(&self.invocations[i]));
            i = i + 1;
        }
        let r = self.lower(cx, include_custom_build, &primary, &inputs, scripts);
        proof {
            let wanted = self@.graph(
                Lowering {
                    primary: primary@,
                    include_custom_build,
                    cx: cx@,
                    inputs: self@.source_files(),
                    scripts: script_views(scripts@),
                },
            );
            assert(r matches Ok(file) ==> wanted == Ok::<NinjaFileView, ErrorView>(file@));
            assert(r matches Err(e) ==> wanted == Err::<NinjaFileView, ErrorView>(e@));
        }
        r
    }
}

impl BuildPlanView {
    /// For each invocation, the source file that the compiler's grammar
    /// finds among its arguments.
    pub open spec fn source_files(self) -> Seq<Option<Seq<char>>> {
        Seq::new(self.invocations.len(), |i: int| source_file(self.invocations[i].args))
    }

    /// For each invocation, whether it runs a build script.
    pub open spec fn script_runs(self) -> Seq<bool> {
        Seq::new(self.invocations.len(), |i: int| self.invocations[i].is_run_custom_build())
    }

    /// For each invocation, whether it builds a target of the workspace.
    pub open spec fn workspace_builds(self, members: Seq<(Seq<char>, Seq<char>)>) -> Seq<bool> {
        Seq::new(self.invocations.len(), |i: int| self.invocations[i].is_workspace_build(members))
    }

    /// The graph of the script stage: every run of a build script, with the
    /// builds of the scripts and all else that the runs need.
    pub open spec fn script_stage(
        self,
        cx: ContextView,
        inputs: Seq<Option<Seq<char>>>,
        scripts: Seq<Option<BuildScriptOutputView>>,
    ) -> Result<NinjaFileView, ErrorView> {
        self.graph(
            Lowering {
                primary: self.script_runs(),
                include_custom_build: true,
                cx,
                inputs,
                scripts,
            },
        )
    }

    /// The graph of the main stage: the graph `generator`, which writes the
    /// build graph anew, and then every build of the workspace with what it
    /// needs, without builds and runs of build scripts.
    pub open spec fn build_stage(
        self,
        cx: ContextView,
        inputs: Seq<Option<Seq<char>>>,
        scripts: Seq<Option<BuildScriptOutputView>>,
        generator: NinjaFileView,
    ) -> Result<NinjaFileView, ErrorView> {
        match self.graph(
            Lowering {
                primary: self.workspace_builds(cx.workspace),
                include_custom_build: false,
                cx,
                inputs,
                scripts,
            },
        ) {
            Ok(graph) => Ok(generator.merge(graph)),
            Err(e) => Err(e),
        }
    }
}

impl BuildPlan {
    /// For each invocation, the source file that the compiler's grammar
    /// finds among its arguments.
    pub fn source_files(&self) -> (r: Vec<Option<String>>)
        ensures
            input_views(r@) == self@.source_files(),
    {
        let mut inputs: Vec<Option<String>> = Vec::new();
        let mut i: usize = 0;
        while i < self.invocations.len()
            invariant
                i <= self.invocations.len(),
                inputs.len() == i,
                forall|j: int|
                    0 <= j < i ==> opt_text(inputs[j]) == source_file(self@.invocations[j].args),
            decreases self.invocations.len() - i,
        {
            inputs.push(crate::rustc_config::rustc_input(&self.invocations[i].args));
            i = i + 1;
        }
        assert(input_views(inputs@) =~= self@.source_files());
        inputs
    }

    /// The graph of the script stage, which runs every build script of the
    /// plan. `inputs` has the source file of each invocation, and `scripts`
    /// the parsed script output of each run that is known already.
    pub fn script_stage(
        &self,
        cx: &Context,
        inputs: &Vec<Option<String>>,
        scripts: &Vec<Option<BuildScriptOutput>>,
    ) -> (r: Result<NinjaFile, Error>)
        ensures
            r matches Ok(file) ==> self@.script_stage(
                cx@,
                input_views(inputs@),
                script_views(scripts@),
            ) == Ok::<NinjaFileView, ErrorView>(file@),
            r matches Err(e) ==> self@.script_stage(
                cx@,
                input_views(inputs@),
                script_views(scripts@),
            ) == Err::<NinjaFileView, ErrorView>(e@),
    {
        let mut primary: Vec<bool> = Vec::new();
        let mut i: usize = 0;
        while i < self.invocations.len()
            invariant
                i <= self.invocations.len(),
                primary.len() == i,
                forall|j: int| 0 <= j < i ==> primary[j] == self@.invocations[j].is_run_custom_build(),
            decreases self.invocations.len() - i,
        {
            primary.push(self.invocations[i].is_run_custom_build());
            i = i + 1;
        }
        assert(primary@ =~= self@.script_runs());
        self.lower(cx, true, &primary, inputs, scripts)
    }

    /// The graph of the main stage, which builds the workspace. `inputs`
    /// has the source file of each invocation, `scripts` the parsed script
    /// output of each run of a build script, and `generator` the graph that
    /// writes the build graph anew.
    pub fn build_stage(
        &self,
        cx: &Context,
        inputs: &Vec<Option<String>>,
        scripts: &Vec<Option<BuildScriptOutput>>,
        generator: NinjaFile,
    ) -> (r: Result<NinjaFile, Error>)
        ensures
            r matches Ok(file) ==> self@.build_stage(
                cx@,
                input_views(inputs@),
                script_views(scripts@),
                generator@,
            ) == Ok::<NinjaFileView, ErrorView>(file@),
            r matches Err(e) ==> self@.build_stage(
                cx@,
                input_views(inputs@),
                script_views(scripts@),
                generator@,
            ) == Err::<NinjaFileView, ErrorView>(e@),
    {
        let mut primary: Vec<bool> = Vec::new();
        let mut i: usize = 0;
        while i < self.invocations.len()
            invariant
                i <= self.invocations.len(),
                primary.len() == i,
                forall|j: int|
                    0 <= j < i ==> primary[j] == self@.invocations[j].is_workspace_build(
                        cx@.workspace,
                    ),
            decreases self.invocations.len() - i,
        {
            primary.push(self.invocations[i].is_workspace_build(&cx.workspace));
            i = i + 1;
        }
        assert(primary@ =~= self@.workspace_builds(cx@.workspace));
        match self.lower(cx, false, &primary, inputs, scripts) {
            Ok(graph) => Ok(generator.merge(graph)),
            Err(e) => Err(e),
        }
    }
}

impl BuildPlanView {
    /// Whether one of the first `k` invocations belongs to the graph and
    /// takes its script output from the run at `r`.
    pub open spec fn reads_script_upto(
        self,
        primary: Seq<bool>,
        include_custom_build: bool,
        r: int,
        k: int,
    ) -> bool {
        exists|i: int|
            0 <= i < k && #[trigger] self.included(primary, include_custom_build, i)
                && self.script_dep(self.invocations[i].deps) == Some(r)
    }

    /// Whether the lowering for the primary invocations `primary` reads the
    /// output of the script run at `r`: an invocation of the graph takes its
    /// script output from that run.
    pub open spec fn reads_script(self, primary: Seq<bool>, include_custom_build: bool, r: int) -> bool {
        self.reads_script_upto(primary, include_custom_build, r, self.invocations.len() as int)
    }
}

impl BuildPlan {
    /// For each invocation, whether the lowering for the primary
    /// invocations `primary` reads its script output: these are the outputs
    /// to have at hand before the lowering.
    pub fn scripts_read(&self, primary: &Vec<bool>, include_custom_build: bool) -> (reads: Vec<bool>)
        requires
            self@.wf(),
            primary.len() == self.invocations.len(),
        ensures
            reads.len() == self.invocations.len(),
            forall|r: int|
                0 <= r < reads.len() ==> reads[r] == self@.reads_script(
                    primary@,
                    include_custom_build,
                    r,
                ),
    {
        let n = self.invocations.len();
        let ghost plan = self@;
        let marks = self.included(primary, include_custom_build);
        let mut reads: Vec<bool> = Vec::new();
        let mut c: usize = 0;
        while c < n
            invariant
                c <= n,
                reads.len() == c,
                forall|r: int| 0 <= r < c ==> !reads[r],
            decreases n - c,
        {
            reads.push(false);
            c = c + 1;
        }
        let mut k: usize = 0;
        while k < n
            invariant
                k <= n,
                n == self.invocations.len(),
                plan == self@,
                plan.wf(),
                marks.len() == n,
                reads.len() == n,
                forall|j: int|
                    0 <= j < n ==> marks[j] == plan.included(primary@, include_custom_build, j),
                forall|r: int|
                    0 <= r < n ==> #[trigger] reads[r] == plan.reads_script_upto(
                        primary@,
                        include_custom_build,
                        r,
                        k as int,
                    ),
            decreases n - k,
        {
            let ghost before = reads@;
            let ghost dep = plan.script_dep(plan.invocations[k as int].deps);
            let mut found: Option<usize> = None;
            if marks[k] {
                found = self.script_index(k);
            }
            match found {
                Some(d) => {
                    reads.set(d, true);
                },
                None => {},
            }
            assert forall|r: int| 0 <= r < n implies #[trigger] reads[r] == plan.reads_script_upto(
                primary@,
                include_custom_build,
                r,
                k + 1,
            ) by {
                let now = plan.reads_script_upto(primary@, include_custom_build, r, k + 1);
                let was = plan.reads_script_upto(primary@, include_custom_build, r, k as int);
                assert(before[r] == was);
                let here = plan.included(primary@, include_custom_build, k as int) && dep == Some(r);
                if was {
                    let i = choose|i: int|
                        0 <= i < k && #[trigger] plan.included(primary@, include_custom_build, i)
                            && plan.script_dep(plan.invocations[i].deps) == Some(r);
                    assert(0 <= i < k + 1 && plan.included(primary@, include_custom_build, i)
                        && plan.script_dep(plan.invocations[i].deps) == Some(r));
                    assert(now);
                }
                if here {
                    assert(0 <= k < k + 1 && plan.included(primary@, include_custom_build, k as int)
                        && plan.script_dep(plan.invocations[k as int].deps) == Some(r));
                    assert(now);
                }
                if now {
                    let i = choose|i: int|
                        0 <= i < k + 1 && #[trigger] plan.included(
                            primary@,
                            include_custom_build,
                            i,
                        ) && plan.script_dep(plan.invocations[i].deps) == Some(r);
                    if i < k {
                        assert(was);
                    } else {
                        assert(here);
                    }
                }
                assert(now == (was || here));
            }
            k = k + 1;
        }
        reads
    }
}

/// The script outputs of `v` as sequences of bytes, in order.
pub open spec fn byte_views(v: Seq<Option<Vec<u8>>>) -> Seq<Option<Seq<u8>>> {
    Seq::new(
        v.len(),
        |i: int|
            match v[i] {
                Some(bytes) => Some(bytes@),
                None => None,
            },
    )
}

impl BuildPlanView {
    /// The parsed script outputs of the first `n` invocations, where
    /// `outputs` has the bytes of each script output that was read: each is
    /// parsed for the invocation at its position. The first output that
    /// cannot be parsed is the error of the whole.
    pub open spec fn scripts_upto(
        self,
        outputs: Seq<Option<Seq<u8>>>,
        rustc_bootstrap: Option<Seq<char>>,
        n: nat,
    ) -> Result<Seq<Option<BuildScriptOutputView>>, ErrorView>
        decreases n,
    {
        if n == 0 {
            Ok(Seq::empty())
        } else {
            match self.scripts_upto(outputs, rustc_bootstrap, (n - 1) as nat) {
                Ok(before) => match outputs[n - 1] {
                    Some(bytes) => match self.invocations[n - 1].script_output(
                        bytes,
                        rustc_bootstrap,
                    ) {
                        Ok(out) => Ok(before.push(Some(out))),
                        Err(e) => Err(e),
                    },
                    None => Ok(before.push(None)),
                },
                Err(e) => Err(e),
            }
        }
    }

    /// The parsed script outputs of the plan, or the error of the first
    /// output that cannot be parsed.
    pub open spec fn scripts(
        self,
        outputs: Seq<Option<Seq<u8>>>,
        rustc_bootstrap: Option<Seq<char>>,
    ) -> Result<Seq<Option<BuildScriptOutputView>>, ErrorView> {
        if outputs.len() == self.invocations.len() {
            self.scripts_upto(outputs, rustc_bootstrap, self.invocations.len())
        } else {
            Err(misfit())
        }
    }

    /// The graph of the main stage from the bytes of the script outputs:
    /// there is no graph where one of the outputs cannot be parsed.
    pub open spec fn build_stage_from_bytes(
        self,
        cx: ContextView,
        inputs: Seq<Option<Seq<char>>>,
        outputs: Seq<Option<Seq<u8>>>,
        rustc_bootstrap: Option<Seq<char>>,
        generator: NinjaFileView,
    ) -> Result<NinjaFileView, ErrorView> {
        match self.scripts(outputs, rustc_bootstrap) {
            Ok(scripts) => self.build_stage(cx, inputs, scripts, generator),
            Err(e) => Err(e),
        }
    }

    /// What was parsed before an error stays an error.
    pub proof fn lemma_script_error_stays(
        self,
        outputs: Seq<Option<Seq<u8>>>,
        rustc_bootstrap: Option<Seq<char>>,
        k: nat,
        n: nat,
    )
        requires
            k <= n,
            self.scripts_upto(outputs, rustc_bootstrap, k) is Err,
        ensures
            self.scripts_upto(outputs, rustc_bootstrap, n) == self.scripts_upto(
                outputs,
                rustc_bootstrap,
                k,
            ),
        decreases n - k,
    {
        if k < n {
            self.lemma_script_error_stays(outputs, rustc_bootstrap, k, (n - 1) as nat);
        }
    }
}

impl BuildPlan {
    /// Parses the script outputs of the plan. `outputs` has the bytes of
    /// each script output that was read, at the position of the invocation
    /// that runs the script, and `rustc_bootstrap` the value of the
    /// environment variable of that name, if it is set. The first output
    /// that cannot be parsed is the error of the whole.
    pub fn parse_scripts(&self, outputs: &Vec<Option<Vec<u8>>>, rustc_bootstrap: &Option<String>) -> (r:
        Result<Vec<Option<BuildScriptOutput>>, Error>)
        ensures
            r matches Ok(scripts) ==> self@.scripts(
                byte_views(outputs@),
                opt_text(*rustc_bootstrap),
            ) == Ok::<Seq<Option<BuildScriptOutputView>>, ErrorView>(script_views(scripts@)),
            r matches Err(e) ==> self@.scripts(byte_views(outputs@), opt_text(*rustc_bootstrap))
                == Err::<Seq<Option<BuildScriptOutputView>>, ErrorView>(e@),
    {
        let n = self.invocations.len();
        if outputs.len() != n {
            return Err(
                Error::new(
                    ErrorKind::PlanShape,
                    crate::text::copy_of(
                        "an invocation depends on a later one, or a list does not match the plan",
                    ),
                ),
            );
        }
        let ghost plan = self@;
        let ghost given = byte_views(outputs@);
        let ghost bootstrap = opt_text(*rustc_bootstrap);
        let mut scripts: Vec<Option<BuildScriptOutput>> = Vec::new();
        let mut i: usize = 0;
        assert(script_views(scripts@) =~= Seq::empty());
        while i < n
            invariant
                i <= n,
                n == self.invocations.len(),
                outputs.len() == n,
                plan == self@,
                given == byte_views(outputs@),
                bootstrap == opt_text(*rustc_bootstrap),
                plan.scripts_upto(given, bootstrap, i as nat) == Ok::<
                    Seq<Option<BuildScriptOutputView>>,
                    ErrorView,
                >(script_views(scripts@)),
            decreases n - i,
        {
            let ghost before = script_views(scripts@);
            assert(plan.invocations[i as int] == self.invocations[i as int]@);
            match &outputs[i] {
                Some(bytes) => {
                    match self.invocations[i].build_script_output(
                        bytes.as_slice(),
                        crate::text::copy_option(rustc_bootstrap),
                    ) {
                        Ok(out) => {
                            scripts.push(Some(out));
                            assert(script_views(scripts@) =~= before.push(Some(out@)));
                        },
                        Err(e) => {
                            proof {
                                plan.lemma_script_error_stays(
                                    given,
                                    bootstrap,
                                    (i + 1) as nat,
                                    n as nat,
                                );
                            }
                            return Err(e);
                        },
                    }
                },
                None => {
                    scripts.push(None);
                    assert(script_views(scripts@) =~= before.push(None));
                },
            }
            i = i + 1;
        }
        Ok(scripts)
    }

    /// The graph of the main stage from the bytes of the script outputs.
    /// `inputs` has the source file of each invocation, `outputs` the bytes
    /// of each script output that was read, `rustc_bootstrap` the value of
    /// the environment variable of that name, and `generator` the graph that
    /// writes the build graph anew. A script output that cannot be parsed
    /// stops the lowering with its error.
    pub fn build_stage_from_bytes(
        &self,
        cx: &Context,
        inputs: &Vec<Option<String>>,
        outputs: &Vec<Option<Vec<u8>>>,
        rustc_bootstrap: &Option<String>,
        generator: NinjaFile,
    ) -> (r: Result<NinjaFile, Error>)
        ensures
            r matches Ok(file) ==> self@.build_stage_from_bytes(
                cx@,
                input_views(inputs@),
                byte_views(outputs@),
                opt_text(*rustc_bootstrap),
                generator@,
            ) == Ok::<NinjaFileView, ErrorView>(file@),
            r matches Err(e) ==> self@.build_stage_from_bytes(
                cx@,
                input_views(inputs@),
                byte_views(outputs@),
                opt_text(*rustc_bootstrap),
                generator@,
            ) == Err::<NinjaFileView, ErrorView>(e@),
    {
        match self.parse_scripts(outputs, rustc_bootstrap) {
            Ok(scripts) => self.build_stage(cx, inputs, &scripts, generator),
            Err(e) => Err(e),
        }
    }
}

} // verus!
