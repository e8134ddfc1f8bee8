//! Plans: ordered sequences of atomic operations that converge the workspace
//! toward its target state.
//!
//! A plan is a pure value computed from the graph snapshot and the requested
//! intent; applying it is the only mutating step. An empty plan means the
//! workspace is already converged. Operations are individually idempotent,
//! so re-running a command after a partial apply converges.

use vstd::prelude::*;

use crate::graph::{PackageInfo, PackageSelection, WorkspaceGraph};

verus! {

/// A single mutation of the workspace.
#[derive(Debug)]
pub enum Operation {
    /// Create the skeleton of the aggregation package at a workspace-relative
    /// path.
    CreatePackage { path: String, name: String },
    /// Write a stub configuration file at a workspace-relative path.
    WriteConfig { path: String },
    /// Add the dependency edge from a workspace package to the aggregation
    /// package.
    AddDependency { package_index: usize },
    /// Remove the dependency edge from a workspace package to the aggregation
    /// package.
    RemoveDependency { package_index: usize },
    /// Overwrite the generated region of the aggregation package's manifest.
    SetGeneratedContents { contents: String },
}

/// An ordered sequence of operations. Ordering reflects dependency order
/// among the operations and is preserved through rendering and application.
pub struct Plan {
    pub ops: Vec<Operation>,
}

impl Plan {
    /// Whether the plan demands no work: the workspace is already converged.
    pub fn is_empty(&self) -> (empty: bool)
        ensures
            empty == (self.ops@.len() == 0),
    {
        self.ops.len() == 0
    }
}

/// Whether an edge operation stays within the graph and never touches the
/// aggregation package itself.
pub open spec fn op_valid(graph: WorkspaceGraph, op: Operation) -> bool {
    match op {
        Operation::AddDependency { package_index } => package_index
            < graph.packages@.len() && package_index != graph.aggregation_index,
        Operation::RemoveDependency { package_index } => package_index
            < graph.packages@.len() && package_index != graph.aggregation_index,
        _ => true,
    }
}

/// Whether every operation of the plan is valid for the graph.
pub open spec fn plan_valid(graph: WorkspaceGraph, plan: Plan) -> bool {
    forall|k: int| 0 <= k < plan.ops@.len() ==> op_valid(graph, #[trigger] plan.ops@[k])
}

/// The edge column of a package list: whether each package currently
/// depends on the aggregation package.
pub open spec fn edges_of_packages(packages: Seq<PackageInfo>) -> Seq<bool> {
    packages.map_values(|p: PackageInfo| p.has_edge)
}

/// The edge column of the graph.
pub open spec fn edges_of(graph: WorkspaceGraph) -> Seq<bool> {
    edges_of_packages(graph.packages@)
}

/// Package `i` is selected, lacks the edge, and must gain it.
pub open spec fn needs_add(graph: WorkspaceGraph, sel: PackageSelection, i: int) -> bool {
    &&& sel.spec_contains(i)
    &&& i < graph.packages@.len()
    &&& i != graph.aggregation_index
    &&& !graph.packages@[i].has_edge
}

/// Package `i` is excluded from the selection but currently carries the
/// edge, which must go.
pub open spec fn needs_remove(graph: WorkspaceGraph, sel: PackageSelection, i: int) -> bool {
    &&& 0 <= i < graph.packages@.len()
    &&& !sel.spec_contains(i)
    &&& i != graph.aggregation_index
    &&& graph.packages@[i].has_edge
}

/// Package `i` is selected and carries the edge, which an explicit removal
/// request must take away.
pub open spec fn needs_drop(graph: WorkspaceGraph, sel: PackageSelection, i: int) -> bool {
    &&& sel.spec_contains(i)
    &&& i < graph.packages@.len()
    &&& i != graph.aggregation_index
    &&& graph.packages@[i].has_edge
}

/// The edge additions among the first `n` packages, in package order.
pub open spec fn adds_upto(graph: WorkspaceGraph, sel: PackageSelection, n: int) -> Seq<Operation>
    decreases n,
{
    if n <= 0 {
        Seq::empty()
    } else {
        adds_upto(graph, sel, n - 1) + if needs_add(graph, sel, n - 1) {
            seq![Operation::AddDependency { package_index: (n - 1) as usize }]
        } else {
            Seq::empty()
        }
    }
}

/// The edge removals for excluded packages among the first `n`, in package
/// order.
pub open spec fn removes_upto(graph: WorkspaceGraph, sel: PackageSelection, n: int) -> Seq<
    Operation,
>
    decreases n,
{
    if n <= 0 {
        Seq::empty()
    } else {
        removes_upto(graph, sel, n - 1) + if needs_remove(graph, sel, n - 1) {
            seq![Operation::RemoveDependency { package_index: (n - 1) as usize }]
        } else {
            Seq::empty()
        }
    }
}

/// The edge removals for selected packages among the first `n`, in package
/// order.
pub open spec fn drops_upto(graph: WorkspaceGraph, sel: PackageSelection, n: int) -> Seq<Operation>
    decreases n,
{
    if n <= 0 {
        Seq::empty()
    } else {
        drops_upto(graph, sel, n - 1) + if needs_drop(graph, sel, n - 1) {
            seq![Operation::RemoveDependency { package_index: (n - 1) as usize }]
        } else {
            Seq::empty()
        }
    }
}

/// The full membership-management plan: an addition for every selected
/// package lacking the edge, then a removal for every currently-dependent
/// package excluded from the selection.
pub open spec fn manage_plan_ops(graph: WorkspaceGraph, sel: PackageSelection) -> Seq<Operation> {
    adds_upto(graph, sel, graph.packages@.len() as int) + removes_upto(
        graph,
        sel,
        graph.packages@.len() as int,
    )
}

/// The removal-only plan: a removal for every selected package carrying the
/// edge.
pub open spec fn remove_plan_ops(graph: WorkspaceGraph, sel: PackageSelection) -> Seq<Operation> {
    drops_upto(graph, sel, graph.packages@.len() as int)
}

/// The graph state already matches the target for this selection: every
/// selected package has the edge and no excluded package does.
pub open spec fn converged_for(graph: WorkspaceGraph, sel: PackageSelection) -> bool {
    forall|i: int|
        0 <= i < graph.packages@.len() ==> !needs_add(graph, sel, i) && !needs_remove(graph, sel, i)
}

/// Computes the plan that synchronizes membership: edge additions for every
/// selected package lacking the edge, then edge removals for every
/// currently-dependent package now excluded from the selection. The
/// aggregation package itself is never touched.
pub fn manage_deps_plan(graph: &WorkspaceGraph, sel: &PackageSelection) -> (plan: Plan)
    requires
        graph.wf(),
        sel.wf(*graph),
    ensures
        plan.ops@ == manage_plan_ops(*graph, *sel),
        plan_valid(*graph, plan),
{
    let n = graph.packages.len();
    let mut ops: Vec<Operation> = Vec::new();
    let mut i: usize = 0;
    while i < n
        invariant
            i <= n,
            n == graph.packages@.len(),
            graph.wf(),
            sel.wf(*graph),
            ops@ == adds_upto(*graph, *sel, i as int),
            forall|k: int| 0 <= k < ops@.len() ==> op_valid(*graph, #[trigger] ops@[k]),
        decreases n - i,
    {
        if sel.contains(i) && i != graph.aggregation_index && !graph.packages[i].has_edge {
            let op = Operation::AddDependency { package_index: i };
            assert(op_valid(*graph, op));
            let ghost prev = ops@;
            ops.push(op);
            proof {
                assert forall|k: int|
                    0 <= k < ops@.len() implies op_valid(*graph, #[trigger] ops@[k]) by {
                    if k < prev.len() {
                        assert(ops@[k] == prev[k]);
                    } else {
                        assert(ops@[k] == op);
                    }
                }
            }
        }
        assert(ops@ == adds_upto(*graph, *sel, i + 1));
        i += 1;
    }
    let ghost adds = ops@;
    let mut i2: usize = 0;
    while i2 < n
        invariant
            i2 <= n,
            n == graph.packages@.len(),
            graph.wf(),
            sel.wf(*graph),
            adds == adds_upto(*graph, *sel, n as int),
            ops@ == adds + removes_upto(*graph, *sel, i2 as int),
            forall|k: int| 0 <= k < ops@.len() ==> op_valid(*graph, #[trigger] ops@[k]),
        decreases n - i2,
    {
        if !sel.contains(i2) && i2 != graph.aggregation_index && graph.packages[i2].has_edge {
            let op = Operation::RemoveDependency { package_index: i2 };
            assert(op_valid(*graph, op));
            let ghost prev = ops@;
            ops.push(op);
            proof {
                assert forall|k: int|
                    0 <= k < ops@.len() implies op_valid(*graph, #[trigger] ops@[k]) by {
                    if k < prev.len() {
                        assert(ops@[k] == prev[k]);
                    } else {
                        assert(ops@[k] == op);
                    }
                }
            }
        }
        assert(ops@ == adds + removes_upto(*graph, *sel, i2 + 1));
        i2 += 1;
    }
    Plan { ops }
}

/// Computes the removal-only plan: an edge removal for every selected
/// package that currently depends on the aggregation package.
pub fn remove_deps_plan(graph: &WorkspaceGraph, sel: &PackageSelection) -> (plan: Plan)
    requires
        graph.wf(),
        sel.wf(*graph),
    ensures
        plan.ops@ == remove_plan_ops(*graph, *sel),
        plan_valid(*graph, plan),
{
    let n = graph.packages.len();
    let mut ops: Vec<Operation> = Vec::new();
    let mut i: usize = 0;
    while i < n
        invariant
            i <= n,
            n == graph.packages@.len(),
            graph.wf(),
            sel.wf(*graph),
            ops@ == drops_upto(*graph, *sel, i as int),
            forall|k: int| 0 <= k < ops@.len() ==> op_valid(*graph, #[trigger] ops@[k]),
        decreases n - i,
    {
        if sel.contains(i) && i != graph.aggregation_index && graph.packages[i].has_edge {
            let op = Operation::RemoveDependency { package_index: i };
            assert(op_valid(*graph, op));
            let ghost prev = ops@;
            ops.push(op);
            proof {
                assert forall|k: int|
                    0 <= k < ops@.len() implies op_valid(*graph, #[trigger] ops@[k]) by {
                    if k < prev.len() {
                        assert(ops@[k] == prev[k]);
                    } else {
                        assert(ops@[k] == op);
                    }
                }
            }
        }
        assert(ops@ == drops_upto(*graph, *sel, i + 1));
        i += 1;
    }
    Plan { ops }
}

/// The effect of one operation on the edge column. Operations that only
/// touch files leave the graph untouched.
pub open spec fn apply_op_edges(edges: Seq<bool>, op: Operation) -> Seq<bool> {
    match op {
        Operation::AddDependency { package_index } => if package_index < edges.len() {
            edges.update(package_index as int, true)
        } else {
            edges
        },
        Operation::RemoveDependency { package_index } => if package_index < edges.len() {
            edges.update(package_index as int, false)
        } else {
            edges
        },
        _ => edges,
    }
}

/// The effect of a whole operation sequence on the edge column, first
/// operation first.
pub open spec fn apply_ops_edges(edges: Seq<bool>, ops: Seq<Operation>) -> Seq<bool>
    decreases ops.len(),
{
    if ops.len() == 0 {
        edges
    } else {
        apply_ops_edges(apply_op_edges(edges, ops[0]), ops.subrange(1, ops.len() as int))
    }
}

/// Applies a plan to the graph snapshot, operation by operation in order,
/// and returns the resulting snapshot. Only the edge column changes: names,
/// package count and the aggregation index are preserved.
pub fn apply_plan(graph: WorkspaceGraph, plan: &Plan) -> (result: WorkspaceGraph)
    requires
        graph.wf(),
        plan_valid(graph, *plan),
    ensures
        result.wf(),
        result.packages@.len() == graph.packages@.len(),
        result.aggregation_index == graph.aggregation_index,
        forall|i: int|
            0 <= i < graph.packages@.len() ==> result.packages@[i].name@
                == #[trigger] graph.packages@[i].name@,
        edges_of(result) == apply_ops_edges(edges_of(graph), plan.ops@),
{
    let ghost g0 = graph;
    let agg = graph.aggregation_index;
    let mut packages = graph.packages;
    let mut k: usize = 0;
    while k < plan.ops.len()
        invariant
            k <= plan.ops@.len(),
            plan_valid(g0, *plan),
            packages@.len() == g0.packages@.len(),
            agg == g0.aggregation_index,
            g0.wf(),
            forall|i: int|
                0 <= i < g0.packages@.len() ==> packages@[i].name@
                    == #[trigger] g0.packages@[i].name@,
            !packages@[agg as int].has_edge,
            edges_of_packages(packages@) == apply_ops_edges(
                edges_of(g0),
                plan.ops@.subrange(0, k as int),
            ),
        decreases plan.ops@.len() - k,
    {
        let ghost edges_before = edges_of_packages(packages@);
        match &plan.ops[k] {
            Operation::AddDependency { package_index } => {
                let i = *package_index;
                let name = packages[i].name.clone();
                packages[i] = PackageInfo { name, has_edge: true };
            },
            Operation::RemoveDependency { package_index } => {
                let i = *package_index;
                let name = packages[i].name.clone();
                packages[i] = PackageInfo { name, has_edge: false };
            },
            _ => {},
        }
        proof {
            let ops = plan.ops@;
            assert(edges_of_packages(packages@) =~= apply_op_edges(
                edges_before,
                ops[k as int],
            ));
            lemma_apply_ops_snoc(edges_of(g0), ops, k as int);
        }
        k += 1;
    }
    proof {
        assert(plan.ops@.subrange(0, plan.ops@.len() as int) =~= plan.ops@);
        assert forall|i: int, j: int|
            0 <= i < j < packages@.len() implies packages@[i].name@ != packages@[j].name@ by {
            assert(packages@[i].name@ == g0.packages@[i].name@);
            assert(packages@[j].name@ == g0.packages@[j].name@);
        }
    }
    WorkspaceGraph { packages, aggregation_index: agg }
}

/// A one-operation sequence has the effect of its operation.
pub proof fn lemma_apply_ops_singleton(edges: Seq<bool>, op: Operation)
    ensures
        apply_ops_edges(edges, seq![op]) == apply_op_edges(edges, op),
{
    let s = seq![op];
    assert(s[0] == op);
    assert(s.subrange(1, 1) =~= Seq::<Operation>::empty());
    assert(apply_ops_edges(apply_op_edges(edges, op), Seq::<Operation>::empty())
        == apply_op_edges(edges, op));
}

/// Splitting an operation sequence after its last element splits its effect.
pub proof fn lemma_apply_ops_snoc(edges: Seq<bool>, ops: Seq<Operation>, k: int)
    requires
        0 <= k < ops.len(),
    ensures
        apply_ops_edges(edges, ops.subrange(0, k + 1)) == apply_op_edges(
            apply_ops_edges(edges, ops.subrange(0, k)),
            ops[k],
        ),
    decreases k,
{
    if k == 0 {
        assert(ops.subrange(0, 1) =~= seq![ops[0]]);
        assert(ops.subrange(0, 0) =~= Seq::<Operation>::empty());
        lemma_apply_ops_singleton(edges, ops[0]);
        assert(apply_ops_edges(edges, ops.subrange(0, 0)) == edges);
    } else {
        let head = ops[0];
        let tail = ops.subrange(1, ops.len() as int);
        let e1 = apply_op_edges(edges, head);
        assert(ops.subrange(0, k + 1)[0] == head);
        assert(ops.subrange(0, k + 1).len() == k + 1);
        assert(apply_ops_edges(edges, ops.subrange(0, k + 1)) == apply_ops_edges(
            e1,
            ops.subrange(0, k + 1).subrange(1, k + 1),
        ));
        assert(ops.subrange(0, k + 1).subrange(1, k + 1) =~= tail.subrange(0, k));
        assert(ops.subrange(0, k)[0] == head);
        assert(ops.subrange(0, k).len() == k);
        assert(apply_ops_edges(edges, ops.subrange(0, k)) == apply_ops_edges(
            e1,
            ops.subrange(0, k).subrange(1, k),
        ));
        assert(ops.subrange(0, k).subrange(1, k) =~= tail.subrange(0, k - 1));
        lemma_apply_ops_snoc(e1, tail, k - 1);
        assert(tail[k - 1] == ops[k]);
    }
}

/// Concatenating operation sequences composes their effects.
pub proof fn lemma_apply_ops_concat(edges: Seq<bool>, s1: Seq<Operation>, s2: Seq<Operation>)
    ensures
        apply_ops_edges(edges, s1 + s2) == apply_ops_edges(apply_ops_edges(edges, s1), s2),
    decreases s1.len(),
{
    if s1.len() == 0 {
        assert(s1 + s2 =~= s2);
    } else {
        let rest = s1.subrange(1, s1.len() as int);
        assert((s1 + s2)[0] == s1[0]);
        assert((s1 + s2).subrange(1, (s1 + s2).len() as int) =~= rest + s2);
        lemma_apply_ops_concat(apply_op_edges(edges, s1[0]), rest, s2);
    }
}

/// Appending one operation applies it after the rest.
pub proof fn lemma_apply_ops_app_one(edges: Seq<bool>, ops: Seq<Operation>, op: Operation)
    ensures
        apply_ops_edges(edges, ops + seq![op]) == apply_op_edges(
            apply_ops_edges(edges, ops),
            op,
        ),
{
    lemma_apply_ops_concat(edges, ops, seq![op]);
    lemma_apply_ops_singleton(apply_ops_edges(edges, ops), op);
}

/// The addition prefix is empty exactly when no package among the first `n`
/// needs the edge added.
pub proof fn lemma_adds_upto_empty(graph: WorkspaceGraph, sel: PackageSelection, n: int)
    requires
        0 <= n,
    ensures
        adds_upto(graph, sel, n).len() == 0 <==> (forall|i: int|
            0 <= i < n ==> !needs_add(graph, sel, i)),
    decreases n,
{
    if n > 0 {
        lemma_adds_upto_empty(graph, sel, n - 1);
    }
}

/// The removal suffix is empty exactly when no package among the first `n`
/// needs the edge removed.
pub proof fn lemma_removes_upto_empty(graph: WorkspaceGraph, sel: PackageSelection, n: int)
    requires
        0 <= n,
    ensures
        removes_upto(graph, sel, n).len() == 0 <==> (forall|i: int|
            0 <= i < n ==> !needs_remove(graph, sel, i)),
    decreases n,
{
    if n > 0 {
        lemma_removes_upto_empty(graph, sel, n - 1);
    }
}

/// The explicit-removal plan is empty exactly when no selected package among
/// the first `n` carries the edge.
pub proof fn lemma_drops_upto_empty(graph: WorkspaceGraph, sel: PackageSelection, n: int)
    requires
        0 <= n,
    ensures
        drops_upto(graph, sel, n).len() == 0 <==> (forall|i: int|
            0 <= i < n ==> !needs_drop(graph, sel, i)),
    decreases n,
{
    if n > 0 {
        lemma_drops_upto_empty(graph, sel, n - 1);
    }
}

/// The edge column after the addition prefix for the first `n` packages:
/// an edge everywhere one was present or needed.
pub open spec fn add_effect(edges: Seq<bool>, graph: WorkspaceGraph, sel: PackageSelection, n: int) -> Seq<bool> {
    Seq::new(edges.len(), |i: int| edges[i] || (i < n && needs_add(graph, sel, i)))
}

/// The edge column after the removal suffix for the first `n` packages: an
/// edge everywhere one stood and no removal was needed.
pub open spec fn remove_effect(edges: Seq<bool>, graph: WorkspaceGraph, sel: PackageSelection, n: int) -> Seq<bool> {
    Seq::new(edges.len(), |i: int| edges[i] && !(i < n && needs_remove(graph, sel, i)))
}

/// The edge column after the explicit-removal plan for the first `n`
/// packages.
pub open spec fn drop_effect(edges: Seq<bool>, graph: WorkspaceGraph, sel: PackageSelection, n: int) -> Seq<bool> {
    Seq::new(edges.len(), |i: int| edges[i] && !(i < n && needs_drop(graph, sel, i)))
}

/// Effect of the addition prefix on the edge column.
pub proof fn lemma_apply_adds(edges: Seq<bool>, graph: WorkspaceGraph, sel: PackageSelection, n: int)
    requires
        0 <= n <= edges.len(),
        n <= usize::MAX as int,
    ensures
        apply_ops_edges(edges, adds_upto(graph, sel, n)) == add_effect(edges, graph, sel, n),
    decreases n,
{
    if n == 0 {
        assert(adds_upto(graph, sel, 0) =~= Seq::<Operation>::empty());
        assert(add_effect(edges, graph, sel, 0) =~= edges);
    } else {
        lemma_apply_adds(edges, graph, sel, n - 1);
        let a = adds_upto(graph, sel, n - 1);
        let r1 = add_effect(edges, graph, sel, n - 1);
        if needs_add(graph, sel, n - 1) {
            let op = Operation::AddDependency { package_index: (n - 1) as usize };
            assert(adds_upto(graph, sel, n) == a + seq![op]);
            lemma_apply_ops_app_one(edges, a, op);
            assert(r1.update(n - 1, true) =~= add_effect(edges, graph, sel, n));
        } else {
            assert(adds_upto(graph, sel, n) =~= a);
            assert(r1 =~= add_effect(edges, graph, sel, n));
        }
    }
}

/// Effect of the removal suffix on the edge column.
pub proof fn lemma_apply_removes(edges: Seq<bool>, graph: WorkspaceGraph, sel: PackageSelection, n: int)
    requires
        0 <= n <= edges.len(),
        n <= usize::MAX as int,
    ensures
        apply_ops_edges(edges, removes_upto(graph, sel, n)) == remove_effect(edges, graph, sel, n),
    decreases n,
{
    if n == 0 {
        assert(removes_upto(graph, sel, 0) =~= Seq::<Operation>::empty());
        assert(remove_effect(edges, graph, sel, 0) =~= edges);
    } else {
        lemma_apply_removes(edges, graph, sel, n - 1);
        let a = removes_upto(graph, sel, n - 1);
        let r1 = remove_effect(edges, graph, sel, n - 1);
        if needs_remove(graph, sel, n - 1) {
            let op = Operation::RemoveDependency { package_index: (n - 1) as usize };
            assert(removes_upto(graph, sel, n) == a + seq![op]);
            lemma_apply_ops_app_one(edges, a, op);
            assert(r1.update(n - 1, false) =~= remove_effect(edges, graph, sel, n));
        } else {
            assert(removes_upto(graph, sel, n) =~= a);
            assert(r1 =~= remove_effect(edges, graph, sel, n));
        }
    }
}

/// Effect of the explicit-removal plan on the edge column.
pub proof fn lemma_apply_drops(edges: Seq<bool>, graph: WorkspaceGraph, sel: PackageSelection, n: int)
    requires
        0 <= n <= edges.len(),
        n <= usize::MAX as int,
    ensures
        apply_ops_edges(edges, drops_upto(graph, sel, n)) == drop_effect(edges, graph, sel, n),
    decreases n,
{
    if n == 0 {
        assert(drops_upto(graph, sel, 0) =~= Seq::<Operation>::empty());
        assert(drop_effect(edges, graph, sel, 0) =~= edges);
    } else {
        lemma_apply_drops(edges, graph, sel, n - 1);
        let a = drops_upto(graph, sel, n - 1);
        let r1 = drop_effect(edges, graph, sel, n - 1);
        if needs_drop(graph, sel, n - 1) {
            let op = Operation::RemoveDependency { package_index: (n - 1) as usize };
            assert(drops_upto(graph, sel, n) == a + seq![op]);
            lemma_apply_ops_app_one(edges, a, op);
            assert(r1.update(n - 1, false) =~= drop_effect(edges, graph, sel, n));
        } else {
            assert(drops_upto(graph, sel, n) =~= a);
            assert(r1 =~= drop_effect(edges, graph, sel, n));
        }
    }
}

/// Effect of the whole membership plan: afterwards a package carries the
/// edge exactly when an addition was needed, or it already carried one and
/// no removal was needed.
pub proof fn lemma_manage_plan_effect(graph: WorkspaceGraph, sel: PackageSelection)
    requires
        graph.wf(),
        sel.wf(graph),
    ensures
        apply_ops_edges(edges_of(graph), manage_plan_ops(graph, sel)) == remove_effect(
            add_effect(edges_of(graph), graph, sel, graph.packages@.len() as int),
            graph,
            sel,
            graph.packages@.len() as int,
        ),
{
    let n = graph.packages@.len() as int;
    let edges = edges_of(graph);
    assert(edges.len() == n);
    assert(graph.packages@.len() <= usize::MAX) by {
        vstd::std_specs::vec::axiom_spec_len(&graph.packages);
    }
    let adds = adds_upto(graph, sel, n);
    let rems = removes_upto(graph, sel, n);
    lemma_apply_ops_concat(edges, adds, rems);
    lemma_apply_adds(edges, graph, sel, n);
    lemma_apply_removes(add_effect(edges, graph, sel, n), graph, sel, n);
}

/// Law (idempotence): applying the membership plan computed from one state,
/// then recomputing a membership plan from the resulting state with the same
/// selection, yields an empty plan.
pub proof fn lemma_manage_plan_idempotent(
    graph: WorkspaceGraph,
    applied: WorkspaceGraph,
    sel: PackageSelection,
)
    requires
        graph.wf(),
        sel.wf(graph),
        applied.packages@.len() == graph.packages@.len(),
        applied.aggregation_index == graph.aggregation_index,
        edges_of(applied) == apply_ops_edges(edges_of(graph), manage_plan_ops(graph, sel)),
    ensures
        manage_plan_ops(applied, sel).len() == 0,
{
    let n = graph.packages@.len() as int;
    lemma_manage_plan_effect(graph, sel);
    let edges = edges_of(graph);
    assert(edges.len() == n);
    assert forall|i: int| 0 <= i < n implies !needs_add(applied, sel, i) && !needs_remove(
        applied,
        sel,
        i,
    ) by {
        assert(edges_of(applied)[i] == applied.packages@[i].has_edge);
        assert(edges_of(graph)[i] == graph.packages@[i].has_edge);
        assert(edges_of(applied)[i] == (add_effect(edges, graph, sel, n)[i] && !(i < n
            && needs_remove(graph, sel, i))));
    }
    lemma_adds_upto_empty(applied, sel, n);
    lemma_removes_upto_empty(applied, sel, n);
}

/// Law (idempotence of explicit removal): applying the removal plan and
/// recomputing it for the same selection yields an empty plan.
pub proof fn lemma_remove_plan_idempotent(
    graph: WorkspaceGraph,
    applied: WorkspaceGraph,
    sel: PackageSelection,
)
    requires
        graph.wf(),
        sel.wf(graph),
        applied.packages@.len() == graph.packages@.len(),
        applied.aggregation_index == graph.aggregation_index,
        edges_of(applied) == apply_ops_edges(edges_of(graph), remove_plan_ops(graph, sel)),
    ensures
        remove_plan_ops(applied, sel).len() == 0,
{
    let n = graph.packages@.len() as int;
    assert(graph.packages@.len() <= usize::MAX) by {
        vstd::std_specs::vec::axiom_spec_len(&graph.packages);
    }
    let edges = edges_of(graph);
    assert(edges.len() == n);
    lemma_apply_drops(edges, graph, sel, n);
    assert forall|i: int| 0 <= i < n implies !needs_drop(applied, sel, i) by {
        assert(edges_of(applied)[i] == applied.packages@[i].has_edge);
        assert(edges_of(graph)[i] == graph.packages@[i].has_edge);
        assert(edges_of(applied)[i] == drop_effect(edges, graph, sel, n)[i]);
    }
    lemma_drops_upto_empty(applied, sel, n);
}

/// Law (no-op stability): the membership plan is empty exactly when the
/// graph state already matches the target for the selection, and the
/// explicit-removal plan is empty exactly when no selected package still
/// carries the edge.
pub proof fn lemma_no_op_stability(graph: WorkspaceGraph, sel: PackageSelection)
    requires
        graph.wf(),
        sel.wf(graph),
    ensures
        manage_plan_ops(graph, sel).len() == 0 <==> converged_for(graph, sel),
        remove_plan_ops(graph, sel).len() == 0 <==> (forall|i: int|
            0 <= i < graph.packages@.len() ==> !needs_drop(graph, sel, i)),
{
    let n = graph.packages@.len() as int;
    lemma_adds_upto_empty(graph, sel, n);
    lemma_removes_upto_empty(graph, sel, n);
    lemma_drops_upto_empty(graph, sel, n);
}

} // verus!
