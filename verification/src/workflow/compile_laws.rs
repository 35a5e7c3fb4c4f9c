//! What holds of every compiled workflow.
use crate::text::{
    lemma_sorted, lemma_text_lt_asymmetric, lemma_text_lt_total, lemma_text_lt_transitive, sorted,
    text_le, texts,
};
use crate::workflow::compile::{
    compile_fault, compiled_from, dependency_fault, dependent_ids, depends, edge_fault, emission,
    emission_order, id_fault, lowered, next_ready, nodes_bytes, ready, signature_of, step_ids,
    unique, CompiledNode, CompiledWorkflow,
};
use crate::workflow::model::{WorkflowDefinition, WorkflowStep};
use vstd::prelude::*;

verus! {

/// Whether `order` lists distinct steps, each behind every step it depends on.
pub open spec fn respects_edges(steps: Seq<WorkflowStep>, order: Seq<int>) -> bool {
    &&& order.no_duplicates()
    &&& forall|k: int| 0 <= k < order.len() ==> 0 <= #[trigger] order[k] < steps.len()
    &&& forall|k: int, j: int|
        0 <= k < order.len() && 0 <= j < steps.len() && #[trigger] depends(steps, order[k], j)
            ==> order.take(k).contains(j)
}

proof fn lemma_first_ready(steps: Seq<WorkflowStep>, done: Seq<int>, i: int)
    requires
        0 <= i,
    ensures
        match next_ready(steps, done, i) {
            Some(k) => i <= k < steps.len() && ready(steps, done, k),
            None => forall|j: int| i <= j < steps.len() ==> !#[trigger] ready(steps, done, j),
        },
    decreases steps.len() - i,
{
    if i < steps.len() && !ready(steps, done, i) {
        lemma_first_ready(steps, done, i + 1);
    }
}

proof fn lemma_emission(steps: Seq<WorkflowStep>, done: Seq<int>)
    requires
        respects_edges(steps, done),
        done.len() <= steps.len(),
    ensures
        respects_edges(steps, emission(steps, done)),
        done.len() <= emission(steps, done).len() <= steps.len(),
        emission(steps, done).len() < steps.len() ==> forall|j: int|
            0 <= j < steps.len() ==> !#[trigger] ready(steps, emission(steps, done), j),
    decreases steps.len() - done.len(),
{
    if done.len() < steps.len() {
        lemma_first_ready(steps, done, 0);
        if let Some(i) = next_ready(steps, done, 0) {
            let more = done.push(i);
            assert forall|k: int, j: int|
                0 <= k < more.len() && 0 <= j < steps.len() && #[trigger] depends(
                    steps,
                    more[k],
                    j,
                ) implies more.take(k).contains(j) by {
                if k < done.len() {
                    assert(depends(steps, done[k], j));
                    assert(done.take(k) =~= more.take(k));
                } else {
                    assert(ready(steps, done, i));
                    assert(done =~= more.take(k));
                }
            }
            lemma_emission(steps, more);
        }
    }
}

/// The steps are emitted at most once each, never before a step they depend on.
pub proof fn law_emission_respects_edges(steps: Seq<WorkflowStep>)
    ensures
        respects_edges(steps, emission_order(steps)),
        emission_order(steps).len() <= steps.len(),
{
    assert(respects_edges(steps, Seq::<int>::empty()));
    lemma_emission(steps, Seq::empty());
}

pub proof fn lemma_distinct_below(s: Seq<int>, n: int)
    requires
        s.no_duplicates(),
        0 <= n,
        forall|k: int| 0 <= k < s.len() ==> 0 <= #[trigger] s[k] < n,
    ensures
        s.len() <= n,
        s.len() == n ==> forall|i: int| 0 <= i < n ==> #[trigger] s.contains(i),
    decreases n,
{
    if n == 0 {
        if s.len() > 0 {
            assert(s[0] < n);
        }
    } else if s.contains(n - 1) {
        let at = s.index_of(n - 1);
        let rest = s.remove(at);
        assert forall|k: int| 0 <= k < rest.len() implies 0 <= #[trigger] rest[k] < n - 1 by {
            if k < at {
                assert(rest[k] == s[k]);
            } else {
                assert(rest[k] == s[k + 1]);
            }
        }
        assert(rest.no_duplicates());
        lemma_distinct_below(rest, n - 1);
        assert forall|i: int| s.len() == n && 0 <= i < n implies #[trigger] s.contains(i) by {
            if i < n - 1 {
                assert(rest.contains(i));
                let k = rest.index_of(i);
                if k < at {
                    assert(s[k] == i);
                } else {
                    assert(s[k + 1] == i);
                }
            }
        }
    } else {
        assert forall|k: int| 0 <= k < s.len() implies 0 <= #[trigger] s[k] < n - 1 by {
            assert(s.contains(s[k]));
        }
        lemma_distinct_below(s, n - 1);
    }
}

/// A cycle is reported exactly when no order of the steps respects the edges: the
/// compiler never gives up on a graph that can be ordered.
pub proof fn law_cycle_iff_unorderable(steps: Seq<WorkflowStep>)
    ensures
        emission_order(steps).len() == steps.len() <==> exists|order: Seq<int>|
            respects_edges(steps, order) && #[trigger] order.len() == steps.len(),
{
    let done = emission_order(steps);
    assert(respects_edges(steps, Seq::<int>::empty()));
    lemma_emission(steps, Seq::empty());
    if done.len() == steps.len() {
        assert(respects_edges(steps, done) && done.len() == steps.len());
    } else if exists|order: Seq<int>|
        respects_edges(steps, order) && #[trigger] order.len() == steps.len() {
        let order = choose|order: Seq<int>|
            respects_edges(steps, order) && #[trigger] order.len() == steps.len();
        lemma_all_emitted(steps, order, done, order.len() as int);
        lemma_distinct_below(order, steps.len() as int);
        // Every step is in `order`, hence in `done`, which is then too long.
        assert forall|i: int| 0 <= i < steps.len() implies done.contains(i) by {
            assert(order.contains(i));
            let k = order.index_of(i);
            assert(done.contains(order[k]));
        }
        lemma_covering_is_long(done, steps.len() as int);
    }
}

/// A sequence that contains all of `0..n` has at least `n` elements.
pub proof fn lemma_covering_is_long(s: Seq<int>, n: int)
    requires
        0 <= n,
        forall|i: int| 0 <= i < n ==> s.contains(i),
    ensures
        s.len() >= n,
    decreases n,
{
    if n > 0 {
        assert(s.contains(n - 1));
        let at = s.index_of(n - 1);
        let rest = s.remove(at);
        assert forall|i: int| 0 <= i < n - 1 implies rest.contains(i) by {
            assert(s.contains(i));
            let k = s.index_of(i);
            if k < at {
                assert(rest[k] == i);
            } else {
                assert(rest[k - 1] == i);
            }
        }
        lemma_covering_is_long(rest, n - 1);
    }
}

proof fn lemma_all_emitted(steps: Seq<WorkflowStep>, order: Seq<int>, done: Seq<int>, n: int)
    requires
        respects_edges(steps, order),
        0 <= n <= order.len(),
        forall|j: int| 0 <= j < steps.len() ==> !#[trigger] ready(steps, done, j),
    ensures
        forall|k: int| 0 <= k < n ==> done.contains(#[trigger] order[k]),
    decreases n,
{
    if n > 0 {
        lemma_all_emitted(steps, order, done, n - 1);
        let i = order[n - 1];
        if !done.contains(i) {
            assert forall|j: int| 0 <= j < steps.len() && #[trigger] depends(
                steps,
                i,
                j,
            ) implies done.contains(j) by {
                assert(order.take(n - 1).contains(j));
                let m = order.take(n - 1).index_of(j);
                assert(order[m] == j);
            }
            assert(ready(steps, done, i));
        }
    }
}

/// Removing repetitions keeps every element, each exactly once.
pub proof fn law_unique(s: Seq<Seq<char>>)
    ensures
        unique(s).no_duplicates(),
        forall|x: Seq<char>| #[trigger] unique(s).contains(x) <==> s.contains(x),
    decreases s.len(),
{
    if s.len() > 0 {
        let front = s.drop_last();
        let u = unique(front);
        law_unique(front);
        assert forall|x: Seq<char>| #[trigger] unique(s).contains(x) <==> s.contains(x) by {
            if s.contains(x) {
                let k = s.index_of(x);
                if k < front.len() {
                    assert(front[k] == x);
                    assert(u.contains(x));
                    let m = u.index_of(x);
                    assert(unique(s)[m] == x);
                } else if !u.contains(s.last()) {
                    assert(unique(s)[u.len() as int] == x);
                }
            }
            if unique(s).contains(x) {
                let m = unique(s).index_of(x);
                assert(s[s.len() - 1] == s.last());
                if m < u.len() {
                    assert(u[m] == x);
                    assert(u.contains(x));
                    let k = front.index_of(x);
                    assert(s[k] == x);
                }
            }
        }
    }
}

proof fn lemma_distinct_ids(steps: Seq<WorkflowStep>, i: int)
    requires
        id_fault(steps, i) is None,
        0 <= i,
    ensures
        forall|a: int, b: int| 0 <= a < b < steps.len() && i <= b ==> step_ids(steps)[a] != step_ids(steps)[b],
    decreases steps.len() - i,
{
    if i < steps.len() {
        lemma_distinct_ids(steps, i + 1);
        assert forall|a: int, b: int| 0 <= a < b < steps.len() && i <= b implies step_ids(steps)[a] != step_ids(
            steps,
        )[b] by {
            if b == i {
                assert(step_ids(steps).take(i)[a] == step_ids(steps)[a]);
            }
        }
    }
}

proof fn lemma_edges_known(steps: Seq<WorkflowStep>, i: int, a: int, k: int)
    requires
        dependency_fault(steps, i) is None,
        0 <= i <= a < steps.len(),
        0 <= k < steps[a].depends_on@.len(),
    ensures
        step_ids(steps).contains(steps[a].depends_on@[k]@),
        steps[a].depends_on@[k]@ != steps[a].id@,
    decreases steps.len() - i,
{
    if i < a {
        lemma_edges_known(steps, i + 1, a, k);
    } else {
        lemma_edge_known(steps, a, 0, k);
    }
}

proof fn lemma_edge_known(steps: Seq<WorkflowStep>, a: int, from: int, k: int)
    requires
        edge_fault(steps, a, from) is None,
        0 <= from <= k < steps[a].depends_on@.len(),
    ensures
        step_ids(steps).contains(steps[a].depends_on@[k]@),
        steps[a].depends_on@[k]@ != steps[a].id@,
    decreases k - from,
{
    if from < k {
        lemma_edge_known(steps, a, from + 1, k);
    }
}

proof fn lemma_dependent_ids(steps: Seq<WorkflowStep>, id: Seq<char>, n: int)
    requires
        0 <= n <= steps.len(),
    ensures
        forall|x: Seq<char>|
            #[trigger] dependent_ids(steps, id, n).contains(x) <==> exists|b: int|
                0 <= b < n && (#[trigger] steps[b]).id@ == x && texts(steps[b].depends_on@).contains(id),
    decreases n,
{
    if n > 0 {
        lemma_dependent_ids(steps, id, n - 1);
        let before = dependent_ids(steps, id, n - 1);
        let now = dependent_ids(steps, id, n);
        assert forall|x: Seq<char>| #[trigger] now.contains(x) <==> exists|b: int|
            0 <= b < n && (#[trigger] steps[b]).id@ == x && texts(steps[b].depends_on@).contains(id) by {
            if now.contains(x) {
                let m = now.index_of(x);
                if m < before.len() {
                    assert(before[m] == x);
                    assert(before.contains(x));
                } else {
                    assert(steps[n - 1].id@ == x);
                }
            }
            if exists|b: int|
                0 <= b < n && (#[trigger] steps[b]).id@ == x && texts(steps[b].depends_on@).contains(id) {
                let b = choose|b: int|
                    0 <= b < n && (#[trigger] steps[b]).id@ == x && texts(steps[b].depends_on@).contains(id);
                if b < n - 1 {
                    assert(before.contains(x));
                    let m = before.index_of(x);
                    assert(now[m] == x);
                } else {
                    assert(now[before.len() as int] == x);
                }
            }
        }
    }
}

/// The ids of a workflow's nodes, in compiled order.
pub open spec fn node_ids(workflow: CompiledWorkflow) -> Seq<Seq<char>> {
    Seq::new(workflow.nodes@.len(), |k: int| workflow.nodes@[k].id@)
}

/// Every step becomes exactly one node: the node ids are distinct and are the step ids.
pub proof fn law_nodes_are_the_steps(workflow: CompiledWorkflow, definition: WorkflowDefinition)
    requires
        compile_fault(definition) is None,
        compiled_from(workflow, definition),
    ensures
        workflow.nodes@.len() == definition.steps@.len(),
        node_ids(workflow).no_duplicates(),
        forall|x: Seq<char>|
            #[trigger] node_ids(workflow).contains(x) <==> step_ids(definition.steps@).contains(x),
{
    let steps = definition.steps@;
    let order = emission_order(steps);
    let ids = node_ids(workflow);
    law_emission_respects_edges(steps);
    lemma_distinct_below(order, steps.len() as int);
    lemma_distinct_ids(steps, 0);
    assert forall|k: int| 0 <= k < ids.len() implies #[trigger] ids[k] == step_ids(steps)[order[k]] by {
        assert(lowered(workflow.nodes@[k], steps, order[k], k));
    }
    assert forall|a: int, b: int| 0 <= a < ids.len() && 0 <= b < ids.len() && a != b implies ids[a] != ids[b] by {
        assert(order[a] != order[b]);
        if order[a] < order[b] {
            assert(step_ids(steps)[order[a]] != step_ids(steps)[order[b]]);
        } else {
            assert(step_ids(steps)[order[b]] != step_ids(steps)[order[a]]);
        }
    }
    assert forall|x: Seq<char>| #[trigger] ids.contains(x) <==> step_ids(steps).contains(x) by {
        if ids.contains(x) {
            let k = ids.index_of(x);
            assert(step_ids(steps)[order[k]] == x);
        }
        if step_ids(steps).contains(x) {
            let i = step_ids(steps).index_of(x);
            assert(order.contains(i));
            let k = order.index_of(i);
            assert(ids[k] == x);
        }
    }
}

/// Every node stands behind all nodes it depends on, and each of its dependencies is a
/// node of the workflow other than itself.
pub proof fn law_dependencies_come_first(
    workflow: CompiledWorkflow,
    definition: WorkflowDefinition,
    k: int,
    dep: Seq<char>,
)
    requires
        compile_fault(definition) is None,
        compiled_from(workflow, definition),
        0 <= k < workflow.nodes@.len(),
        texts(workflow.nodes@[k].depends_on@).contains(dep),
    ensures
        node_ids(workflow).take(k).contains(dep),
{
    let steps = definition.steps@;
    let order = emission_order(steps);
    law_emission_respects_edges(steps);
    assert(lowered(workflow.nodes@[k], steps, order[k], k));
    let raw = texts(steps[order[k]].depends_on@);
    law_unique(raw);
    assert(unique(raw).contains(dep));
    let e = raw.index_of(dep);
    lemma_edges_known(steps, 0, order[k], e);
    let j = step_ids(steps).index_of(dep);
    assert(step_ids(steps).contains(dep));
    assert(depends(steps, order[k], j));
    assert(order.take(k).contains(j));
    let m = order.take(k).index_of(j);
    assert(lowered(workflow.nodes@[m], steps, order[m], m));
    assert(node_ids(workflow).take(k)[m] == dep);
}

/// `dependents` is the inverse of `depends_on`.
pub proof fn law_dependents_invert_dependencies(
    workflow: CompiledWorkflow,
    definition: WorkflowDefinition,
    a: int,
    b: int,
)
    requires
        compile_fault(definition) is None,
        compiled_from(workflow, definition),
        0 <= a < workflow.nodes@.len(),
        0 <= b < workflow.nodes@.len(),
    ensures
        texts(workflow.nodes@[a].dependents@).contains(workflow.nodes@[b].id@) <==> texts(
            workflow.nodes@[b].depends_on@,
        ).contains(workflow.nodes@[a].id@),
{
    let steps = definition.steps@;
    let order = emission_order(steps);
    law_emission_respects_edges(steps);
    lemma_distinct_ids(steps, 0);
    assert(lowered(workflow.nodes@[a], steps, order[a], a));
    assert(lowered(workflow.nodes@[b], steps, order[b], b));
    let ida = steps[order[a]].id@;
    let idb = steps[order[b]].id@;
    law_unique(texts(steps[order[b]].depends_on@));
    lemma_dependent_ids(steps, ida, steps.len() as int);
    if dependent_ids(steps, ida, steps.len() as int).contains(idb) {
        let c = choose|c: int|
            0 <= c < steps.len() && (#[trigger] steps[c]).id@ == idb && texts(
                steps[c].depends_on@,
            ).contains(ida);
        assert(step_ids(steps)[c] == step_ids(steps)[order[b]]);
        assert(c == order[b]);
    }
}

/// Every dependent of a node is a node behind it, which names it as a dependency.
pub proof fn law_dependents_come_later(
    workflow: CompiledWorkflow,
    definition: WorkflowDefinition,
    a: int,
    dependent: Seq<char>,
)
    requires
        compile_fault(definition) is None,
        compiled_from(workflow, definition),
        0 <= a < workflow.nodes@.len(),
        texts(workflow.nodes@[a].dependents@).contains(dependent),
    ensures
        exists|b: int|
            a < b < workflow.nodes@.len() && (#[trigger] workflow.nodes@[b]).id@ == dependent
                && texts(workflow.nodes@[b].depends_on@).contains(workflow.nodes@[a].id@),
{
    let steps = definition.steps@;
    let order = emission_order(steps);
    let ids = node_ids(workflow);
    law_emission_respects_edges(steps);
    assert(lowered(workflow.nodes@[a], steps, order[a], a));
    let ida = steps[order[a]].id@;
    lemma_dependent_ids(steps, ida, steps.len() as int);
    assert(dependent_ids(steps, ida, steps.len() as int).contains(dependent));
    let c = choose|c: int|
        0 <= c < steps.len() && (#[trigger] steps[c]).id@ == dependent && texts(
            steps[c].depends_on@,
        ).contains(ida);
    assert(step_ids(steps)[c] == dependent);
    assert(step_ids(steps).contains(dependent));
    law_nodes_are_the_steps(workflow, definition);
    assert(ids.contains(dependent));
    let b = ids.index_of(dependent);
    assert(workflow.nodes@[b].id@ == dependent);
    law_dependents_invert_dependencies(workflow, definition, a, b);
    law_dependencies_come_first(workflow, definition, b, workflow.nodes@[a].id@);
    let m = ids.take(b).index_of(workflow.nodes@[a].id@);
    assert(ids.take(b).contains(workflow.nodes@[a].id@));
    assert(ids.take(b)[m] == ids[m]);
    assert(ids[m] == ids[a]);
    assert(m == a);
}

/// Whether two workflows have the same shape: the same id and version, and place by
/// place the same node id, the same kind of action and the same dependencies, in
/// whatever order these are listed.
pub open spec fn same_shape(a: CompiledWorkflow, b: CompiledWorkflow) -> bool {
    &&& a.id@ == b.id@
    &&& a.version == b.version
    &&& a.nodes@.len() == b.nodes@.len()
    &&& forall|k: int|
        0 <= k < a.nodes@.len() ==> same_node_shape(#[trigger] a.nodes@[k], b.nodes@[k])
}

pub open spec fn same_node_shape(a: CompiledNode, b: CompiledNode) -> bool {
    &&& a.id@ == b.id@
    &&& (a.action is Agent <==> b.action is Agent)
    &&& sorted(texts(a.depends_on@)) == sorted(texts(b.depends_on@))
}

proof fn lemma_same_node_bytes(a: CompiledWorkflow, b: CompiledWorkflow, n: int)
    requires
        same_shape(a, b),
        0 <= n <= a.nodes@.len(),
    ensures
        nodes_bytes(a.nodes@, n) == nodes_bytes(b.nodes@, n),
    decreases n,
{
    if n > 0 {
        lemma_same_node_bytes(a, b, n - 1);
        assert(same_node_shape(a.nodes@[n - 1], b.nodes@[n - 1]));
    }
}

/// Workflows of the same shape have the same signature, whatever else differs.
pub proof fn law_same_shape_same_signature(a: CompiledWorkflow, b: CompiledWorkflow)
    requires
        same_shape(a, b),
    ensures
        signature_of(a) == signature_of(b),
{
    lemma_same_node_bytes(a, b, a.nodes@.len() as int);
}

/// Texts without repeats that are the same set are the same in order.
proof fn lemma_same_set_same_order(a: Seq<Seq<char>>, b: Seq<Seq<char>>)
    requires
        a.no_duplicates(),
        b.no_duplicates(),
        forall|x: Seq<char>| #[trigger] a.contains(x) <==> b.contains(x),
    ensures
        sorted(a) == sorted(b),
{
    broadcast use vstd::seq_lib::group_to_multiset_ensures;

    let leq = |x: Seq<char>, y: Seq<char>| text_le(x, y);
    lemma_sorted(a);
    lemma_sorted(b);
    a.lemma_multiset_has_no_duplicates();
    b.lemma_multiset_has_no_duplicates();
    assert forall|x: Seq<char>| a.to_multiset().count(x) == b.to_multiset().count(x) by {
        assert(a.contains(x) <==> a.to_multiset().count(x) > 0);
        assert(b.contains(x) <==> b.to_multiset().count(x) > 0);
        assert(a.contains(x) <==> b.contains(x));
        if a.contains(x) {
            assert(a.to_multiset().contains(x));
            assert(b.to_multiset().contains(x));
        }
    }
    assert(a.to_multiset() =~= b.to_multiset());
    assert forall|x: Seq<char>, y: Seq<char>| #[trigger] leq(x, y) && #[trigger] leq(
        y,
        x,
    ) implies x == y by {
        if x != y {
            lemma_text_lt_asymmetric(x, y);
        }
    }
    assert forall|x: Seq<char>, y: Seq<char>, z: Seq<char>| #[trigger] leq(x, y) && #[trigger] leq(
        y,
        z,
    ) implies leq(x, z) by {
        if x != y && y != z {
            lemma_text_lt_transitive(x, y, z);
        }
    }
    assert forall|x: Seq<char>, y: Seq<char>| #[trigger] leq(x, y) || #[trigger] leq(y, x) by {
        lemma_text_lt_total(x, y);
    }
    assert(vstd::relations::total_ordering(leq));
    assert(vstd::relations::sorted_by(sorted(a), leq));
    assert(vstd::relations::sorted_by(sorted(b), leq));
    vstd::seq_lib::lemma_sorted_unique(sorted(a), sorted(b), leq);
}

/// No node of a compiled workflow lists a dependency twice.
pub proof fn law_dependencies_are_listed_once(
    workflow: CompiledWorkflow,
    definition: WorkflowDefinition,
    k: int,
)
    requires
        compiled_from(workflow, definition),
        0 <= k < workflow.nodes@.len(),
    ensures
        texts(workflow.nodes@[k].depends_on@).no_duplicates(),
{
    let steps = definition.steps@;
    let order = emission_order(steps);
    assert(lowered(workflow.nodes@[k], steps, order[k], k));
    law_unique(texts(steps[order[k]].depends_on@));
}

/// Whether two nodes have the same id, the same kind of action and the same set of
/// dependencies, none of which is listed twice.
pub open spec fn same_edges(a: CompiledNode, b: CompiledNode) -> bool {
    &&& a.id@ == b.id@
    &&& (a.action is Agent <==> b.action is Agent)
    &&& texts(a.depends_on@).no_duplicates()
    &&& texts(b.depends_on@).no_duplicates()
    &&& forall|x: Seq<char>|
        #[trigger] texts(a.depends_on@).contains(x) <==> texts(b.depends_on@).contains(x)
}

/// Workflows with the same id and version, and place by place the same node id, kind of action
/// and set of dependencies, have the same signature, whatever else differs.
pub proof fn law_same_edges_same_signature(a: CompiledWorkflow, b: CompiledWorkflow)
    requires
        a.id@ == b.id@,
        a.version == b.version,
        a.nodes@.len() == b.nodes@.len(),
        forall|k: int|
            0 <= k < a.nodes@.len() ==> same_edges(#[trigger] a.nodes@[k], b.nodes@[k]),
    ensures
        signature_of(a) == signature_of(b),
{
    assert forall|k: int| 0 <= k < a.nodes@.len() implies same_node_shape(
        #[trigger] a.nodes@[k],
        b.nodes@[k],
    ) by {
        assert(same_edges(a.nodes@[k], b.nodes@[k]));
        lemma_same_set_same_order(
            texts(a.nodes@[k].depends_on@),
            texts(b.nodes@[k].depends_on@),
        );
    }
    law_same_shape_same_signature(a, b);
}

/// Compiling the same definition twice gives workflows of the same shape, and so the
/// same signature.
pub proof fn law_signature_is_stable(
    a: CompiledWorkflow,
    b: CompiledWorkflow,
    definition: WorkflowDefinition,
)
    requires
        compiled_from(a, definition),
        compiled_from(b, definition),
    ensures
        signature_of(a) == signature_of(b),
{
    let order = emission_order(definition.steps@);
    assert forall|k: int| 0 <= k < a.nodes@.len() implies same_node_shape(
        #[trigger] a.nodes@[k],
        b.nodes@[k],
    ) by {
        assert(lowered(a.nodes@[k], definition.steps@, order[k], k));
        assert(lowered(b.nodes@[k], definition.steps@, order[k], k));
    }
    law_same_shape_same_signature(a, b);
}

} // verus!
