//! What a definition must be to compile, and what it compiles to, step by step.
use crate::workflow::compile::{
    action_fault, agent_steps, compile_fault, compiled_from, dependency_fault, depends, edge_fault,
    emission, emission_order, id_fault, left_over, lowered, next_ready, ready, step_ids,
    CompileFault, CompiledNode, CompiledWorkflow, NodeAction,
};
use crate::text::{is_space, texts};
use crate::workflow::compile_laws::{law_unique, respects_edges};
use crate::workflow::model::{WorkflowDefinition, WorkflowStep, WorkspaceMode};
use vstd::prelude::*;

verus! {

proof fn lemma_two_agents(steps: Seq<WorkflowStep>, n: int, i: int, j: int)
    requires
        0 <= i < j < n <= steps.len(),
        steps[i].agent is Some,
        steps[j].agent is Some,
    ensures
        agent_steps(steps, n) >= 2,
    decreases n,
{
    if j == n - 1 {
        lemma_one_agent(steps, n - 1, i);
    } else {
        lemma_two_agents(steps, n - 1, i, j);
    }
}

proof fn lemma_one_agent(steps: Seq<WorkflowStep>, n: int, i: int)
    requires
        0 <= i < n <= steps.len(),
        steps[i].agent is Some,
    ensures
        agent_steps(steps, n) >= 1,
    decreases n,
{
    if i < n - 1 {
        lemma_one_agent(steps, n - 1, i);
    }
}

proof fn lemma_agents_exist(steps: Seq<WorkflowStep>, n: int) -> (i: int)
    requires
        0 <= n <= steps.len(),
        agent_steps(steps, n) >= 1,
    ensures
        0 <= i < n,
        steps[i].agent is Some,
    decreases n,
{
    if n > 0 && steps[n - 1].agent is Some {
        n - 1
    } else {
        lemma_agents_exist(steps, n - 1)
    }
}

/// A workflow with two agent steps, or more, compiles only with an orchestration reason.
pub proof fn law_several_agents_need_a_reason(definition: WorkflowDefinition, i: int, j: int)
    requires
        compile_fault(definition) is None,
        0 <= i < definition.steps@.len(),
        0 <= j < definition.steps@.len(),
        i != j,
        definition.steps@[i].agent is Some,
        definition.steps@[j].agent is Some,
    ensures
        definition.orchestration_reason is Some,
{
    let n = definition.steps@.len() as int;
    if i < j {
        lemma_two_agents(definition.steps@, n, i, j);
    } else {
        lemma_two_agents(definition.steps@, n, j, i);
    }
}

/// A workflow without two agent steps is never refused for want of a reason; nor is one that
/// gives a reason.
pub proof fn law_a_single_agent_needs_no_reason(definition: WorkflowDefinition)
    requires
        definition.orchestration_reason is Some || forall|i: int, j: int|
            0 <= i < j < definition.steps@.len() ==> !((#[trigger] definition.steps@[i]).agent is Some
                && (#[trigger] definition.steps@[j]).agent is Some),
    ensures
        !(compile_fault(definition) matches Some(f) && f is MissingOrchestrationReason),
{
    lemma_id_kinds(definition.steps@, 0);
    lemma_action_kinds(definition.steps@, 0);
    lemma_dependency_kinds(definition.steps@, 0);
    let steps = definition.steps@;
    let n = steps.len() as int;
    if agent_steps(steps, n) >= 2 && definition.orchestration_reason is None {
        lemma_agents_apart(steps, n);
        let (i, j) = choose|i: int, j: int|
            0 <= i < j < n && (#[trigger] steps[i]).agent is Some && (
            #[trigger] steps[j]).agent is Some;
        assert(definition.steps@[i].agent is Some && definition.steps@[j].agent is Some);
    }
}

proof fn lemma_agents_apart(steps: Seq<WorkflowStep>, n: int)
    requires
        0 <= n <= steps.len(),
        agent_steps(steps, n) >= 2,
    ensures
        exists|i: int, j: int|
            0 <= i < j < n && (#[trigger] steps[i]).agent is Some && (
            #[trigger] steps[j]).agent is Some,
    decreases n,
{
    if n > 0 {
        if steps[n - 1].agent is Some {
            let i = lemma_agents_exist(steps, n - 1);
            assert(steps[i].agent is Some && steps[n - 1].agent is Some);
        } else {
            lemma_agents_apart(steps, n - 1);
        }
    }
}

/// The number of agent steps that a refusal for want of a reason reports is the number of steps
/// that have an agent.
pub proof fn law_agents_are_counted(steps: Seq<WorkflowStep>)
    ensures
        agent_steps(steps, steps.len() as int) == Set::new(
            |i: int| 0 <= i < steps.len() && steps[i].agent is Some,
        ).len(),
{
    lemma_agents_counted(steps, steps.len() as int);
}

proof fn lemma_agents_counted(steps: Seq<WorkflowStep>, n: int)
    requires
        0 <= n <= steps.len(),
    ensures
        Set::new(|i: int| 0 <= i < n && steps[i].agent is Some).finite(),
        agent_steps(steps, n) == Set::new(|i: int| 0 <= i < n && steps[i].agent is Some).len(),
    decreases n,
{
    let now = Set::new(|i: int| 0 <= i < n && steps[i].agent is Some);
    if n == 0 {
        assert(now =~= Set::empty());
    } else {
        lemma_agents_counted(steps, n - 1);
        let was = Set::new(|i: int| 0 <= i < n - 1 && steps[i].agent is Some);
        if steps[n - 1].agent is Some {
            assert(now =~= was.insert(n - 1));
        } else {
            assert(now =~= was);
        }
    }
}

proof fn lemma_id_kinds(steps: Seq<WorkflowStep>, i: int)
    requires
        0 <= i,
    ensures
        id_fault(steps, i) matches Some(f) ==> f is EmptyStepId || f is DuplicateStepId,
    decreases steps.len() - i,
{
    if i < steps.len() {
        lemma_id_kinds(steps, i + 1);
    }
}

proof fn lemma_action_kinds(steps: Seq<WorkflowStep>, i: int)
    requires
        0 <= i,
    ensures
        action_fault(steps, i) matches Some(f) ==> f is StepMissingAction || f is StepAmbiguousAction
            || f is SkillWithoutAgent,
    decreases steps.len() - i,
{
    if i < steps.len() {
        lemma_action_kinds(steps, i + 1);
    }
}

proof fn lemma_edge_kinds(steps: Seq<WorkflowStep>, i: int, k: int)
    requires
        0 <= i < steps.len(),
        0 <= k,
    ensures
        edge_fault(steps, i, k) matches Some(f) ==> f is SelfDependency || f is UnknownDependency,
    decreases steps[i].depends_on@.len() - k,
{
    if k < steps[i].depends_on@.len() {
        lemma_edge_kinds(steps, i, k + 1);
    }
}

proof fn lemma_dependency_kinds(steps: Seq<WorkflowStep>, i: int)
    requires
        0 <= i,
    ensures
        dependency_fault(steps, i) matches Some(f) ==> f is SelfDependency || f is UnknownDependency,
    decreases steps.len() - i,
{
    if i < steps.len() {
        lemma_edge_kinds(steps, i, 0);
        lemma_dependency_kinds(steps, i + 1);
    }
}

proof fn lemma_ids_sound(steps: Seq<WorkflowStep>, i: int, k: int)
    requires
        0 <= i <= k < steps.len(),
        id_fault(steps, i) is None,
    ensures
        exists|c: int| 0 <= c < steps[k].id@.len() && !is_space(#[trigger] steps[k].id@[c]),
        forall|j: int| 0 <= j < k ==> (#[trigger] steps[j]).id@ != steps[k].id@,
    decreases k - i,
{
    if i < k {
        lemma_ids_sound(steps, i + 1, k);
    } else {
        assert forall|j: int| 0 <= j < k implies (#[trigger] steps[j]).id@ != steps[k].id@ by {
            assert(step_ids(steps).take(k)[j] == steps[j].id@);
        }
    }
}

proof fn lemma_actions_sound(steps: Seq<WorkflowStep>, i: int, k: int)
    requires
        0 <= i <= k < steps.len(),
        action_fault(steps, i) is None,
    ensures
        steps[k].agent is Some <==> steps[k].tool is None,
        steps[k].skill is Some ==> steps[k].agent is Some,
    decreases k - i,
{
    if i < k {
        lemma_actions_sound(steps, i + 1, k);
    }
}

proof fn lemma_edges_sound(steps: Seq<WorkflowStep>, i: int, k: int, d: int)
    requires
        0 <= i < steps.len(),
        0 <= k <= d < steps[i].depends_on@.len(),
        edge_fault(steps, i, k) is None,
    ensures
        steps[i].depends_on@[d]@ != steps[i].id@,
        exists|j: int| 0 <= j < steps.len() && (#[trigger] steps[j]).id@ == steps[i].depends_on@[d]@,
    decreases d - k,
{
    if k < d {
        lemma_edges_sound(steps, i, k + 1, d);
    } else {
        let name = steps[i].depends_on@[d]@;
        let j = step_ids(steps).index_of(name);
        assert(step_ids(steps)[j] == name);
        assert(steps[j].id@ == name);
    }
}

proof fn lemma_dependencies_sound(steps: Seq<WorkflowStep>, i: int, k: int, d: int)
    requires
        0 <= i <= k < steps.len(),
        0 <= d < steps[k].depends_on@.len(),
        dependency_fault(steps, i) is None,
    ensures
        steps[k].depends_on@[d]@ != steps[k].id@,
        exists|j: int| 0 <= j < steps.len() && (#[trigger] steps[j]).id@ == steps[k].depends_on@[d]@,
    decreases k - i,
{
    if i < k {
        lemma_dependencies_sound(steps, i + 1, k, d);
    } else {
        lemma_edges_sound(steps, k, 0, d);
    }
}

/// What compiles has a supported schema, an id and a version, and at least one step.
pub proof fn law_what_compiles_is_named(definition: WorkflowDefinition)
    requires
        compile_fault(definition) is None,
    ensures
        definition.schema_version == 1,
        definition.version >= 1,
        exists|c: int| 0 <= c < definition.id@.len() && !is_space(#[trigger] definition.id@[c]),
        definition.steps@.len() >= 1,
{
}

/// The steps of what compiles have names of their own, none of them blank.
pub proof fn law_compiled_steps_are_told_apart(definition: WorkflowDefinition, i: int, j: int)
    requires
        compile_fault(definition) is None,
        0 <= i < definition.steps@.len(),
        0 <= j < definition.steps@.len(),
    ensures
        exists|c: int|
            0 <= c < definition.steps@[i].id@.len() && !is_space(
                #[trigger] definition.steps@[i].id@[c],
            ),
        i != j ==> definition.steps@[i].id@ != definition.steps@[j].id@,
{
    lemma_ids_sound(definition.steps@, 0, i);
    lemma_ids_sound(definition.steps@, 0, j);
    if i < j {
        assert(definition.steps@[i].id@ != definition.steps@[j].id@);
    } else if j < i {
        assert(definition.steps@[j].id@ != definition.steps@[i].id@);
    }
}

/// Each step of what compiles either is given to an agent or calls a tool, never both; and only
/// an agent is given a skill.
pub proof fn law_compiled_steps_have_one_action(definition: WorkflowDefinition, i: int)
    requires
        compile_fault(definition) is None,
        0 <= i < definition.steps@.len(),
    ensures
        definition.steps@[i].agent is Some <==> definition.steps@[i].tool is None,
        definition.steps@[i].skill is Some ==> definition.steps@[i].agent is Some,
{
    lemma_actions_sound(definition.steps@, 0, i);
}

/// Each dependency of what compiles is another step of it.
pub proof fn law_compiled_dependencies_exist(definition: WorkflowDefinition, i: int, d: int)
    requires
        compile_fault(definition) is None,
        0 <= i < definition.steps@.len(),
        0 <= d < definition.steps@[i].depends_on@.len(),
    ensures
        exists|j: int|
            0 <= j < definition.steps@.len() && j != i && (#[trigger] definition.steps@[j]).id@
                == definition.steps@[i].depends_on@[d]@,
{
    lemma_dependencies_sound(definition.steps@, 0, i, d);
}

/// The budget of what compiles is sane: a cost ceiling is positive, a time ceiling and a cap on
/// agents are above zero, and where there is an agent step there is such a cap.
pub proof fn law_compiled_budgets_are_sane(definition: WorkflowDefinition, i: int)
    requires
        compile_fault(definition) is None,
        0 <= i < definition.steps@.len(),
    ensures
        definition.budget.maximum_cost_usd matches Some(usd) ==> 0 < usd.bits
            < 0x7ff0_0000_0000_0000,
        definition.budget.maximum_duration_seconds matches Some(n) ==> n > 0,
        definition.budget.maximum_agents matches Some(n) ==> n > 0,
        definition.steps@[i].agent is Some ==> definition.budget.maximum_agents is Some,
{
    if definition.steps@[i].agent is Some {
        lemma_one_agent(definition.steps@, definition.steps@.len() as int, i);
    }
}

proof fn lemma_ids_complete(steps: Seq<WorkflowStep>, i: int)
    requires
        0 <= i <= steps.len(),
        forall|k: int| 0 <= k < steps.len() ==> !crate::text::blank((#[trigger] steps[k]).id@),
        forall|j: int, k: int|
            0 <= j < k < steps.len() ==> (#[trigger] steps[j]).id@ != (#[trigger] steps[k]).id@,
    ensures
        id_fault(steps, i) is None,
    decreases steps.len() - i,
{
    if i < steps.len() {
        lemma_ids_complete(steps, i + 1);
        if step_ids(steps).take(i).contains(steps[i].id@) {
            let j = step_ids(steps).take(i).index_of(steps[i].id@);
            assert(steps[j].id@ != steps[i].id@);
        }
    }
}

proof fn lemma_actions_complete(steps: Seq<WorkflowStep>, i: int)
    requires
        0 <= i <= steps.len(),
        forall|k: int| #![trigger steps[k]]
            0 <= k < steps.len() ==> (steps[k].agent is Some <==> steps[k].tool is None) && (
            steps[k].skill is Some ==> steps[k].agent is Some),
    ensures
        action_fault(steps, i) is None,
    decreases steps.len() - i,
{
    if i < steps.len() {
        lemma_actions_complete(steps, i + 1);
    }
}

proof fn lemma_edges_complete(steps: Seq<WorkflowStep>, i: int, k: int)
    requires
        0 <= i < steps.len(),
        0 <= k,
        forall|d: int|
            0 <= d < steps[i].depends_on@.len() ==> (#[trigger] steps[i].depends_on@[d])@
                != steps[i].id@ && exists|j: int|
                0 <= j < steps.len() && (#[trigger] steps[j]).id@ == steps[i].depends_on@[d]@,
    ensures
        edge_fault(steps, i, k) is None,
    decreases steps[i].depends_on@.len() - k,
{
    if k < steps[i].depends_on@.len() {
        lemma_edges_complete(steps, i, k + 1);
        let name = steps[i].depends_on@[k]@;
        let j = choose|j: int| 0 <= j < steps.len() && (#[trigger] steps[j]).id@ == name;
        assert(step_ids(steps)[j] == name);
    }
}

proof fn lemma_dependencies_complete(steps: Seq<WorkflowStep>, i: int)
    requires
        0 <= i <= steps.len(),
        forall|k: int, d: int|
            0 <= k < steps.len() && 0 <= d < steps[k].depends_on@.len() ==> (
            #[trigger] steps[k].depends_on@[d])@ != steps[k].id@ && exists|j: int|
                0 <= j < steps.len() && (#[trigger] steps[j]).id@ == steps[k].depends_on@[d]@,
    ensures
        dependency_fault(steps, i) is None,
    decreases steps.len() - i,
{
    if i < steps.len() {
        lemma_edges_complete(steps, i, 0);
        lemma_dependencies_complete(steps, i + 1);
    }
}

/// Nothing else is asked for: a definition that has all of this, and whose steps can be put into
/// an order in which each comes behind those it depends on, compiles.
pub proof fn law_a_sound_definition_compiles(definition: WorkflowDefinition, order: Seq<int>)
    requires
        definition.schema_version == 1,
        definition.version >= 1,
        exists|c: int| 0 <= c < definition.id@.len() && !is_space(#[trigger] definition.id@[c]),
        definition.steps@.len() >= 1,
        forall|k: int|
            0 <= k < definition.steps@.len() ==> exists|c: int|
                0 <= c < (#[trigger] definition.steps@[k]).id@.len() && !is_space(
                    #[trigger] definition.steps@[k].id@[c],
                ),
        forall|j: int, k: int|
            0 <= j < k < definition.steps@.len() ==> (#[trigger] definition.steps@[j]).id@ != (
            #[trigger] definition.steps@[k]).id@,
        forall|k: int| #![trigger definition.steps@[k]]
            0 <= k < definition.steps@.len() ==> (definition.steps@[k].agent is Some
                <==> definition.steps@[k].tool is None) && (definition.steps@[k].skill is Some
                ==> definition.steps@[k].agent is Some),
        forall|k: int, d: int|
            0 <= k < definition.steps@.len() && 0 <= d < definition.steps@[k].depends_on@.len()
                ==> (#[trigger] definition.steps@[k].depends_on@[d])@ != definition.steps@[k].id@
                && exists|j: int|
                0 <= j < definition.steps@.len() && (#[trigger] definition.steps@[j]).id@
                    == definition.steps@[k].depends_on@[d]@,
        definition.budget.maximum_cost_usd matches Some(usd) ==> 0 < usd.bits
            < 0x7ff0_0000_0000_0000,
        definition.budget.maximum_duration_seconds matches Some(n) ==> n > 0,
        definition.budget.maximum_agents matches Some(n) ==> n > 0,
        definition.budget.maximum_agents is Some || forall|k: int|
            0 <= k < definition.steps@.len() ==> (#[trigger] definition.steps@[k]).agent is None,
        definition.orchestration_reason is Some || forall|i: int, j: int|
            0 <= i < j < definition.steps@.len() ==> !((#[trigger] definition.steps@[i]).agent is Some
                && (#[trigger] definition.steps@[j]).agent is Some),
        order.len() == definition.steps@.len(),
        order.no_duplicates(),
        forall|k: int| 0 <= k < order.len() ==> 0 <= #[trigger] order[k] < order.len(),
        forall|k: int, d: int|
            0 <= k < order.len() && 0 <= d < definition.steps@[order[k]].depends_on@.len()
                ==> exists|m: int|
                0 <= m < k && definition.steps@[#[trigger] order[m]].id@ == (
                #[trigger] definition.steps@[order[k]].depends_on@[d])@,
    ensures
        compile_fault(definition) is None,
{
    let steps = definition.steps@;
    let n = steps.len() as int;
    assert forall|k: int| 0 <= k < n implies !crate::text::blank((#[trigger] steps[k]).id@) by {
        assert(definition.steps@[k] == steps[k]);
        let c = choose|c: int|
            0 <= c < definition.steps@[k].id@.len() && !is_space(
                #[trigger] definition.steps@[k].id@[c],
            );
        assert(!is_space(steps[k].id@[c]));
    }
    assert forall|k: int, j: int| 0 <= k < order.len() && 0 <= j < n && #[trigger] depends(
        steps,
        order[k],
        j,
    ) implies order.take(k).contains(j) by {
        let names = texts(steps[order[k]].depends_on@);
        let d = names.index_of(steps[j].id@);
        assert(names[d] == definition.steps@[order[k]].depends_on@[d]@);
        let m = choose|m: int|
            0 <= m < k && definition.steps@[#[trigger] order[m]].id@
                == definition.steps@[order[k]].depends_on@[d]@;
        if order[m] < j {
            assert(definition.steps@[order[m]].id@ != definition.steps@[j].id@);
        } else if j < order[m] {
            assert(definition.steps@[j].id@ != definition.steps@[order[m]].id@);
        }
        assert(order.take(k)[m] == j);
    }
    assert(respects_edges(steps, order) && order.len() == steps.len());
    lemma_ids_complete(steps, 0);
    lemma_actions_complete(steps, 0);
    lemma_dependencies_complete(steps, 0);
    if agent_steps(steps, n) >= 1 {
        let i = lemma_agents_exist(steps, n);
        assert(definition.steps@[i].agent is Some);
    }
    law_a_single_agent_needs_no_reason(definition);
    crate::workflow::compile_laws::law_cycle_iff_unorderable(steps);
}

proof fn lemma_id_refusals(steps: Seq<WorkflowStep>, i: int)
    requires
        0 <= i,
    ensures
        match id_fault(steps, i) {
            Some(CompileFault::EmptyStepId) => exists|k: int|
                0 <= k < steps.len() && #[trigger] crate::text::blank(steps[k].id@),
            Some(CompileFault::DuplicateStepId(name)) => exists|j: int, k: int|
                0 <= j < k < steps.len() && (#[trigger] steps[j]).id@ == name && (
                #[trigger] steps[k]).id@ == name,
            _ => true,
        },
    decreases steps.len() - i,
{
    if i < steps.len() {
        lemma_id_refusals(steps, i + 1);
        let head = step_ids(steps).take(i);
        if head.contains(steps[i].id@) {
            let j = head.index_of(steps[i].id@);
            assert(head[j] == steps[i].id@);
            assert(steps[j].id@ == steps[i].id@);
        }
    }
}

proof fn lemma_action_refusals(steps: Seq<WorkflowStep>, i: int)
    requires
        0 <= i,
    ensures
        action_fault(steps, i) matches Some(f) ==> exists|k: int| #![trigger steps[k]]
            0 <= k < steps.len() && match f {
                CompileFault::StepMissingAction(name) => steps[k].id@ == name
                    && steps[k].agent is None && steps[k].tool is None,
                CompileFault::StepAmbiguousAction(name) => steps[k].id@ == name
                    && steps[k].agent is Some && steps[k].tool is Some,
                CompileFault::SkillWithoutAgent(name) => steps[k].id@ == name
                    && steps[k].skill is Some && steps[k].agent is None,
                _ => false,
            },
    decreases steps.len() - i,
{
    if i < steps.len() {
        lemma_action_refusals(steps, i + 1);
        let step = steps[i];
    }
}

proof fn lemma_edge_refusals(steps: Seq<WorkflowStep>, i: int, k: int)
    requires
        0 <= i < steps.len(),
        0 <= k,
    ensures
        match edge_fault(steps, i, k) {
            Some(CompileFault::SelfDependency(name)) => steps[i].id@ == name && texts(
                steps[i].depends_on@,
            ).contains(name),
            Some(CompileFault::UnknownDependency { step, depends_on }) => steps[i].id@ == step
                && texts(steps[i].depends_on@).contains(depends_on) && forall|j: int|
                0 <= j < steps.len() ==> (#[trigger] steps[j]).id@ != depends_on,
            _ => true,
        },
    decreases steps[i].depends_on@.len() - k,
{
    if k < steps[i].depends_on@.len() {
        lemma_edge_refusals(steps, i, k + 1);
        let names = texts(steps[i].depends_on@);
        let name = steps[i].depends_on@[k]@;
        assert(names[k] == name);
        assert forall|j: int| 0 <= j < steps.len() && !step_ids(steps).contains(
            name,
        ) implies (#[trigger] steps[j]).id@ != name by {
            assert(step_ids(steps)[j] == steps[j].id@);
        }
    }
}

proof fn lemma_dependency_refusals(steps: Seq<WorkflowStep>, i: int)
    requires
        0 <= i,
    ensures
        match dependency_fault(steps, i) {
            Some(CompileFault::SelfDependency(name)) => exists|k: int|
                0 <= k < steps.len() && (#[trigger] steps[k]).id@ == name && texts(
                    steps[k].depends_on@,
                ).contains(name),
            Some(CompileFault::UnknownDependency { step, depends_on }) => (exists|k: int|
                0 <= k < steps.len() && (#[trigger] steps[k]).id@ == step && texts(
                    steps[k].depends_on@,
                ).contains(depends_on)) && forall|j: int|
                0 <= j < steps.len() ==> (#[trigger] steps[j]).id@ != depends_on,
            _ => true,
        },
    decreases steps.len() - i,
{
    if i < steps.len() {
        lemma_dependency_refusals(steps, i + 1);
        lemma_edge_refusals(steps, i, 0);
        lemma_edge_kinds(steps, i, 0);
        let step = steps[i];
    }
}

/// A refusal tells the truth: the step it names is there and is at fault in the way it says.
pub proof fn law_refusals_are_true(definition: WorkflowDefinition)
    ensures
        ({
            let steps = definition.steps@;
            compile_fault(definition) matches Some(f) ==> match f {
                CompileFault::UnsupportedSchemaVersion { found, supported } => found
                    == definition.schema_version && supported == 1 && found != 1,
                CompileFault::EmptyId => forall|c: int|
                    0 <= c < definition.id@.len() ==> is_space(#[trigger] definition.id@[c]),
                CompileFault::InvalidVersion(v) => v == definition.version && v == 0,
                CompileFault::NoSteps => steps.len() == 0,
                CompileFault::EmptyStepId => exists|k: int|
                    0 <= k < steps.len() && #[trigger] crate::text::blank(steps[k].id@),
                CompileFault::DuplicateStepId(name) => exists|j: int, k: int|
                    0 <= j < k < steps.len() && (#[trigger] steps[j]).id@ == name && (
                    #[trigger] steps[k]).id@ == name,
                CompileFault::StepMissingAction(name) => exists|k: int| #![trigger steps[k]]
                    0 <= k < steps.len() && steps[k].id@ == name && steps[k].agent is None
                        && steps[k].tool is None,
                CompileFault::StepAmbiguousAction(name) => exists|k: int| #![trigger steps[k]]
                    0 <= k < steps.len() && steps[k].id@ == name && steps[k].agent is Some
                        && steps[k].tool is Some,
                CompileFault::SkillWithoutAgent(name) => exists|k: int| #![trigger steps[k]]
                    0 <= k < steps.len() && steps[k].id@ == name && steps[k].skill is Some
                        && steps[k].agent is None,
                CompileFault::SelfDependency(name) => exists|k: int|
                    0 <= k < steps.len() && (#[trigger] steps[k]).id@ == name && texts(
                        steps[k].depends_on@,
                    ).contains(name),
                CompileFault::UnknownDependency { step, depends_on } => (exists|k: int|
                    0 <= k < steps.len() && (#[trigger] steps[k]).id@ == step && texts(
                        steps[k].depends_on@,
                    ).contains(depends_on)) && forall|j: int|
                    0 <= j < steps.len() ==> (#[trigger] steps[j]).id@ != depends_on,
                CompileFault::InvalidBudget(_) => {
                    ||| definition.budget.maximum_cost_usd matches Some(usd) && !(0 < usd.bits
                        < 0x7ff0_0000_0000_0000)
                    ||| definition.budget.maximum_duration_seconds == Some(0u64)
                    ||| definition.budget.maximum_agents == Some(0u32)
                    ||| definition.budget.maximum_agents is None && exists|k: int|
                        0 <= k < steps.len() && (#[trigger] steps[k]).agent is Some
                },
                CompileFault::MissingOrchestrationReason { agent_steps: count } => {
                    &&& definition.orchestration_reason is None
                    &&& count >= 2
                    &&& count == Set::new(
                        |i: int| 0 <= i < steps.len() && steps[i].agent is Some,
                    ).len()
                },
                CompileFault::Cycle(names) => !exists|order: Seq<int>|
                    respects_edges(steps, order) && #[trigger] order.len() == steps.len(),
                _ => false,
            }
        }),
{
    let steps = definition.steps@;
    let n = steps.len() as int;
    lemma_id_refusals(steps, 0);
    lemma_id_kinds(steps, 0);
    lemma_action_refusals(steps, 0);
    lemma_action_kinds(steps, 0);
    lemma_dependency_refusals(steps, 0);
    lemma_dependency_kinds(steps, 0);
    law_agents_are_counted(steps);
    crate::workflow::compile_laws::law_cycle_iff_unorderable(steps);
    if agent_steps(steps, n) >= 1 {
        let i = lemma_agents_exist(steps, n);
        assert(steps[i].agent is Some);
    }
}

proof fn lemma_left_over(steps: Seq<WorkflowStep>, done: Seq<int>, n: int, name: Seq<char>)
    requires
        0 <= n <= steps.len(),
    ensures
        left_over(steps, done, n).contains(name) <==> exists|k: int|
            0 <= k < n && (#[trigger] steps[k]).id@ == name && !done.contains(k),
    decreases n,
{
    if n > 0 {
        lemma_left_over(steps, done, n - 1, name);
        let was = left_over(steps, done, n - 1);
        let now = left_over(steps, done, n);
        if now.contains(name) {
            let m = now.index_of(name);
            if m < was.len() {
                assert(was[m] == name);
                assert(was.contains(name));
            } else {
                assert(steps[n - 1].id@ == name);
            }
        }
        if was.contains(name) {
            let m = was.index_of(name);
            assert(now[m] == name);
        }
        if steps[n - 1].id@ == name && !done.contains(n - 1) {
            assert(now.last() == name);
        }
    }
}

/// A reported cycle names, in order, exactly the steps that could not be placed behind what they
/// depend on, and at least one of them.
pub proof fn law_a_cycle_names_the_stuck_steps(definition: WorkflowDefinition, name: Seq<char>)
    ensures
        compile_fault(definition) matches Some(CompileFault::Cycle(names)) ==> {
            &&& names.len() > 0
            &&& crate::text::in_order(names)
            &&& names.contains(name) <==> exists|k: int|
                0 <= k < definition.steps@.len() && (#[trigger] definition.steps@[k]).id@ == name
                    && !emission_order(definition.steps@).contains(k)
        },
{
    broadcast use vstd::seq_lib::group_to_multiset_ensures;

    let steps = definition.steps@;
    let n = steps.len() as int;
    let done = emission_order(steps);
    let left = left_over(steps, done, n);
    lemma_id_kinds(steps, 0);
    lemma_action_kinds(steps, 0);
    lemma_dependency_kinds(steps, 0);
    lemma_left_over(steps, done, n, name);
    crate::text::lemma_sorted(left);
    let names = crate::text::sorted(left);
    assert(names.contains(name) <==> names.to_multiset().count(name) > 0);
    assert(left.contains(name) <==> left.to_multiset().count(name) > 0);
    if done.len() != n {
        crate::workflow::compile_laws::law_emission_respects_edges(steps);
        if left.len() == 0 {
            assert forall|k: int| 0 <= k < n implies done.contains(k) by {
                lemma_left_over(steps, done, n, steps[k].id@);
                if !done.contains(k) {
                    assert(left.contains(steps[k].id@));
                }
            }
            crate::workflow::compile_laws::lemma_covering_is_long(done, n);
        }
    }
}

/// Each step becomes one node, which does what the step says: the same agent or tool, the same
/// dependencies, each once, the same approval and outputs, and where the step says nothing else a
/// single attempt and the shared worktree.
pub proof fn law_a_node_does_what_its_step_says(
    workflow: CompiledWorkflow,
    definition: WorkflowDefinition,
    i: int,
)
    requires
        compile_fault(definition) is None,
        compiled_from(workflow, definition),
        0 <= i < definition.steps@.len(),
    ensures
        exists|k: int|
            0 <= k < workflow.nodes@.len() && ({
                let node = #[trigger] workflow.nodes@[k];
                let step = definition.steps@[i];
                &&& node.id@ == step.id@
                &&& node.topo_order == k
                &&& step.agent matches Some(agent) ==> (node.action matches NodeAction::Agent {
                    role,
                    model_policy,
                    skill,
                } && role == agent.role && model_policy == agent.model_policy && skill
                    == step.skill)
                &&& step.tool matches Some(tool) ==> node.action == NodeAction::Tool { name: tool }
                &&& texts(node.depends_on@).no_duplicates()
                &&& forall|x: Seq<char>|
                    #[trigger] texts(node.depends_on@).contains(x) <==> texts(
                        step.depends_on@,
                    ).contains(x)
                &&& node.approval == step.approval
                &&& node.outputs@ == step.outputs@
                &&& step.retry matches Some(r) ==> node.retry == r
                &&& step.retry is None ==> node.retry.attempts == 1 && node.retry.backoff_seconds
                    == 0
                &&& step.workspace matches Some(w) ==> node.workspace_mode == w.mode
                &&& step.workspace is None ==> node.workspace_mode == WorkspaceMode::SharedWorktree
            }),
        workflow.nodes@.len() == definition.steps@.len(),
        workflow.id@ == definition.id@,
        workflow.version == definition.version,
        workflow.inputs@ == definition.inputs@,
        workflow.budget == definition.budget,
        workflow.orchestration_reason == definition.orchestration_reason,
{
    let steps = definition.steps@;
    let order = emission_order(steps);
    crate::workflow::compile_laws::law_emission_respects_edges(steps);
    crate::workflow::compile_laws::lemma_distinct_below(order, steps.len() as int);
    assert(order.contains(i));
    let k = order.index_of(i);
    assert(lowered(workflow.nodes@[k], steps, order[k], k));
    law_unique(texts(steps[i].depends_on@));
    law_compiled_steps_have_one_action(definition, i);
}

proof fn lemma_next_is(steps: Seq<WorkflowStep>, done: Seq<int>, i: int, k: int)
    requires
        0 <= i <= k < steps.len(),
        ready(steps, done, k),
        forall|j: int| i <= j < k ==> done.contains(j),
    ensures
        next_ready(steps, done, i) == Some(k),
    decreases k - i,
{
    if i < k {
        assert(done.contains(i));
        lemma_next_is(steps, done, i + 1, k);
    }
}

proof fn lemma_in_order(steps: Seq<WorkflowStep>, k: int)
    requires
        0 <= k <= steps.len(),
        forall|i: int, j: int|
            0 <= i < steps.len() && 0 <= j < steps.len() && #[trigger] depends(steps, i, j) ==> j
                < i,
    ensures
        emission(steps, Seq::new(k as nat, |i: int| i)) == Seq::new(steps.len(), |i: int| i),
    decreases steps.len() - k,
{
    let done = Seq::new(k as nat, |i: int| i);
    if k < steps.len() {
        assert forall|j: int| 0 <= j < k implies #[trigger] done.contains(j) by {
            assert(done[j] == j);
        }
        assert(ready(steps, done, k));
        lemma_next_is(steps, done, 0, k);
        assert(done.push(k) =~= Seq::new((k + 1) as nat, |i: int| i));
        lemma_in_order(steps, k + 1);
    }
}

/// A definition whose steps already stand behind what they depend on keeps its order.
pub proof fn law_an_ordered_definition_keeps_its_order(
    workflow: CompiledWorkflow,
    definition: WorkflowDefinition,
    k: int,
)
    requires
        compiled_from(workflow, definition),
        compile_fault(definition) is None,
        0 <= k < definition.steps@.len(),
        forall|i: int, j: int|
            0 <= i < definition.steps@.len() && 0 <= j < definition.steps@.len() && texts(
                (#[trigger] definition.steps@[i]).depends_on@,
            ).contains((#[trigger] definition.steps@[j]).id@) ==> j < i,
    ensures
        workflow.nodes@[k].id@ == definition.steps@[k].id@,
{
    let steps = definition.steps@;
    assert forall|i: int, j: int|
        0 <= i < steps.len() && 0 <= j < steps.len() && #[trigger] depends(
            steps,
            i,
            j,
        ) implies j < i by {
        assert(texts(definition.steps@[i].depends_on@).contains(definition.steps@[j].id@));
    }
    lemma_in_order(steps, 0);
    assert(Seq::new(0, |i: int| i) =~= Seq::<int>::empty());
    assert(lowered(workflow.nodes@[k], steps, emission_order(steps)[k], k));
}

/// The agents of a graph are counted: as many as there are nodes that an agent works on.
pub proof fn law_agent_nodes_are_counted(nodes: Seq<CompiledNode>)
    ensures
        crate::workflow::compile::agent_nodes(nodes, nodes.len() as int) == nodes.filter(
            |node: CompiledNode| node.action is Agent,
        ).len(),
    decreases nodes.len(),
{
    reveal(Seq::filter);
    if nodes.len() > 0 {
        let front = nodes.drop_last();
        law_agent_nodes_are_counted(front);
        lemma_same_agents(nodes, front, front.len() as int);
    }
}

proof fn lemma_same_agents(a: Seq<CompiledNode>, b: Seq<CompiledNode>, n: int)
    requires
        0 <= n <= a.len(),
        n <= b.len(),
        forall|i: int| 0 <= i < n ==> #[trigger] a[i] == b[i],
    ensures
        crate::workflow::compile::agent_nodes(a, n) == crate::workflow::compile::agent_nodes(b, n),
    decreases n,
{
    if n > 0 {
        lemma_same_agents(a, b, n - 1);
    }
}

} // verus!
