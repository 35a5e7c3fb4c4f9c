//! What holds of every resolved workflow, profile and reference.
use crate::workflow::agent::{last_segment, profile_fault, role_of, AgentProfile, AgentProfileError};
use crate::workflow::compile::{
    node_reference_fault, reference_fault, CompileFault, CompiledNode, NodeAction,
};
use crate::workflow::model::WorkflowDefinition;
use crate::workflow::registry::WorkflowRegistry;
use crate::workflow::record_laws::picks;
use crate::workflow::resolve::unresolved;
use crate::workflow::source::{
    collide, matches_id, same_definition, wins, Candidate, WorkflowScope,
};
use crate::text::texts;
use vstd::prelude::*;

verus! {

/// The workflow that is resolved has the id that was asked for, and nothing that also has it
/// stands above it: a repository's definition comes before a user's, a user's before a built-in
/// one, within one source the higher version, and between equals the one loaded last.
pub proof fn law_the_nearest_source_wins(candidates: Seq<Candidate>, id: Seq<char>, w: int, i: int)
    requires
        wins(candidates, id, w),
        0 <= i < candidates.len(),
        candidates[i].definition.id@ == id,
    ensures
        0 <= w < candidates.len(),
        candidates[w].definition.id@ == id,
        candidates[i].scope == WorkflowScope::Repository ==> candidates[w].scope
            == WorkflowScope::Repository,
        candidates[i].scope == WorkflowScope::User ==> candidates[w].scope
            != WorkflowScope::BuiltIn,
        candidates[i].scope == candidates[w].scope ==> candidates[i].definition.version
            <= candidates[w].definition.version,
        candidates[i].scope == candidates[w].scope && candidates[i].definition.version
            == candidates[w].definition.version ==> i <= w,
{
    assert(matches_id(candidates, id, i));
}

/// Where a workflow of that id is defined at all, one of its definitions wins.
pub proof fn law_a_defined_workflow_is_resolved(candidates: Seq<Candidate>, id: Seq<char>, i: int)
    requires
        0 <= i < candidates.len(),
        candidates[i].definition.id@ == id,
    ensures
        exists|w: int| wins(candidates, id, w),
{
    let found = lemma_winner(candidates, id, candidates.len() as int);
    assert(matches_id(candidates, id, i));
    assert(wins(candidates, id, found->0));
}

proof fn lemma_winner(candidates: Seq<Candidate>, id: Seq<char>, n: int) -> (found: Option<int>)
    requires
        0 <= n <= candidates.len(),
    ensures
        match found {
            Some(w) => matches_id(candidates, id, w) && w < n && forall|k: int|
                #[trigger] matches_id(candidates, id, k) && k < n
                    ==> crate::workflow::source::yields_to(candidates, k, w),
            None => forall|k: int| k < n ==> !#[trigger] matches_id(candidates, id, k),
        },
    decreases n,
{
    if n == 0 {
        None
    } else {
        let before = lemma_winner(candidates, id, n - 1);
        if !matches_id(candidates, id, n - 1) {
            before
        } else if before is None || crate::workflow::source::yields_to(
            candidates,
            before->0,
            n - 1,
        ) {
            Some(n - 1)
        } else {
            before
        }
    }
}

/// Two definitions are the same only where they say the same: every part of the one is found in
/// the other.
pub proof fn law_same_definitions_say_the_same(a: WorkflowDefinition, b: WorkflowDefinition, i: int)
    requires
        same_definition(a, b),
    ensures
        a.schema_version == b.schema_version,
        a.id@ == b.id@,
        a.version == b.version,
        a.description is Some <==> b.description is Some,
        a.description is Some ==> a.description->0@ == b.description->0@,
        a.orchestration_reason == b.orchestration_reason,
        a.budget.maximum_agents == b.budget.maximum_agents,
        a.budget.maximum_duration_seconds == b.budget.maximum_duration_seconds,
        a.budget.maximum_cost_usd is Some <==> b.budget.maximum_cost_usd is Some,
        a.budget.maximum_cost_usd is Some && a.budget.maximum_cost_usd->0.bits
            != b.budget.maximum_cost_usd->0.bits ==> a.budget.maximum_cost_usd->0.zero()
            && b.budget.maximum_cost_usd->0.zero(),
        a.inputs.listed().len() == b.inputs.listed().len(),
        0 <= i < a.inputs.listed().len() ==> a.inputs.listed()[i].0@ == b.inputs.listed()[i].0@
            && a.inputs.listed()[i].1.input_type@ == b.inputs.listed()[i].1.input_type@
            && a.inputs.listed()[i].1.required == b.inputs.listed()[i].1.required,
        a.steps@.len() == b.steps@.len(),
        0 <= i < a.steps@.len() ==> {
            let x = a.steps@[i];
            let y = b.steps@[i];
            &&& x.id@ == y.id@
            &&& texts(x.depends_on@) == texts(y.depends_on@)
            &&& x.agent is Some <==> y.agent is Some
            &&& x.agent is Some ==> x.agent->0.role@ == y.agent->0.role@ && (
            x.agent->0.model_policy is Some <==> y.agent->0.model_policy is Some) && (
            x.agent->0.model_policy is Some ==> x.agent->0.model_policy->0@
                == y.agent->0.model_policy->0@)
            &&& x.tool is Some <==> y.tool is Some
            &&& x.tool is Some ==> x.tool->0@ == y.tool->0@
            &&& x.skill is Some <==> y.skill is Some
            &&& x.skill is Some ==> x.skill->0@ == y.skill->0@
            &&& x.workspace == y.workspace
            &&& x.approval == y.approval
            &&& x.retry == y.retry
            &&& texts(x.outputs@) == texts(y.outputs@)
        },
{
    if 0 <= i < a.steps@.len() {
        assert(crate::workflow::source::same_step(a.steps@[i], b.steps@[i]));
    }
    if 0 <= i < a.inputs.listed().len() {
        assert(a.inputs.listed()[i].0@ == b.inputs.listed()[i].0@);
    }
}

/// A definition is the same as itself, unless its cost ceiling is no number at all.
pub proof fn law_a_definition_is_the_same_as_itself(a: WorkflowDefinition)
    requires
        a.budget.maximum_cost_usd matches Some(usd) ==> !usd.not_a_number(),
    ensures
        same_definition(a, a),
{
}

/// A published version is immutable: two definitions of one id and version that do not say the
/// same collide, and nothing else does.
pub proof fn law_a_published_version_is_immutable(
    candidates: Seq<Candidate>,
    id: Seq<char>,
    i: int,
    j: int,
)
    requires
        0 <= i < candidates.len(),
        0 <= j < candidates.len(),
    ensures
        collide(candidates, id, i, j) <==> candidates[i].definition.id@ == id
            && candidates[j].definition.id@ == id && candidates[i].definition.version
            == candidates[j].definition.version && !same_definition(
            candidates[i].definition,
            candidates[j].definition,
        ),
{
}

/// A profile is taken exactly when its schema is the supported one and its id is not blank; a
/// refusal says which of the two is wrong.
pub proof fn law_a_profile_needs_a_schema_and_an_id(profile: AgentProfile)
    ensures
        profile_fault(profile) is None <==> profile.schema_version == 1 && exists|c: int|
            0 <= c < profile.id@.len() && !crate::text::is_space(#[trigger] profile.id@[c]),
        profile_fault(profile) matches Some(AgentProfileError::UnsupportedSchemaVersion {
            found,
            supported,
        }) ==> found == profile.schema_version && found != 1 && supported == 1,
        profile_fault(profile) == Some(AgentProfileError::EmptyId) ==> profile.schema_version == 1,
{
    if profile_fault(profile) is None {
        assert(!crate::text::blank(profile.id@));
    }
    if exists|c: int| 0 <= c < profile.id@.len() && !crate::text::is_space(
        #[trigger] profile.id@[c],
    ) {
        assert(!crate::text::blank(profile.id@));
    }
}

/// A profile fulfils the role it names, or where it names none the last part of its dotted id.
pub proof fn law_a_profile_fulfils_one_role(profile: AgentProfile, front: Seq<char>, end: Seq<char>)
    ensures
        profile.role matches Some(role) ==> role_of(profile) == role@,
        profile.role is None && profile.id@ == front + seq!['.'] + end && !end.contains('.')
            ==> role_of(profile) == end,
        profile.role is None && !profile.id@.contains('.') ==> role_of(profile) == profile.id@,
{
    let s = profile.id@;
    if profile.role is None {
        crate::workflow::agent::law_last_segment(s);
        if s == front + seq!['.'] + end && !end.contains('.') {
            lemma_segment(s, (front.len() + 1) as int, s.len() as int, end);
            assert(last_segment(s) =~= end);
        }
    }
}

proof fn lemma_segment(s: Seq<char>, start: int, n: int, end: Seq<char>)
    requires
        1 <= start <= n <= s.len(),
        s[start - 1] == '.',
        s.len() == start + end.len(),
        forall|i: int| start <= i < s.len() ==> #[trigger] s[i] == end[i - start],
        !end.contains('.'),
    ensures
        crate::workflow::agent::segment_start(s, n) == start,
    decreases n,
{
    if n > start {
        assert(s[n - 1] == end[n - 1 - start]);
        assert(end.contains(end[n - 1 - start]));
        lemma_segment(s, start, n - 1, end);
    }
}

/// The places of the agent nodes whose role nobody fulfils.
pub open spec fn unfulfilled(nodes: Seq<CompiledNode>, known: Set<Seq<char>>) -> spec_fn(int) -> bool {
    |k: int| nodes[k].action is Agent && !known.contains(nodes[k].action->role@)
}

/// What is reported as unresolved is each agent node whose role no profile fulfils, with that
/// role, in compiled order; a tool node is never reported.
pub proof fn law_unresolved_roles_are_those_nobody_fulfils(
    nodes: Seq<CompiledNode>,
    known: Set<Seq<char>>,
    n: int,
) -> (at: Seq<int>)
    requires
        0 <= n <= nodes.len(),
    ensures
        picks(at, n, unfulfilled(nodes, known)),
        at.len() == unresolved(nodes, known, n).len(),
        forall|a: int|
            0 <= a < at.len() ==> unresolved(nodes, known, n)[a] == (
                nodes[#[trigger] at[a]].id@,
                nodes[at[a]].action->role@,
            ),
    decreases n,
{
    if n == 0 {
        Seq::empty()
    } else {
        let at = law_unresolved_roles_are_those_nobody_fulfils(nodes, known, n - 1);
        crate::workflow::record_laws::lemma_picks_more(at, n - 1, unfulfilled(nodes, known));
        if unfulfilled(nodes, known)(n - 1) {
            at.push(n - 1)
        } else {
            at
        }
    }
}

/// Whether the registry has what the node refers to: its tool, under its name or with hyphens for
/// underscores; or its role, and its skill if it has one.
pub open spec fn resolvable<R: WorkflowRegistry + ?Sized>(node: CompiledNode, registry: &R) -> bool {
    match node.action {
        NodeAction::Tool { name } => registry.knows_tool(name@) || registry.knows_tool(
            name@.map_values(
                |c: char|
                    if c == '-' {
                        '_'
                    } else {
                        c
                    },
            ),
        ),
        NodeAction::Agent { role, model_policy, skill } => registry.knows_agent_role(role@) && (
        skill matches Some(s) ==> registry.knows_skill(s@)),
    }
}

/// References are refused exactly where one of them cannot be resolved, and the refusal names the
/// first node that has such a one and what it is.
pub proof fn law_references_are_checked<R: WorkflowRegistry + ?Sized>(
    nodes: Seq<CompiledNode>,
    registry: &R,
    k: int,
)
    requires
        0 <= k <= nodes.len(),
    ensures
        match reference_fault(nodes, registry, k) {
            None => forall|i: int|
                k <= i < nodes.len() ==> resolvable(#[trigger] nodes[i], registry),
            Some(fault) => exists|i: int|
                {
                    &&& k <= i < nodes.len()
                    &&& !resolvable(#[trigger] nodes[i], registry)
                    &&& forall|j: int| k <= j < i ==> resolvable(#[trigger] nodes[j], registry)
                    &&& match fault {
                        CompileFault::UnknownTool { step, tool } => step == nodes[i].id@
                            && (nodes[i].action matches NodeAction::Tool { name } && name@ == tool),
                        CompileFault::UnknownAgentRole { step, role } => step == nodes[i].id@
                            && (nodes[i].action matches NodeAction::Agent { role: r, .. } && r@
                            == role) && !registry.knows_agent_role(role),
                        CompileFault::UnknownSkill { step, skill } => step == nodes[i].id@
                            && (nodes[i].action matches NodeAction::Agent { skill: Some(s), .. }
                            && s@ == skill) && !registry.knows_skill(skill),
                        _ => false,
                    }
                },
        },
    decreases nodes.len() - k,
{
    if k < nodes.len() {
        let node = nodes[k];
        if node_reference_fault(node, registry) is None {
            law_references_are_checked(nodes, registry, k + 1);
            assert(resolvable(nodes[k], registry));
        } else {
            assert(!resolvable(nodes[k], registry));
        }
    }
}

} // verus!
