//! What an error tells whoever reads it.
use crate::text::{occurs, occurs_at};
use crate::workflow::budget::{breach_reason, BudgetDimension, BudgetExceeded, BudgetScope};
use crate::workflow::compile::CompileFault;
use crate::workflow::conductor::WorkflowFault;
use crate::workflow::store::{store_message, StoreFault};
use crate::workflow::wording::{compile_message, workflow_message};
use vstd::prelude::*;

verus! {

proof fn lemma_mentions(before: Seq<char>, part: Seq<char>, after: Seq<char>, whole: Seq<char>)
    requires
        whole == before + part + after,
    ensures
        occurs(whole, part),
{
    let at = before.len() as int;
    assert(whole.subrange(at, at + part.len()) =~= part);
    assert(occurs_at(whole, part, at));
}

proof fn lemma_ends(before: Seq<char>, part: Seq<char>, whole: Seq<char>)
    requires
        whole == before + part,
    ensures
        occurs(whole, part),
{
    assert(whole =~= before + part + Seq::<char>::empty());
    lemma_mentions(before, part, Seq::<char>::empty(), whole);
}

/// Why a definition does not compile is told with what is wrong with it: the step, and what it
/// names that is not there; the steps of a cycle; the versions; how many agents there are.
pub proof fn law_a_refusal_names_its_cause(fault: CompileFault)
    ensures
        ({
            let message = compile_message(fault);
            match fault {
                CompileFault::UnsupportedSchemaVersion { found, supported } => occurs(
                    message,
                    crate::text::decimal(found as nat),
                ) && occurs(message, crate::text::decimal(supported as nat)),
                CompileFault::InvalidVersion(v) => occurs(message, crate::text::decimal(v as nat)),
                CompileFault::DuplicateStepId(s) => occurs(message, s),
                CompileFault::StepMissingAction(s) => occurs(message, s),
                CompileFault::StepAmbiguousAction(s) => occurs(message, s),
                CompileFault::SkillWithoutAgent(s) => occurs(message, s),
                CompileFault::SelfDependency(s) => occurs(message, s),
                CompileFault::UnknownDependency { step, depends_on } => occurs(message, step)
                    && occurs(message, depends_on),
                CompileFault::Cycle(steps) => occurs(message, crate::text::joined(steps, ", "@)),
                CompileFault::InvalidBudget(why) => occurs(message, why),
                CompileFault::MissingOrchestrationReason { agent_steps } => occurs(
                    message,
                    crate::text::decimal(agent_steps as nat),
                ) && occurs(message, "`orchestration_reason`"@),
                CompileFault::UnknownTool { step, tool } => occurs(message, step) && occurs(
                    message,
                    tool,
                ),
                CompileFault::UnknownSkill { step, skill } => occurs(message, step) && occurs(
                    message,
                    skill,
                ),
                CompileFault::UnknownAgentRole { step, role } => occurs(message, step) && occurs(
                    message,
                    role,
                ),
                _ => message.len() > 0,
            }
        }),
{
    let message = compile_message(fault);
    match fault {
        CompileFault::UnsupportedSchemaVersion { found, supported } => {
            let a = crate::text::decimal(found as nat);
            let b = crate::text::decimal(supported as nat);
            let head = "unsupported schema_version "@;
            let mid = " (this build supports "@;
            assert(message =~= head + a + (mid + b + ")"@));
            lemma_mentions(head, a, mid + b + ")"@, message);
            lemma_mentions(head + a + mid, b, ")"@, message);
        },
        CompileFault::InvalidVersion(v) => lemma_ends(
            "workflow version must be >= 1, got "@,
            crate::text::decimal(v as nat),
            message,
        ),
        CompileFault::DuplicateStepId(s) => lemma_ends("duplicate step id: "@, s, message),
        CompileFault::StepMissingAction(s) => lemma_mentions(
            "step "@,
            s,
            " has no action (needs exactly one of `agent` or `tool`)"@,
            message,
        ),
        CompileFault::StepAmbiguousAction(s) => lemma_mentions(
            "step "@,
            s,
            " has both `agent` and `tool` (a step performs exactly one action)"@,
            message,
        ),
        CompileFault::SkillWithoutAgent(s) => lemma_mentions(
            "step "@,
            s,
            " declares a `skill` but has no `agent` to apply it"@,
            message,
        ),
        CompileFault::SelfDependency(s) => lemma_mentions(
            "step "@,
            s,
            " depends on itself"@,
            message,
        ),
        CompileFault::UnknownDependency { step, depends_on } => {
            lemma_two(step, " depends on unknown step "@, depends_on, message);
        },
        CompileFault::Cycle(steps) => lemma_ends(
            "workflow dependency graph has a cycle among: "@,
            crate::text::joined(steps, ", "@),
            message,
        ),
        CompileFault::InvalidBudget(why) => lemma_ends("invalid budget: "@, why, message),
        CompileFault::MissingOrchestrationReason { agent_steps } => {
            let n = crate::text::decimal(agent_steps as nat);
            let head = "a multi-agent workflow ("@;
            let tail = " agent steps) must declare an `orchestration_reason`"@;
            lemma_mentions(head, n, tail, message);
            reveal_strlit(" agent steps) must declare an `orchestration_reason`");
            reveal_strlit("`orchestration_reason`");
            reveal_strlit(" agent steps) must declare an ");
            assert(tail =~= " agent steps) must declare an "@ + "`orchestration_reason`"@);
            assert(message =~= (head + n + " agent steps) must declare an "@)
                + "`orchestration_reason`"@);
            lemma_ends(
                head + n + " agent steps) must declare an "@,
                "`orchestration_reason`"@,
                message,
            );
        },
        CompileFault::UnknownTool { step, tool } => {
            lemma_two(step, " names unknown tool "@, tool, message);
        },
        CompileFault::UnknownSkill { step, skill } => {
            lemma_two(step, " names unknown skill "@, skill, message);
        },
        CompileFault::UnknownAgentRole { step, role } => {
            lemma_two(step, " names unknown agent role "@, role, message);
        },
        _ => {
            reveal_strlit("workflow id must not be empty");
            reveal_strlit("workflow has no steps");
            reveal_strlit("a step has an empty id");
        },
    }
}

proof fn lemma_two(step: Seq<char>, mid: Seq<char>, last: Seq<char>, whole: Seq<char>)
    requires
        whole == "step "@ + step + mid + last,
    ensures
        occurs(whole, step),
        occurs(whole, last),
{
    assert(whole =~= "step "@ + step + (mid + last));
    lemma_mentions("step "@, step, mid + last, whole);
    lemma_ends("step "@ + step + mid, last, whole);
}

/// A breach is told with whose budget it was and of what, how much was used and what the limit is.
pub proof fn law_a_breach_is_told_with_its_numbers(e: BudgetExceeded)
    ensures
        ({
            let reason = breach_reason(e);
            &&& occurs(reason, crate::text::decimal(e.used as nat) + " used"@)
            &&& occurs(reason, "limit "@ + crate::text::decimal(e.limit as nat))
            &&& occurs(
                reason,
                match e.scope {
                    BudgetScope::Node => "node"@,
                    BudgetScope::Workflow => "workflow"@,
                } + " budget for `"@ + match e.dimension {
                    BudgetDimension::WallTime => "wall_time_secs"@,
                    BudgetDimension::ToolCalls => "tool_calls"@,
                    BudgetDimension::Cost => "cost_micros"@,
                },
            )
        }),
{
    let reason = breach_reason(e);
    let scope = crate::workflow::budget::scope_name(e.scope);
    let what = crate::workflow::budget::dimension_name(e.dimension);
    let used = crate::text::decimal(e.used as nat);
    let limit = crate::text::decimal(e.limit as nat);
    let head = "workflow.budget-exceeded: "@;
    reveal_strlit(" used, limit ");
    reveal_strlit(" used");
    reveal_strlit(", ");
    reveal_strlit("limit ");
    assert(" used, limit "@ =~= " used"@ + ", "@ + "limit "@);
    let front = head + scope + " budget for `"@ + what + "` exceeded ("@;
    assert(reason =~= front + (used + " used"@) + (", "@ + "limit "@ + limit + ")"@));
    lemma_mentions(front, used + " used"@, ", "@ + "limit "@ + limit + ")"@, reason);
    assert(reason =~= (front + used + " used"@ + ", "@) + ("limit "@ + limit) + ")"@);
    lemma_mentions(front + used + " used"@ + ", "@, "limit "@ + limit, ")"@, reason);
    let rest = "` exceeded ("@ + used + " used, limit "@ + limit + ")"@;
    assert(reason =~= head + (scope + " budget for `"@ + what) + rest);
    lemma_mentions(head, scope + " budget for `"@ + what, rest, reason);
}

/// What the store refuses is told with the run, the row, or both of the signatures.
pub proof fn law_a_stores_refusal_names_its_cause(fault: StoreFault)
    ensures
        ({
            let message = store_message(fault);
            match fault {
                StoreFault::Database(s) => message == s,
                StoreFault::Serde(s) => message == s,
                StoreFault::NotFound(s) => occurs(message, s),
                StoreFault::Corrupt(s) => occurs(message, s),
                StoreFault::GraphSignatureChanged { expected, found } => occurs(
                    message,
                    "expected "@ + expected,
                ) && occurs(message, "found "@ + found),
            }
        }),
{
    let message = store_message(fault);
    match fault {
        StoreFault::NotFound(s) => lemma_ends("no such workflow run: "@, s, message),
        StoreFault::Corrupt(s) => lemma_ends("corrupt workflow row: "@, s, message),
        StoreFault::GraphSignatureChanged { expected, found } => {
            let head = "workflow graph changed since the run started ("@;
            reveal_strlit("workflow graph changed since the run started (expected ");
            reveal_strlit("workflow graph changed since the run started (");
            reveal_strlit("expected ");
            reveal_strlit(", found ");
            reveal_strlit(", ");
            reveal_strlit("found ");
            assert("workflow graph changed since the run started (expected "@ =~= head
                + "expected "@);
            assert(", found "@ =~= ", "@ + "found "@);
            assert(message =~= head + ("expected "@ + expected) + (", found "@ + found + ")"@));
            lemma_mentions(head, "expected "@ + expected, ", found "@ + found + ")"@, message);
            assert(message =~= (head + "expected "@ + expected + ", "@) + ("found "@ + found)
                + ")"@);
            lemma_mentions(
                head + "expected "@ + expected + ", "@,
                "found "@ + found,
                ")"@,
                message,
            );
        },
        _ => {},
    }
}

/// A text that cannot be read is told with why, and one that can be read but not compiled with why
/// it does not compile.
pub proof fn law_a_manifest_is_refused_with_why(fault: WorkflowFault)
    ensures
        fault matches WorkflowFault::Parse(why) ==> occurs(workflow_message(fault), why),
        fault matches WorkflowFault::Compile(e) ==> workflow_message(fault) == compile_message(e),
{
    if let WorkflowFault::Parse(why) = fault {
        lemma_ends("invalid workflow manifest: "@, why, workflow_message(fault));
    }
}

} // verus!
