//! What holds of every charge against a budget.
use crate::workflow::budget::{
    BudgetDimension, BudgetLimits, BudgetScope, BudgetWarning, NodeCost,
    VerdictModel,
};
use vstd::prelude::*;

verus! {


/// A workflow whose nodes together spent more than its cost ceiling is over budget, whichever of
/// them spent it: the others alone, this node alone, or both together. An unmeasured part counts
/// as nothing. (A total is never counted above the largest number there is.)
pub proof fn law_an_overspent_workflow_is_exceeded(
    limits: BudgetLimits,
    others: NodeCost,
    cost: NodeCost,
    limit: u64,
)
    requires
        limits.workflow_max_cost_micros == Some(limit),
        limit < u64::MAX,
    ensures
        others.cost_micros is Some && cost.cost_micros is None && others.cost_micros->0 > limit
            ==> crate::workflow::budget::verdict_of(limits, others, cost) is Exceeded,
        others.cost_micros is None && cost.cost_micros is Some && cost.cost_micros->0 > limit
            ==> crate::workflow::budget::verdict_of(limits, others, cost) is Exceeded,
        others.cost_micros is Some && cost.cost_micros is Some && others.cost_micros->0
            + cost.cost_micros->0 > limit ==> crate::workflow::budget::verdict_of(
            limits,
            others,
            cost,
        ) is Exceeded,
{
    reveal_with_fuel(crate::workflow::budget::verdict_from, 6);
}

/// A workflow whose nodes together ran longer than its ceiling is over budget; so is one whose
/// other nodes alone did, before this node has run at all.
pub proof fn law_an_overlong_workflow_is_exceeded(
    limits: BudgetLimits,
    others: NodeCost,
    cost: NodeCost,
    limit: u64,
)
    requires
        limits.workflow_max_wall_secs == Some(limit),
        limit < u64::MAX,
        others.wall_time_secs + cost.wall_time_secs > limit,
    ensures
        crate::workflow::budget::verdict_of(limits, others, cost) is Exceeded,
{
    reveal_with_fuel(crate::workflow::budget::verdict_from, 6);
}

/// A node that took more of anything than its own slice allows is over budget, whatever the
/// others took.
pub proof fn law_an_overspent_node_is_exceeded(
    limits: BudgetLimits,
    others: NodeCost,
    cost: NodeCost,
    limit: u64,
)
    ensures
        limits.node_max_wall_secs == Some(limit) && cost.wall_time_secs > limit
            ==> crate::workflow::budget::verdict_of(limits, others, cost) is Exceeded,
        limits.node_max_tool_calls == Some(limit) && cost.tool_calls > limit
            ==> crate::workflow::budget::verdict_of(limits, others, cost) is Exceeded,
        limits.node_max_cost_micros == Some(limit) && cost.cost_micros is Some
            && cost.cost_micros->0 > limit ==> crate::workflow::budget::verdict_of(
            limits,
            others,
            cost,
        ) is Exceeded,
{
    reveal_with_fuel(crate::workflow::budget::verdict_from, 6);
}

/// Nothing else is over budget: what is reported as a breach is a ceiling that was set, and an
/// amount above it that the node, or all nodes together, did use.
pub proof fn law_a_breach_is_real(limits: BudgetLimits, others: NodeCost, cost: NodeCost)
    ensures
        crate::workflow::budget::verdict_of(limits, others, cost) matches VerdictModel::Exceeded(
            e,
        ) ==> {
            &&& e.used > e.limit
            &&& match (e.scope, e.dimension) {
                (BudgetScope::Node, BudgetDimension::WallTime) => limits.node_max_wall_secs
                    == Some(e.limit) && e.used == cost.wall_time_secs,
                (BudgetScope::Node, BudgetDimension::ToolCalls) => limits.node_max_tool_calls
                    == Some(e.limit) && e.used == cost.tool_calls,
                (BudgetScope::Node, BudgetDimension::Cost) => limits.node_max_cost_micros == Some(
                    e.limit,
                ) && cost.cost_micros == Some(e.used),
                (BudgetScope::Workflow, BudgetDimension::WallTime) => limits.workflow_max_wall_secs
                    == Some(e.limit) && (e.used == others.wall_time_secs + cost.wall_time_secs
                    || e.used == u64::MAX < others.wall_time_secs + cost.wall_time_secs),
                (BudgetScope::Workflow, BudgetDimension::Cost) => {
                    let total = (match others.cost_micros {
                        Some(n) => n as int,
                        None => 0,
                    }) + (match cost.cost_micros {
                        Some(n) => n as int,
                        None => 0,
                    });
                    limits.workflow_max_cost_micros == Some(e.limit) && (e.used == total || e.used
                        == u64::MAX < total)
                },
                (BudgetScope::Workflow, BudgetDimension::ToolCalls) => false,
            }
        },
{
    reveal_with_fuel(crate::workflow::budget::verdict_from, 6);
}

/// The node's own slice is checked before the workflow's envelope: a breach of the envelope is
/// reported only where the node kept to its slice.
pub proof fn law_the_slice_comes_first(limits: BudgetLimits, others: NodeCost, cost: NodeCost)
    ensures
        crate::workflow::budget::verdict_of(limits, others, cost) matches VerdictModel::Exceeded(
            e,
        ) && e.scope == BudgetScope::Workflow ==> {
            &&& limits.node_max_wall_secs matches Some(n) ==> cost.wall_time_secs <= n
            &&& limits.node_max_tool_calls matches Some(n) ==> cost.tool_calls <= n
            &&& limits.node_max_cost_micros matches Some(n) ==> (cost.cost_micros matches Some(c)
                ==> c <= n)
        },
{
    reveal_with_fuel(crate::workflow::budget::verdict_from, 6);
}

proof fn lemma_warned(lines: Seq<crate::workflow::budget::BudgetLine>, n: int, k: int)
    requires
        0 <= k < n <= lines.len(),
        crate::workflow::budget::near(lines[k]),
    ensures
        crate::workflow::budget::warnings_of(lines, n).contains(
            crate::workflow::budget::warning_of(lines[k]),
        ),
    decreases n,
{
    let w = crate::workflow::budget::warning_of(lines[k]);
    let all = crate::workflow::budget::warnings_of(lines, n);
    if k == n - 1 {
        assert(all.last() == w);
    } else {
        lemma_warned(lines, n - 1, k);
        let before = crate::workflow::budget::warnings_of(lines, n - 1);
        let j = before.index_of(w);
        assert(all[j] == w);
    }
}

/// Whoever is within budget but has used at least four fifths of a ceiling is warned of it, with
/// what was used and what the ceiling is.
pub proof fn law_four_fifths_of_a_ceiling_warn(
    limits: BudgetLimits,
    others: NodeCost,
    cost: NodeCost,
    limit: u64,
    used: u64,
)
    requires
        0 < used,
        5 * used >= 4 * limit,
    ensures
        crate::workflow::budget::verdict_of(limits, others, cost) matches VerdictModel::Within {
            warnings,
        } ==> {
            &&& limits.node_max_wall_secs == Some(limit) && cost.wall_time_secs == used
                ==> warnings.contains(
                BudgetWarning {
                    dimension: BudgetDimension::WallTime,
                    scope: BudgetScope::Node,
                    used,
                    limit,
                },
            )
            &&& limits.node_max_tool_calls == Some(limit) && cost.tool_calls == used
                ==> warnings.contains(
                BudgetWarning {
                    dimension: BudgetDimension::ToolCalls,
                    scope: BudgetScope::Node,
                    used,
                    limit,
                },
            )
            &&& limits.node_max_cost_micros == Some(limit) && cost.cost_micros == Some(used)
                ==> warnings.contains(
                BudgetWarning {
                    dimension: BudgetDimension::Cost,
                    scope: BudgetScope::Node,
                    used,
                    limit,
                },
            )
            &&& limits.workflow_max_wall_secs == Some(limit) && others.wall_time_secs
                + cost.wall_time_secs == used ==> warnings.contains(
                BudgetWarning {
                    dimension: BudgetDimension::WallTime,
                    scope: BudgetScope::Workflow,
                    used,
                    limit,
                },
            )
            &&& limits.workflow_max_cost_micros == Some(limit) && (match others.cost_micros {
                Some(n) => n as int,
                None => 0,
            }) + (match cost.cost_micros {
                Some(n) => n as int,
                None => 0,
            }) == used ==> warnings.contains(
                BudgetWarning {
                    dimension: BudgetDimension::Cost,
                    scope: BudgetScope::Workflow,
                    used,
                    limit,
                },
            )
        },
{
    reveal_with_fuel(crate::workflow::budget::verdict_from, 6);
    let lines = crate::workflow::budget::budget_lines(limits, others, cost);
    assert forall|k: int| 0 <= k < 5 && crate::workflow::budget::near(
        #[trigger] lines[k],
    ) implies crate::workflow::budget::warnings_of(lines, 5).contains(
        crate::workflow::budget::warning_of(lines[k]),
    ) by {
        lemma_warned(lines, 5, k);
    }
    assert(lines[0].scope == BudgetScope::Node);
    assert(lines[1].scope == BudgetScope::Node);
    assert(lines[2].scope == BudgetScope::Node);
    assert(lines[3].scope == BudgetScope::Workflow);
    assert(lines[4].scope == BudgetScope::Workflow);
}

/// A warning is real: a ceiling that was set, and an amount that is not above it but makes up at
/// least four fifths of it.
pub proof fn law_a_warning_is_real(
    limits: BudgetLimits,
    others: NodeCost,
    cost: NodeCost,
    i: int,
)
    ensures
        crate::workflow::budget::verdict_of(limits, others, cost) matches VerdictModel::Within {
            warnings,
        } ==> (0 <= i < warnings.len() ==> {
            let w = warnings[i];
            &&& 0 < w.used <= w.limit
            &&& 5 * w.used >= 4 * w.limit
            &&& match (w.scope, w.dimension) {
                (BudgetScope::Node, BudgetDimension::WallTime) => limits.node_max_wall_secs
                    == Some(w.limit) && w.used == cost.wall_time_secs,
                (BudgetScope::Node, BudgetDimension::ToolCalls) => limits.node_max_tool_calls
                    == Some(w.limit) && w.used == cost.tool_calls,
                (BudgetScope::Node, BudgetDimension::Cost) => limits.node_max_cost_micros == Some(
                    w.limit,
                ) && cost.cost_micros == Some(w.used),
                (BudgetScope::Workflow, BudgetDimension::WallTime) => limits.workflow_max_wall_secs
                    == Some(w.limit),
                (BudgetScope::Workflow, BudgetDimension::Cost) => limits.workflow_max_cost_micros
                    == Some(w.limit),
                (BudgetScope::Workflow, BudgetDimension::ToolCalls) => false,
            }
        }),
{
    reveal_with_fuel(crate::workflow::budget::verdict_from, 6);
    reveal_with_fuel(crate::workflow::budget::warnings_of, 6);
}

/// Each ceiling is warned of at most once.
pub proof fn law_no_ceiling_is_warned_of_twice(
    limits: BudgetLimits,
    others: NodeCost,
    cost: NodeCost,
    i: int,
    j: int,
)
    ensures
        crate::workflow::budget::verdict_of(limits, others, cost) matches VerdictModel::Within {
            warnings,
        } ==> (0 <= i < j < warnings.len() ==> warnings[i].scope != warnings[j].scope
            || warnings[i].dimension != warnings[j].dimension),
{
    reveal_with_fuel(crate::workflow::budget::verdict_from, 6);
    reveal_with_fuel(crate::workflow::budget::warnings_of, 6);
}

/// Spending more never helps: where a cost is over budget, so is any that is at least as large in
/// every dimension, beside others that are at least as large.
pub proof fn law_spending_more_never_helps(
    limits: BudgetLimits,
    others: NodeCost,
    cost: NodeCost,
    more_others: NodeCost,
    more: NodeCost,
)
    requires
        cost.wall_time_secs <= more.wall_time_secs,
        cost.tool_calls <= more.tool_calls,
        cost.cost_micros matches Some(a) ==> more.cost_micros matches Some(b) && a <= b,
        others.wall_time_secs <= more_others.wall_time_secs,
        others.cost_micros matches Some(a) ==> more_others.cost_micros matches Some(b) && a <= b,
        crate::workflow::budget::verdict_of(limits, others, cost) is Exceeded,
    ensures
        crate::workflow::budget::verdict_of(limits, more_others, more) is Exceeded,
{
    reveal_with_fuel(crate::workflow::budget::verdict_from, 6);
}

/// What nodes used together is what they used one by one, as far as it can be counted; and it was
/// measured where any part of it was.
pub proof fn law_a_total_is_the_sum(a: NodeCost, b: NodeCost)
    ensures
        ({
            let sum = crate::workflow::budget::cost_sum(a, b);
            &&& a.wall_time_secs + b.wall_time_secs <= u64::MAX ==> sum.wall_time_secs
                == a.wall_time_secs + b.wall_time_secs
            &&& a.wall_time_secs + b.wall_time_secs > u64::MAX ==> sum.wall_time_secs == u64::MAX
            &&& a.tool_calls + b.tool_calls <= u64::MAX ==> sum.tool_calls == a.tool_calls
                + b.tool_calls
            &&& a.tool_calls + b.tool_calls > u64::MAX ==> sum.tool_calls == u64::MAX
            &&& a.cost_micros is None ==> sum.cost_micros == b.cost_micros
            &&& b.cost_micros is None ==> sum.cost_micros == a.cost_micros
            &&& a.cost_micros is Some && b.cost_micros is Some ==> (sum.cost_micros matches Some(
                n,
            ) && (if a.cost_micros->0 + b.cost_micros->0 <= u64::MAX {
                n == a.cost_micros->0 + b.cost_micros->0
            } else {
                n == u64::MAX
            }))
        }),
{
}

} // verus!
