//! Hierarchical workflow budget accounting.
//!
//! Given the cost a node actually consumed and what the other nodes have consumed, the
//! accounting decides whether the node stays within budget (perhaps crossing an 80%
//! warning line) or exceeds it. Only measured dimensions are charged: wall time and
//! tool calls are measured for every node, cost only when a run reported usage. An
//! unmeasured cost is `None`, never a real zero, and is charged nothing.
use crate::number::{times_million, Double};
use crate::text::{concat3, decimal_text};
use crate::workflow::agent::AgentBudget;
use crate::workflow::json::{JsonModel, JsonNumber, JsonValue, NumberModel};
use crate::workflow::model::WorkflowBudget;
use vstd::prelude::*;

verus! {

/// The cost a node actually consumed.
#[derive(Debug, Clone, Copy, PartialEq, Eq, Structural)]
pub struct NodeCost {
    /// Wall-clock seconds the node ran.
    pub wall_time_secs: u64,
    /// Tool calls the node made.
    pub tool_calls: u64,
    /// Measured model spend in micro-USD, or `None` when the node reported no usage.
    pub cost_micros: Option<u64>,
}

/// The cost of a node that has not run.
pub open spec fn zero_cost() -> NodeCost {
    NodeCost { wall_time_secs: 0, tool_calls: 0, cost_micros: None }
}

/// The sum of two counts, at most the largest representable one.
pub open spec fn capped_sum(a: u64, b: u64) -> u64 {
    if a + b > u64::MAX {
        u64::MAX
    } else {
        (a + b) as u64
    }
}

/// The sum of two optional measured costs: unmeasured only if both are.
pub open spec fn measured_sum(a: Option<u64>, b: Option<u64>) -> Option<u64> {
    match (a, b) {
        (None, None) => None,
        (Some(x), None) => Some(x),
        (None, Some(y)) => Some(y),
        (Some(x), Some(y)) => Some(capped_sum(x, y)),
    }
}

/// The sum of two costs.
pub open spec fn cost_sum(a: NodeCost, b: NodeCost) -> NodeCost {
    NodeCost {
        wall_time_secs: capped_sum(a.wall_time_secs, b.wall_time_secs),
        tool_calls: capped_sum(a.tool_calls, b.tool_calls),
        cost_micros: measured_sum(a.cost_micros, b.cost_micros),
    }
}

/// The number `n` as a JSON value.
pub open spec fn json_number(n: u64) -> JsonModel {
    JsonModel::Number(NumberModel::Unsigned(n))
}

/// A cost as the object a node record stores: the measured dimensions only.
pub open spec fn cost_object(cost: NodeCost) -> JsonModel {
    let counts = seq![
        ("tool_calls"@, json_number(cost.tool_calls)),
        ("wall_time_secs"@, json_number(cost.wall_time_secs)),
    ];
    JsonModel::Object(
        match cost.cost_micros {
            Some(micros) => seq![("cost_micros"@, json_number(micros))] + counts,
            None => counts,
        },
    )
}

/// The field of that name as an unsigned integer, if it is present and one.
pub open spec fn unsigned_field(value: JsonModel, name: Seq<char>) -> Option<u64> {
    match crate::workflow::json::field_of(value, name) {
        Some(v) => crate::workflow::json::unsigned_of(v),
        None => None,
    }
}

/// The number, or zero when there is none.
pub open spec fn or_zero(n: Option<u64>) -> u64 {
    match n {
        Some(x) => x,
        None => 0,
    }
}

/// The cost a stored value stands for: missing or malformed counts read as zero, a
/// missing or malformed cost as not measured.
pub open spec fn cost_read(value: JsonModel) -> NodeCost {
    NodeCost {
        wall_time_secs: or_zero(unsigned_field(value, "wall_time_secs"@)),
        tool_calls: or_zero(unsigned_field(value, "tool_calls"@)),
        cost_micros: unsigned_field(value, "cost_micros"@),
    }
}

fn read_field(value: &JsonValue, name: &str) -> (r: Option<u64>)
    ensures
        r == unsigned_field(value@, name@),
{
    match value.get(name) {
        Some(v) => v.as_u64(),
        None => None,
    }
}

fn sum_capped(a: u64, b: u64) -> (r: u64)
    ensures
        r == capped_sum(a, b),
{
    if a > u64::MAX - b {
        u64::MAX
    } else {
        a + b
    }
}

/// Sums two optional measured costs; two unmeasured ones stay unmeasured.
pub fn add_measured_cost(a: Option<u64>, b: Option<u64>) -> (r: Option<u64>)
    ensures
        r == measured_sum(a, b),
{
    match (a, b) {
        (None, None) => None,
        (Some(x), None) => Some(x),
        (None, Some(y)) => Some(y),
        (Some(x), Some(y)) => Some(sum_capped(x, y)),
    }
}

impl Default for NodeCost {
    fn default() -> (r: Self)
        ensures
            r == zero_cost(),
    {
        NodeCost { wall_time_secs: 0, tool_calls: 0, cost_micros: None }
    }
}

impl NodeCost {
    /// The zero cost: a node that has not run yet, or a probe before it does.
    pub fn zero() -> (r: Self)
        ensures
            r == zero_cost(),
    {
        NodeCost { wall_time_secs: 0, tool_calls: 0, cost_micros: None }
    }

    /// This cost as the value the node record stores. An unmeasured cost is left out.
    pub fn to_json(&self) -> (r: JsonValue)
        ensures
            r@ == cost_object(*self),
    {
        let mut fields: Vec<(String, JsonValue)> = Vec::new();
        if let Some(micros) = self.cost_micros {
            fields.push(
                ("cost_micros".to_owned(), JsonValue::Number(JsonNumber::Unsigned(micros))),
            );
        }
        fields.push(
            ("tool_calls".to_owned(), JsonValue::Number(JsonNumber::Unsigned(self.tool_calls))),
        );
        fields.push(
            (
                "wall_time_secs".to_owned(),
                JsonValue::Number(JsonNumber::Unsigned(self.wall_time_secs)),
            ),
        );
        proof {
            crate::workflow::json::lemma_field_models_at(fields@);
            assert(crate::workflow::json::field_models(fields@) =~= cost_object(*self)->Object_0);
        }
        JsonValue::Object(fields)
    }

    /// Reads a cost back from a stored value.
    pub fn from_json(value: &JsonValue) -> (r: Self)
        ensures
            r == cost_read(value@),
    {
        let wall: Option<u64> = read_field(value, "wall_time_secs");
        let calls: Option<u64> = read_field(value, "tool_calls");
        NodeCost {
            wall_time_secs: match wall {
                Some(n) => n,
                None => 0,
            },
            tool_calls: match calls {
                Some(n) => n,
                None => 0,
            },
            cost_micros: read_field(value, "cost_micros"),
        }
    }

    /// The sum of two costs, saturating, so that a total never wraps to a small value.
    pub fn saturating_add(&self, other: &Self) -> (r: Self)
        ensures
            r == cost_sum(*self, *other),
    {
        NodeCost {
            wall_time_secs: sum_capped(self.wall_time_secs, other.wall_time_secs),
            tool_calls: sum_capped(self.tool_calls, other.tool_calls),
            cost_micros: add_measured_cost(self.cost_micros, other.cost_micros),
        }
    }
}

/// Which measured dimension a budget event is about.
#[derive(Debug, Clone, Copy, PartialEq, Eq, Structural)]
pub enum BudgetDimension {
    /// Wall-clock seconds.
    WallTime,
    /// Tool-call count.
    ToolCalls,
    /// Measured model spend, in micro-USD.
    Cost,
}

pub open spec fn dimension_name(d: BudgetDimension) -> Seq<char> {
    match d {
        BudgetDimension::WallTime => "wall_time_secs"@,
        BudgetDimension::ToolCalls => "tool_calls"@,
        BudgetDimension::Cost => "cost_micros"@,
    }
}

impl BudgetDimension {
    /// A stable lower-case name.
    pub fn as_str(self) -> (r: &'static str)
        ensures
            r@ == dimension_name(self),
    {
        match self {
            BudgetDimension::WallTime => "wall_time_secs",
            BudgetDimension::ToolCalls => "tool_calls",
            BudgetDimension::Cost => "cost_micros",
        }
    }
}

/// Which level of the nested budget an event is about.
#[derive(Debug, Clone, Copy, PartialEq, Eq, Structural)]
pub enum BudgetScope {
    /// The node's own profile slice.
    Node,
    /// The workflow-level envelope across all nodes.
    Workflow,
}

pub open spec fn scope_name(s: BudgetScope) -> Seq<char> {
    match s {
        BudgetScope::Node => "node"@,
        BudgetScope::Workflow => "workflow"@,
    }
}

impl BudgetScope {
    /// A stable lower-case name.
    pub fn as_str(self) -> (r: &'static str)
        ensures
            r@ == scope_name(self),
    {
        match self {
            BudgetScope::Node => "node",
            BudgetScope::Workflow => "workflow",
        }
    }
}

/// One budget line at or above 80% of its ceiling, but not above it.
#[derive(Debug, Clone, Copy, PartialEq, Eq, Structural)]
pub struct BudgetWarning {
    pub dimension: BudgetDimension,
    pub scope: BudgetScope,
    /// The consumed amount.
    pub used: u64,
    /// The ceiling.
    pub limit: u64,
}

/// A dimension above its ceiling: the node blocks and the run pauses.
#[derive(Debug, Clone, Copy, PartialEq, Eq, Structural)]
pub struct BudgetExceeded {
    pub dimension: BudgetDimension,
    pub scope: BudgetScope,
    /// The consumed amount, strictly greater than `limit`.
    pub used: u64,
    /// The ceiling that was exceeded.
    pub limit: u64,
}

/// The reason that is stored and shown for a breach.
pub open spec fn breach_reason(e: BudgetExceeded) -> Seq<char> {
    "workflow.budget-exceeded: "@ + scope_name(e.scope) + " budget for `"@ + dimension_name(
        e.dimension,
    ) + "` exceeded ("@ + crate::text::decimal(e.used as nat) + " used, limit "@
        + crate::text::decimal(e.limit as nat) + ")"@
}

impl BudgetExceeded {
    /// A legible one-line reason.
    pub fn reason(&self) -> (r: String)
        ensures
            r@ == breach_reason(*self),
    {
        let mut out: String = concat3(
            "workflow.budget-exceeded: ",
            self.scope.as_str(),
            " budget for `",
        );
        out.append(self.dimension.as_str());
        out.append("` exceeded (");
        out.append(&decimal_text(self.used));
        out.append(" used, limit ");
        out.append(&decimal_text(self.limit));
        out.append(")");
        out
    }
}

/// The verdict of charging a node's measured cost against the nested budgets.
#[derive(Debug, Clone, PartialEq, Eq)]
pub enum BudgetVerdict {
    /// Within every ceiling; `warnings` lists any dimension at or above 80%.
    Within { warnings: Vec<BudgetWarning> },
    /// A ceiling was exceeded. The first breach found is reported.
    Exceeded(BudgetExceeded),
}

/// A verdict with its warnings as a sequence.
pub enum VerdictModel {
    Within { warnings: Seq<BudgetWarning> },
    Exceeded(BudgetExceeded),
}

impl View for BudgetVerdict {
    type V = VerdictModel;

    open spec fn view(&self) -> VerdictModel {
        match *self {
            BudgetVerdict::Within { warnings } => VerdictModel::Within { warnings: warnings@ },
            BudgetVerdict::Exceeded(e) => VerdictModel::Exceeded(e),
        }
    }
}

/// The nested budget ceilings in force for one node. A dimension with no ceiling is
/// never charged.
#[derive(Debug, Clone, Copy, PartialEq, Eq, Structural)]
pub struct BudgetLimits {
    pub node_max_wall_secs: Option<u64>,
    pub node_max_tool_calls: Option<u64>,
    pub node_max_cost_micros: Option<u64>,
    pub workflow_max_wall_secs: Option<u64>,
    pub workflow_max_cost_micros: Option<u64>,
}

/// Limits that limit nothing.
pub open spec fn unlimited() -> BudgetLimits {
    BudgetLimits {
        node_max_wall_secs: None,
        node_max_tool_calls: None,
        node_max_cost_micros: None,
        workflow_max_wall_secs: None,
        workflow_max_cost_micros: None,
    }
}

/// One thing to check: what was used of a dimension, if it was measured, against a
/// ceiling, if there is one.
pub struct BudgetLine {
    pub scope: BudgetScope,
    pub dimension: BudgetDimension,
    pub used: Option<u64>,
    pub limit: Option<u64>,
}

/// Whether a line is above its ceiling.
pub open spec fn breached(line: BudgetLine) -> bool {
    line.used is Some && line.limit is Some && line.used->0 > line.limit->0
}

/// Whether a line is at or above 80% of its ceiling, something having been used.
pub open spec fn near(line: BudgetLine) -> bool {
    line.used is Some && line.limit is Some && line.used->0 > 0 && line.used->0 * 5
        >= line.limit->0 * 4
}

pub open spec fn breach_of(line: BudgetLine) -> BudgetExceeded {
    BudgetExceeded {
        dimension: line.dimension,
        scope: line.scope,
        used: line.used->0,
        limit: line.limit->0,
    }
}

pub open spec fn warning_of(line: BudgetLine) -> BudgetWarning {
    BudgetWarning {
        dimension: line.dimension,
        scope: line.scope,
        used: line.used->0,
        limit: line.limit->0,
    }
}

/// The lines in the order in which they are checked: the node's own slice first, then
/// the workflow envelope over all nodes.
pub open spec fn budget_lines(limits: BudgetLimits, others: NodeCost, cost: NodeCost) -> Seq<
    BudgetLine,
> {
    let totals = cost_sum(others, cost);
    seq![
        BudgetLine {
            scope: BudgetScope::Node,
            dimension: BudgetDimension::WallTime,
            used: Some(cost.wall_time_secs),
            limit: limits.node_max_wall_secs,
        },
        BudgetLine {
            scope: BudgetScope::Node,
            dimension: BudgetDimension::ToolCalls,
            used: Some(cost.tool_calls),
            limit: limits.node_max_tool_calls,
        },
        BudgetLine {
            scope: BudgetScope::Node,
            dimension: BudgetDimension::Cost,
            used: cost.cost_micros,
            limit: limits.node_max_cost_micros,
        },
        BudgetLine {
            scope: BudgetScope::Workflow,
            dimension: BudgetDimension::WallTime,
            used: Some(totals.wall_time_secs),
            limit: limits.workflow_max_wall_secs,
        },
        BudgetLine {
            scope: BudgetScope::Workflow,
            dimension: BudgetDimension::Cost,
            used: totals.cost_micros,
            limit: limits.workflow_max_cost_micros,
        },
    ]
}

/// The warnings of the first `n` lines.
pub open spec fn warnings_of(lines: Seq<BudgetLine>, n: int) -> Seq<BudgetWarning>
    decreases n,
{
    if n <= 0 {
        Seq::empty()
    } else if near(lines[n - 1]) {
        warnings_of(lines, n - 1).push(warning_of(lines[n - 1]))
    } else {
        warnings_of(lines, n - 1)
    }
}

/// The verdict over the lines from the `i`-th on: the first breach, or else every
/// warning.
pub open spec fn verdict_from(lines: Seq<BudgetLine>, i: int) -> VerdictModel
    decreases lines.len() - i,
{
    if i >= lines.len() {
        VerdictModel::Within { warnings: warnings_of(lines, lines.len() as int) }
    } else if breached(lines[i]) {
        VerdictModel::Exceeded(breach_of(lines[i]))
    } else {
        verdict_from(lines, i + 1)
    }
}

/// The verdict of charging `cost` while the other nodes have consumed `others`.
pub open spec fn verdict_of(limits: BudgetLimits, others: NodeCost, cost: NodeCost) -> VerdictModel {
    verdict_from(budget_lines(limits, others, cost), 0)
}

/// Checks one line against its ceiling: a breach is returned; a line that is near its
/// ceiling adds a warning.
pub fn check(
    scope: BudgetScope,
    dimension: BudgetDimension,
    used: u64,
    limit: Option<u64>,
    warnings: &mut Vec<BudgetWarning>,
) -> (r: Option<BudgetExceeded>)
    ensures
        ({
            let line = BudgetLine { scope, dimension, used: Some(used), limit };
            match r {
                Some(e) => breached(line) && e == breach_of(line) && final(warnings)@ == old(
                    warnings,
                )@,
                None => !breached(line) && final(warnings)@ == if near(line) {
                    old(warnings)@.push(warning_of(line))
                } else {
                    old(warnings)@
                },
            }
        }),
{
    match limit {
        None => None,
        Some(limit) => {
            if used > limit {
                return Some(BudgetExceeded { dimension, scope, used, limit });
            }
            if used > 0 && (used as u128) * 5 >= (limit as u128) * 4 {
                warnings.push(BudgetWarning { dimension, scope, used, limit });
            }
            None
        },
    }
}

/// Converts a cost ceiling in US dollars to micro-USD, the unit measured cost is charged
/// in. A number that is not finite and positive counts as zero; a huge one saturates.
pub fn usd_to_micros(usd: Double) -> (r: u64)
    ensures
        r == crate::number::millionfold(usd),
{
    times_million(usd)
}

/// A cost ceiling in micro-USD.
pub open spec fn micros_ceiling(usd: Option<Double>) -> Option<u64> {
    match usd {
        Some(d) => Some(crate::number::millionfold(d) as u64),
        None => None,
    }
}

fn ceiling_of(usd: Option<Double>) -> (r: Option<u64>)
    ensures
        r == micros_ceiling(usd),
{
    match usd {
        Some(d) => Some(usd_to_micros(d)),
        None => None,
    }
}

impl Default for BudgetLimits {
    fn default() -> (r: Self)
        ensures
            r == unlimited(),
    {
        BudgetLimits {
            node_max_wall_secs: None,
            node_max_tool_calls: None,
            node_max_cost_micros: None,
            workflow_max_wall_secs: None,
            workflow_max_cost_micros: None,
        }
    }
}

impl BudgetLimits {
    /// Builds the nested limits from the workflow envelope and, for an agent node, its
    /// profile slice. A tool node has no slice.
    pub fn resolve(workflow: &WorkflowBudget, node: Option<&AgentBudget>) -> (r: Self)
        ensures
            r == (BudgetLimits {
                node_max_wall_secs: match node {
                    Some(b) => b.maximum_duration_seconds,
                    None => None,
                },
                node_max_tool_calls: match node {
                    Some(b) => b.maximum_tool_calls,
                    None => None,
                },
                node_max_cost_micros: match node {
                    Some(b) => micros_ceiling(b.maximum_cost_usd),
                    None => None,
                },
                workflow_max_wall_secs: workflow.maximum_duration_seconds,
                workflow_max_cost_micros: micros_ceiling(workflow.maximum_cost_usd),
            }),
    {
        let slice: AgentBudget = match node {
            Some(b) => *b,
            None => AgentBudget::default(),
        };
        BudgetLimits {
            node_max_wall_secs: slice.maximum_duration_seconds,
            node_max_tool_calls: slice.maximum_tool_calls,
            node_max_cost_micros: ceiling_of(slice.maximum_cost_usd),
            workflow_max_wall_secs: workflow.maximum_duration_seconds,
            workflow_max_cost_micros: ceiling_of(workflow.maximum_cost_usd),
        }
    }

    /// Whether no ceiling is set.
    pub fn is_unbounded(&self) -> (r: bool)
        ensures
            r == (*self == unlimited()),
    {
        self.node_max_wall_secs.is_none() && self.node_max_tool_calls.is_none()
            && self.node_max_cost_micros.is_none() && self.workflow_max_wall_secs.is_none()
            && self.workflow_max_cost_micros.is_none()
    }

    /// Charges `node_cost` against the nested budgets, given the consumption of every
    /// other node. A breach wins over warnings, and the node slice is checked before the
    /// envelope. With the zero cost this asks whether the budget is already exhausted.
    pub fn charge(&self, others: &NodeCost, node_cost: &NodeCost) -> (r: BudgetVerdict)
        ensures
            r@ == verdict_of(*self, *others, *node_cost),
    {
        let mut warnings: Vec<BudgetWarning> = Vec::new();
        let ghost lines = budget_lines(*self, *others, *node_cost);
        proof {
            reveal_with_fuel(verdict_from, 6);
            reveal_with_fuel(warnings_of, 6);
        }
        if let Some(e) = check(
            BudgetScope::Node,
            BudgetDimension::WallTime,
            node_cost.wall_time_secs,
            self.node_max_wall_secs,
            &mut warnings,
        ) {
            return BudgetVerdict::Exceeded(e);
        }
        assert(warnings@ =~= warnings_of(lines, 1));
        if let Some(e) = check(
            BudgetScope::Node,
            BudgetDimension::ToolCalls,
            node_cost.tool_calls,
            self.node_max_tool_calls,
            &mut warnings,
        ) {
            return BudgetVerdict::Exceeded(e);
        }
        assert(warnings@ =~= warnings_of(lines, 2));
        if let Some(used) = node_cost.cost_micros {
            if let Some(e) = check(
                BudgetScope::Node,
                BudgetDimension::Cost,
                used,
                self.node_max_cost_micros,
                &mut warnings,
            ) {
                return BudgetVerdict::Exceeded(e);
            }
        }
        assert(warnings@ =~= warnings_of(lines, 3));
        let totals: NodeCost = others.saturating_add(node_cost);
        if let Some(e) = check(
            BudgetScope::Workflow,
            BudgetDimension::WallTime,
            totals.wall_time_secs,
            self.workflow_max_wall_secs,
            &mut warnings,
        ) {
            return BudgetVerdict::Exceeded(e);
        }
        assert(warnings@ =~= warnings_of(lines, 4));
        if let Some(used) = totals.cost_micros {
            if let Some(e) = check(
                BudgetScope::Workflow,
                BudgetDimension::Cost,
                used,
                self.workflow_max_cost_micros,
                &mut warnings,
            ) {
                return BudgetVerdict::Exceeded(e);
            }
        }
        assert(warnings@ =~= warnings_of(lines, 5));
        BudgetVerdict::Within { warnings }
    }
}

// ---------------------------------------------------------------------------
// Laws
// ---------------------------------------------------------------------------

/// A stored cost reads back as itself, measured or not.
pub proof fn law_cost_round_trips(cost: NodeCost)
    ensures
        cost_read(cost_object(cost)) == cost,
{
    reveal_with_fuel(crate::workflow::json::field_from, 4);
    reveal_strlit("tool_calls");
    reveal_strlit("wall_time_secs");
    reveal_strlit("cost_micros");
    assert("tool_calls"@.len() != "wall_time_secs"@.len());
    assert("tool_calls"@.len() != "cost_micros"@.len());
    assert("wall_time_secs"@.len() != "cost_micros"@.len());
    let fields = cost_object(cost)->Object_0;
    match cost.cost_micros {
        Some(micros) => {
            assert(fields[0] == ("cost_micros"@, json_number(micros)));
            assert(fields[1] == ("tool_calls"@, json_number(cost.tool_calls)));
            assert(fields[2] == ("wall_time_secs"@, json_number(cost.wall_time_secs)));
        },
        None => {
            assert(fields[0] == ("tool_calls"@, json_number(cost.tool_calls)));
            assert(fields[1] == ("wall_time_secs"@, json_number(cost.wall_time_secs)));
        },
    }
}

/// Summing is commutative and associative, and the zero cost changes nothing; so a run's
/// consumption does not depend on the order in which its nodes are summed.
pub proof fn law_cost_sum(a: NodeCost, b: NodeCost, c: NodeCost)
    ensures
        cost_sum(a, b) == cost_sum(b, a),
        cost_sum(cost_sum(a, b), c) == cost_sum(a, cost_sum(b, c)),
        cost_sum(a, zero_cost()) == a,
{
}

/// A sum is measured exactly when one of its parts is.
pub proof fn law_sum_is_measured_iff_a_part_is(a: NodeCost, b: NodeCost)
    ensures
        cost_sum(a, b).cost_micros is Some <==> a.cost_micros is Some || b.cost_micros is Some,
{
}

proof fn lemma_verdict(lines: Seq<BudgetLine>, i: int)
    requires
        0 <= i <= lines.len(),
    ensures
        match verdict_from(lines, i) {
            VerdictModel::Exceeded(e) => exists|k: int|
                i <= k < lines.len() && #[trigger] breached(lines[k]) && e == breach_of(lines[k])
                    && forall|j: int| i <= j < k ==> !#[trigger] breached(lines[j]),
            VerdictModel::Within { warnings } => {
                &&& warnings == warnings_of(lines, lines.len() as int)
                &&& forall|j: int| i <= j < lines.len() ==> !#[trigger] breached(lines[j])
            },
        },
    decreases lines.len() - i,
{
    if i < lines.len() && !breached(lines[i]) {
        lemma_verdict(lines, i + 1);
    }
}

/// Exceeding wins over warning: the verdict is a breach exactly when some line is above
/// its ceiling, and then it is the first such line.
pub proof fn law_exceed_wins_over_warn(limits: BudgetLimits, others: NodeCost, cost: NodeCost)
    ensures
        ({
            let lines = budget_lines(limits, others, cost);
            match verdict_of(limits, others, cost) {
                VerdictModel::Exceeded(e) => exists|k: int|
                    0 <= k < lines.len() && #[trigger] breached(lines[k]) && e == breach_of(
                        lines[k],
                    ) && forall|j: int| 0 <= j < k ==> !#[trigger] breached(lines[j]),
                VerdictModel::Within { warnings } => forall|j: int|
                    0 <= j < lines.len() ==> !#[trigger] breached(lines[j]),
            }
        }),
{
    lemma_verdict(budget_lines(limits, others, cost), 0);
}

/// An unmeasured run is charged nothing on the cost dimension: its verdict is the same
/// under any cost ceilings.
pub proof fn law_unmeasured_cost_is_never_charged(
    limits: BudgetLimits,
    node_ceiling: Option<u64>,
    workflow_ceiling: Option<u64>,
    others: NodeCost,
    cost: NodeCost,
)
    requires
        others.cost_micros is None,
        cost.cost_micros is None,
    ensures
        verdict_of(limits, others, cost) == verdict_of(
            BudgetLimits {
                node_max_cost_micros: node_ceiling,
                workflow_max_cost_micros: workflow_ceiling,
                ..limits
            },
            others,
            cost,
        ),
{
    reveal_with_fuel(verdict_from, 6);
    reveal_with_fuel(warnings_of, 6);
}

/// Without ceilings nothing is charged and nothing warns.
pub proof fn law_unlimited_charges_nothing(others: NodeCost, cost: NodeCost)
    ensures
        verdict_of(unlimited(), others, cost) == (VerdictModel::Within {
            warnings: Seq::<BudgetWarning>::empty(),
        }),
{
    reveal_with_fuel(verdict_from, 6);
    reveal_with_fuel(warnings_of, 6);
}

} // verus!
