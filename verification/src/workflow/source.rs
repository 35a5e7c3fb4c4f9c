//! Resolving a workflow by id from its built-in, user and repository sources.
//!
//! Two rules govern the set. A published `(id, version)` is immutable: the same id and
//! version with different content in two sources is a collision. And for a given id the
//! definition from the highest-precedence source wins (repository over user over
//! built-in), a tie within one scope going to the higher version.
use crate::text::same_text;
use crate::text_map::TextMap;
use crate::workflow::model::{
    AgentRef, WorkflowBudget, WorkflowDefinition, WorkflowInput, WorkflowStep,
};
use vstd::prelude::*;

verus! {

/// The stable id of the built-in workflow that investigates and repairs a failed check.
pub const REPAIR_GITHUB_CHECK_ID: &'static str = "repair-github-check";

/// A definition's provenance, by ascending precedence.
#[derive(Debug, Clone, Copy, PartialEq, Eq, PartialOrd, Ord, Structural)]
pub enum WorkflowScope {
    /// Embedded in the binary (lowest precedence).
    BuiltIn,
    /// The per-user workflows directory.
    User,
    /// The repository's own directory (highest precedence).
    Repository,
}

/// A failure to resolve a workflow from its sources.
#[derive(Debug, Clone, PartialEq, Eq)]
pub enum WorkflowSourceError {
    /// The same `(id, version)` was declared with different content in two sources.
    VersionCollision { id: String, version: u32, first: String, second: String },
    /// No source defines a workflow with the requested id.
    UnknownWorkflow(String),
}

impl WorkflowSourceError {
    /// The dotted error code surfaced to a client.
    pub fn code(&self) -> (r: &'static str)
        ensures
            r@ == match *self {
                WorkflowSourceError::VersionCollision { .. } => "workflow.version-collision"@,
                WorkflowSourceError::UnknownWorkflow(_) => "workflow.unknown-workflow"@,
            },
    {
        match self {
            WorkflowSourceError::VersionCollision { .. } => "workflow.version-collision",
            WorkflowSourceError::UnknownWorkflow(_) => "workflow.unknown-workflow",
        }
    }

    /// The error in words.
    pub fn message(&self) -> (r: String)
        ensures
            r@ == match *self {
                WorkflowSourceError::VersionCollision { id, version, first, second } =>
                    "workflow `"@ + id@ + "` version "@ + crate::text::decimal(version as nat)
                        + " is declared with different content in "@ + first@ + " and "@ + second@
                        + "; a published workflow version is immutable — bump its `version` to change it"@,
                WorkflowSourceError::UnknownWorkflow(id) => "no workflow named `"@ + id@
                    + "` is defined (built-in, user config, or repository)"@,
            },
    {
        match self {
            WorkflowSourceError::VersionCollision { id, version, first, second } => {
                let mut out: String = crate::text::concat3("workflow `", id, "` version ");
                out.append(&crate::text::decimal_text(*version as u64));
                out.append(" is declared with different content in ");
                out.append(first);
                out.append(" and ");
                out.append(second);
                out.append(
                    "; a published workflow version is immutable — bump its `version` to change it",
                );
                out
            },
            WorkflowSourceError::UnknownWorkflow(id) => crate::text::concat3(
                "no workflow named `",
                id,
                "` is defined (built-in, user config, or repository)",
            ),
        }
    }
}

/// One loaded workflow definition and where it came from.
#[derive(Debug, Clone)]
pub struct Candidate {
    pub scope: WorkflowScope,
    /// A human source label for error messages.
    pub source: String,
    pub definition: WorkflowDefinition,
    /// The text the definition was read from, verbatim.
    pub raw: String,
}

/// The resolvable set of workflow definitions, in the order in which they were loaded.
#[derive(Debug, Clone)]
pub struct WorkflowSourceRegistry {
    pub candidates: Vec<Candidate>,
}

// ---------------------------------------------------------------------------
// When two definitions are the same
// ---------------------------------------------------------------------------

pub open spec fn same_option_text(a: Option<String>, b: Option<String>) -> bool {
    match (a, b) {
        (Some(x), Some(y)) => x@ == y@,
        (None, None) => true,
        _ => false,
    }
}

pub open spec fn same_agent(a: Option<AgentRef>, b: Option<AgentRef>) -> bool {
    match (a, b) {
        (Some(x), Some(y)) => x.role@ == y.role@ && same_option_text(
            x.model_policy,
            y.model_policy,
        ),
        (None, None) => true,
        _ => false,
    }
}

pub open spec fn same_step(a: WorkflowStep, b: WorkflowStep) -> bool {
    &&& a.id@ == b.id@
    &&& crate::text::texts(a.depends_on@) == crate::text::texts(b.depends_on@)
    &&& same_agent(a.agent, b.agent)
    &&& same_option_text(a.tool, b.tool)
    &&& same_option_text(a.skill, b.skill)
    &&& a.workspace == b.workspace
    &&& a.approval == b.approval
    &&& a.retry == b.retry
    &&& crate::text::texts(a.outputs@) == crate::text::texts(b.outputs@)
}

pub open spec fn same_steps(a: Seq<WorkflowStep>, b: Seq<WorkflowStep>) -> bool {
    &&& a.len() == b.len()
    &&& forall|i: int| 0 <= i < a.len() ==> same_step(#[trigger] a[i], b[i])
}

pub open spec fn same_inputs(
    a: Seq<(String, WorkflowInput)>,
    b: Seq<(String, WorkflowInput)>,
) -> bool {
    &&& a.len() == b.len()
    &&& forall|i: int|
        0 <= i < a.len() ==> {
            &&& (#[trigger] a[i]).0@ == b[i].0@
            &&& a[i].1.input_type@ == b[i].1.input_type@
            &&& a[i].1.required == b[i].1.required
        }
}

/// Cost ceilings are compared as numbers.
pub open spec fn same_budget(a: WorkflowBudget, b: WorkflowBudget) -> bool {
    &&& match (a.maximum_cost_usd, b.maximum_cost_usd) {
        (Some(x), Some(y)) => x.equals(y),
        (None, None) => true,
        _ => false,
    }
    &&& a.maximum_duration_seconds == b.maximum_duration_seconds
    &&& a.maximum_agents == b.maximum_agents
}

/// Whether two parsed definitions say the same.
pub open spec fn same_definition(a: WorkflowDefinition, b: WorkflowDefinition) -> bool {
    &&& a.schema_version == b.schema_version
    &&& a.id@ == b.id@
    &&& a.version == b.version
    &&& same_option_text(a.description, b.description)
    &&& same_inputs(a.inputs.listed(), b.inputs.listed())
    &&& same_budget(a.budget, b.budget)
    &&& same_steps(a.steps@, b.steps@)
    &&& a.orchestration_reason == b.orchestration_reason
}

fn equal_option_text(a: &Option<String>, b: &Option<String>) -> (r: bool)
    ensures
        r == same_option_text(*a, *b),
{
    match (a, b) {
        (Some(x), Some(y)) => *x == *y,
        (None, None) => true,
        _ => false,
    }
}

fn equal_texts(a: &Vec<String>, b: &Vec<String>) -> (r: bool)
    ensures
        r == (crate::text::texts(a@) == crate::text::texts(b@)),
{
    let ghost x = crate::text::texts(a@);
    let ghost y = crate::text::texts(b@);
    if a.len() != b.len() {
        proof {
            assert(x.len() != y.len());
        }
        return false;
    }
    let mut i: usize = 0;
    while i < a.len()
        invariant
            i <= a@.len(),
            a@.len() == b@.len(),
            x == crate::text::texts(a@),
            y == crate::text::texts(b@),
            forall|k: int| 0 <= k < i ==> #[trigger] x[k] == y[k],
        decreases a@.len() - i,
    {
        if a[i] != b[i] {
            proof {
                assert(x[i as int] != y[i as int]);
            }
            return false;
        }
        i = i + 1;
    }
    proof {
        assert(x =~= y);
    }
    true
}

fn equal_step(a: &WorkflowStep, b: &WorkflowStep) -> (r: bool)
    ensures
        r == same_step(*a, *b),
{
    let agents: bool = match (&a.agent, &b.agent) {
        (Some(x), Some(y)) => x.role == y.role && equal_option_text(
            &x.model_policy,
            &y.model_policy,
        ),
        (None, None) => true,
        _ => false,
    };
    let workspaces: bool = match (a.workspace, b.workspace) {
        (Some(x), Some(y)) => x == y,
        (None, None) => true,
        _ => false,
    };
    let approvals: bool = match (a.approval, b.approval) {
        (Some(x), Some(y)) => x == y,
        (None, None) => true,
        _ => false,
    };
    let retries: bool = match (a.retry, b.retry) {
        (Some(x), Some(y)) => x == y,
        (None, None) => true,
        _ => false,
    };
    a.id == b.id && equal_texts(&a.depends_on, &b.depends_on) && agents && equal_option_text(
        &a.tool,
        &b.tool,
    ) && equal_option_text(&a.skill, &b.skill) && workspaces && approvals && retries && equal_texts(
        &a.outputs,
        &b.outputs,
    )
}

fn equal_steps(a: &Vec<WorkflowStep>, b: &Vec<WorkflowStep>) -> (r: bool)
    ensures
        r == same_steps(a@, b@),
{
    if a.len() != b.len() {
        return false;
    }
    let mut i: usize = 0;
    while i < a.len()
        invariant
            i <= a@.len(),
            a@.len() == b@.len(),
            forall|k: int| 0 <= k < i ==> same_step(#[trigger] a@[k], b@[k]),
        decreases a@.len() - i,
    {
        if !equal_step(&a[i], &b[i]) {
            return false;
        }
        i = i + 1;
    }
    true
}

fn equal_inputs(a: &TextMap<WorkflowInput>, b: &TextMap<WorkflowInput>) -> (r: bool)
    ensures
        r == same_inputs(a.listed(), b.listed()),
{
    let x: &Vec<(String, WorkflowInput)> = a.entries();
    let y: &Vec<(String, WorkflowInput)> = b.entries();
    if x.len() != y.len() {
        return false;
    }
    let mut i: usize = 0;
    while i < x.len()
        invariant
            i <= x@.len(),
            x@.len() == y@.len(),
            x@ == a.listed(),
            y@ == b.listed(),
            forall|k: int|
                0 <= k < i ==> {
                    &&& (#[trigger] x@[k]).0@ == y@[k].0@
                    &&& x@[k].1.input_type@ == y@[k].1.input_type@
                    &&& x@[k].1.required == y@[k].1.required
                },
        decreases x@.len() - i,
    {
        if x[i].0 != y[i].0 || x[i].1.input_type != y[i].1.input_type || x[i].1.required
            != y[i].1.required {
            return false;
        }
        i = i + 1;
    }
    true
}

/// Whether two parsed definitions say the same.
pub fn equal_definition(a: &WorkflowDefinition, b: &WorkflowDefinition) -> (r: bool)
    ensures
        r == same_definition(*a, *b),
{
    let costs: bool = match (a.budget.maximum_cost_usd, b.budget.maximum_cost_usd) {
        (Some(x), Some(y)) => x.same_value(y),
        (None, None) => true,
        _ => false,
    };
    let durations: bool = match (
        a.budget.maximum_duration_seconds,
        b.budget.maximum_duration_seconds,
    ) {
        (Some(x), Some(y)) => x == y,
        (None, None) => true,
        _ => false,
    };
    let agents: bool = match (a.budget.maximum_agents, b.budget.maximum_agents) {
        (Some(x), Some(y)) => x == y,
        (None, None) => true,
        _ => false,
    };
    let reasons: bool = match (a.orchestration_reason, b.orchestration_reason) {
        (Some(x), Some(y)) => x == y,
        (None, None) => true,
        _ => false,
    };
    a.schema_version == b.schema_version && a.id == b.id && a.version == b.version
        && equal_option_text(&a.description, &b.description) && equal_inputs(&a.inputs, &b.inputs)
        && costs && durations && agents && equal_steps(&a.steps, &b.steps) && reasons
}

// ---------------------------------------------------------------------------
// Resolution
// ---------------------------------------------------------------------------

/// The place of a scope in the order of precedence.
pub open spec fn rank(scope: WorkflowScope) -> int {
    match scope {
        WorkflowScope::BuiltIn => 0,
        WorkflowScope::User => 1,
        WorkflowScope::Repository => 2,
    }
}

fn rank_of(scope: WorkflowScope) -> (r: u8)
    ensures
        r == rank(scope),
{
    match scope {
        WorkflowScope::BuiltIn => 0,
        WorkflowScope::User => 1,
        WorkflowScope::Repository => 2,
    }
}

/// Whether candidate `i` defines the workflow `id`.
pub open spec fn matches_id(candidates: Seq<Candidate>, id: Seq<char>, i: int) -> bool {
    0 <= i < candidates.len() && candidates[i].definition.id@ == id
}

/// Whether two candidates declare the same id and version with different content.
pub open spec fn collide(candidates: Seq<Candidate>, id: Seq<char>, i: int, j: int) -> bool {
    &&& matches_id(candidates, id, i)
    &&& matches_id(candidates, id, j)
    &&& candidates[i].definition.version == candidates[j].definition.version
    &&& !same_definition(candidates[i].definition, candidates[j].definition)
}

/// Whether candidate `i` yields to candidate `j`: a higher scope wins, then a higher
/// version, and between equals the one loaded later.
pub open spec fn yields_to(candidates: Seq<Candidate>, i: int, j: int) -> bool {
    let a = candidates[i];
    let b = candidates[j];
    ||| rank(a.scope) < rank(b.scope)
    ||| rank(a.scope) == rank(b.scope) && a.definition.version < b.definition.version
    ||| rank(a.scope) == rank(b.scope) && a.definition.version == b.definition.version && i <= j
}

/// Whether candidate `w` is the one to which every candidate for `id` yields.
pub open spec fn wins(candidates: Seq<Candidate>, id: Seq<char>, w: int) -> bool {
    &&& matches_id(candidates, id, w)
    &&& forall|i: int| #[trigger] matches_id(candidates, id, i) ==> yields_to(candidates, i, w)
}

/// Whether `(i, j)` is the first colliding pair.
pub open spec fn first_collision(candidates: Seq<Candidate>, id: Seq<char>, i: int, j: int) -> bool {
    &&& i < j
    &&& collide(candidates, id, i, j)
    &&& forall|a: int, b: int|
        a < b && #[trigger] collide(candidates, id, a, b) ==> i < a || (i == a && j <= b)
}

impl WorkflowSourceRegistry {
    /// The registry over candidates in loading order.
    pub fn new(candidates: Vec<Candidate>) -> (r: Self)
        ensures
            r.candidates == candidates,
    {
        WorkflowSourceRegistry { candidates }
    }

    /// The first colliding pair for `id`.
    fn find_collision(&self, id: &str) -> (r: Option<(usize, usize)>)
        ensures
            match r {
                Some((i, j)) => i < self.candidates@.len() && j < self.candidates@.len()
                    && first_collision(self.candidates@, id@, i as int, j as int),
                None => forall|a: int, b: int|
                    a < b ==> !#[trigger] collide(self.candidates@, id@, a, b),
            },
    {
        let all: &Vec<Candidate> = &self.candidates;
        let mut i: usize = 0;
        while i < all.len()
            invariant
                i <= all@.len(),
                *all == self.candidates,
                forall|a: int, b: int| a < b && a < i ==> !#[trigger] collide(all@, id@, a, b),
            decreases all@.len() - i,
        {
            if same_text(&all[i].definition.id, id) {
                let mut j: usize = i + 1;
                while j < all.len()
                    invariant
                        i < j <= all@.len(),
                        *all == self.candidates,
                        all@[i as int].definition.id@ == id@,
                        forall|a: int, b: int| a < b && a < i ==> !#[trigger] collide(all@, id@, a, b),
                        forall|b: int| i < b < j ==> !#[trigger] collide(all@, id@, i as int, b),
                    decreases all@.len() - j,
                {
                    if same_text(&all[j].definition.id, id) && all[i].definition.version
                        == all[j].definition.version && !equal_definition(
                        &all[i].definition,
                        &all[j].definition,
                    ) {
                        proof {
                            assert(collide(all@, id@, i as int, j as int));
                        }
                        return Some((i, j));
                    }
                    j = j + 1;
                }
            }
            i = i + 1;
        }
        None
    }

    /// Resolves a workflow id to its text: an unknown id and a version collision are
    /// refused, otherwise the winning candidate's text is returned.
    pub fn resolve(&self, id: &str) -> (r: Result<&str, WorkflowSourceError>)
        ensures
            match r {
                Ok(raw) => {
                    &&& forall|a: int, b: int|
                        a < b ==> !#[trigger] collide(self.candidates@, id@, a, b)
                    &&& exists|w: int|
                        #[trigger] wins(self.candidates@, id@, w) && self.candidates@[w].raw@
                            == raw@
                },
                Err(WorkflowSourceError::UnknownWorkflow(name)) => {
                    &&& name@ == id@
                    &&& forall|i: int| !#[trigger] matches_id(self.candidates@, id@, i)
                },
                Err(WorkflowSourceError::VersionCollision { id: name, version, first, second }) => {
                    &&& name@ == id@
                    &&& exists|i: int, j: int|
                        #[trigger] first_collision(self.candidates@, id@, i, j) && version
                            == self.candidates@[i].definition.version && first@
                            == self.candidates@[i].source@ && second@
                            == self.candidates@[j].source@
                },
            },
    {
        let all: &Vec<Candidate> = &self.candidates;
        let mut winner: Option<usize> = None;
        let mut i: usize = 0;
        while i < all.len()
            invariant
                i <= all@.len(),
                *all == self.candidates,
                match winner {
                    Some(w) => {
                        &&& w < i
                        &&& matches_id(all@, id@, w as int)
                        &&& forall|k: int|
                            #[trigger] matches_id(all@, id@, k) && k < i ==> yields_to(
                                all@,
                                k,
                                w as int,
                            )
                    },
                    None => forall|k: int| k < i ==> !#[trigger] matches_id(all@, id@, k),
                },
            decreases all@.len() - i,
        {
            if same_text(&all[i].definition.id, id) {
                let better: bool = match winner {
                    None => true,
                    Some(w) => {
                        let new_rank: u8 = rank_of(all[i].scope);
                        let old_rank: u8 = rank_of(all[w].scope);
                        new_rank > old_rank || (new_rank == old_rank && all[i].definition.version
                            >= all[w].definition.version)
                    },
                };
                if better {
                    winner = Some(i);
                }
            }
            i = i + 1;
        }
        match winner {
            None => Err(WorkflowSourceError::UnknownWorkflow(id.to_owned())),
            Some(w) => {
                if let Some((a, b)) = self.find_collision(id) {
                    proof {
                        assert(first_collision(self.candidates@, id@, a as int, b as int));
                    }
                    return Err(
                        WorkflowSourceError::VersionCollision {
                            id: id.to_owned(),
                            version: all[a].definition.version,
                            first: all[a].source.clone(),
                            second: all[b].source.clone(),
                        },
                    );
                }
                proof {
                    assert(wins(self.candidates@, id@, w as int));
                }
                Ok(all[w].raw.as_str())
            },
        }
    }
}

/// At most one candidate wins, so the resolution is determined.
pub proof fn law_winner_is_unique(candidates: Seq<Candidate>, id: Seq<char>, v: int, w: int)
    requires
        wins(candidates, id, v),
        wins(candidates, id, w),
    ensures
        v == w,
{
    assert(matches_id(candidates, id, v));
    assert(matches_id(candidates, id, w));
    assert(yields_to(candidates, v, w));
    assert(yields_to(candidates, w, v));
}

/// A repository definition shadows every user and built-in one, a user definition every
/// built-in one: the winner's scope is the highest in which the id occurs.
pub proof fn law_higher_scope_shadows(candidates: Seq<Candidate>, id: Seq<char>, w: int, i: int)
    requires
        wins(candidates, id, w),
        matches_id(candidates, id, i),
    ensures
        rank(candidates[i].scope) <= rank(candidates[w].scope),
        candidates[i].scope == candidates[w].scope ==> candidates[i].definition.version
            <= candidates[w].definition.version,
{
    assert(yields_to(candidates, i, w));
}

/// Declaring the same definition again, in whatever source, never collides with it.
pub proof fn law_identical_redeclaration_is_no_collision(
    candidates: Seq<Candidate>,
    id: Seq<char>,
    i: int,
    j: int,
)
    requires
        0 <= i < candidates.len(),
        0 <= j < candidates.len(),
        same_definition(candidates[i].definition, candidates[j].definition),
    ensures
        !collide(candidates, id, i, j),
{
}

} // verus!
