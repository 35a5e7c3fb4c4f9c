//! Declarative agent profiles.
use crate::number::Double;
use crate::text::is_blank;
use vstd::prelude::*;

verus! {

/// The agent-profile schema version this build understands.
pub const SUPPORTED_AGENT_SCHEMA_VERSION: u32 = 1;

/// Why an agent profile is not valid.
#[derive(Debug, Clone, Copy, PartialEq, Eq, Structural)]
pub enum AgentProfileError {
    UnsupportedSchemaVersion { found: u32, supported: u32 },
    EmptyId,
}

/// A declarative agent profile.
#[derive(Debug, Clone, PartialEq)]
pub struct AgentProfile {
    pub schema_version: u32,
    /// The profile's stable id.
    pub id: String,
    pub name: String,
    pub description: Option<String>,
    /// The workflow role this profile fulfils; when absent, the last dotted segment of
    /// `id` stands for it.
    pub role: Option<String>,
    /// The scope the profile applies at.
    pub scope: Option<String>,
    /// The agent mode.
    pub mode: Option<String>,
    /// The autonomy level.
    pub autonomy: Option<String>,
    /// The model-selection policy.
    pub model_policy: Option<String>,
    /// The skills the agent is granted.
    pub skills: Vec<String>,
    /// The tools the agent may use.
    pub tools: Vec<String>,
    /// The agent's capability permissions.
    pub permissions: AgentPermissions,
    /// The agent's budget slice.
    pub budget: AgentBudget,
    /// The conditions the agent must satisfy to complete.
    pub completion: AgentCompletion,
}

/// The capability permissions an agent declares.
#[derive(Debug, Clone, PartialEq, Eq)]
pub struct AgentPermissions {
    pub filesystem_read: Vec<String>,
    pub filesystem_write: Vec<String>,
    pub commands: Vec<String>,
    pub network: Vec<String>,
    /// Whether the agent may spawn sub-agents.
    pub delegate_agents: bool,
}

impl Default for AgentPermissions {
    /// Nothing is permitted.
    fn default() -> (r: Self)
        ensures
            r.filesystem_read@.len() == 0,
            r.filesystem_write@.len() == 0,
            r.commands@.len() == 0,
            r.network@.len() == 0,
            !r.delegate_agents,
    {
        AgentPermissions {
            filesystem_read: Vec::new(),
            filesystem_write: Vec::new(),
            commands: Vec::new(),
            network: Vec::new(),
            delegate_agents: false,
        }
    }
}

/// The budget slice allotted to an agent.
#[derive(Debug, Clone, Copy, PartialEq, Eq, Structural)]
pub struct AgentBudget {
    pub maximum_cost_usd: Option<Double>,
    pub maximum_duration_seconds: Option<u64>,
    pub maximum_tool_calls: Option<u64>,
}

impl Default for AgentBudget {
    /// No ceiling at all.
    fn default() -> (r: Self)
        ensures
            r.maximum_cost_usd is None,
            r.maximum_duration_seconds is None,
            r.maximum_tool_calls is None,
    {
        AgentBudget {
            maximum_cost_usd: None,
            maximum_duration_seconds: None,
            maximum_tool_calls: None,
        }
    }
}

/// The completion conditions an agent must satisfy.
#[derive(Debug, Clone, PartialEq, Eq)]
pub struct AgentCompletion {
    pub requires_all: Vec<String>,
}

impl Default for AgentCompletion {
    /// No condition.
    fn default() -> (r: Self)
        ensures
            r.requires_all@.len() == 0,
    {
        AgentCompletion { requires_all: Vec::new() }
    }
}

/// What makes a profile invalid: its schema version, or else a blank id.
pub open spec fn profile_fault(profile: AgentProfile) -> Option<AgentProfileError> {
    if profile.schema_version != SUPPORTED_AGENT_SCHEMA_VERSION {
        Some(
            AgentProfileError::UnsupportedSchemaVersion {
                found: profile.schema_version,
                supported: SUPPORTED_AGENT_SCHEMA_VERSION,
            },
        )
    } else if crate::text::blank(profile.id@) {
        Some(AgentProfileError::EmptyId)
    } else {
        None
    }
}

/// Checks a parsed profile's schema version and id.
pub fn validate_agent_profile(profile: AgentProfile) -> (r: Result<AgentProfile, AgentProfileError>)
    ensures
        match r {
            Ok(p) => profile_fault(profile) is None && p == profile,
            Err(e) => profile_fault(profile) == Some(e),
        },
{
    if profile.schema_version != SUPPORTED_AGENT_SCHEMA_VERSION {
        return Err(
            AgentProfileError::UnsupportedSchemaVersion {
                found: profile.schema_version,
                supported: SUPPORTED_AGENT_SCHEMA_VERSION,
            },
        );
    }
    if is_blank(&profile.id) {
        return Err(AgentProfileError::EmptyId);
    }
    Ok(profile)
}

/// Where the last dotted segment among the first `n` characters starts.
pub open spec fn segment_start(s: Seq<char>, n: int) -> int
    decreases n,
{
    if n <= 0 {
        0
    } else if s[n - 1] == '.' {
        n
    } else {
        segment_start(s, n - 1)
    }
}

/// What follows the last dot of `s`; all of it when there is no dot.
pub open spec fn last_segment(s: Seq<char>) -> Seq<char> {
    s.subrange(segment_start(s, s.len() as int), s.len() as int)
}

/// The role a profile fulfils.
pub open spec fn role_of(profile: AgentProfile) -> Seq<char> {
    match profile.role {
        Some(role) => role@,
        None => last_segment(profile.id@),
    }
}

impl AgentProfile {
    /// The workflow role this profile fulfils: its explicit role when set, otherwise the
    /// last dotted segment of its id.
    pub fn fulfilled_role(&self) -> (r: &str)
        ensures
            r@ == role_of(*self),
    {
        match &self.role {
            Some(role) => role.as_str(),
            None => {
                let id: &str = self.id.as_str();
                let v: Vec<char> = crate::text::char_vec(id);
                let mut n: usize = v.len();
                while n > 0 && v[n - 1] != '.'
                    invariant
                        v@ == id@,
                        n <= v@.len(),
                        segment_start(id@, id@.len() as int) == segment_start(id@, n as int),
                    decreases n,
                {
                    n = n - 1;
                }
                id.substring_char(n, v.len())
            },
        }
    }
}

/// The last segment holds no dot, and is the whole string exactly when there is none.
pub proof fn law_last_segment(s: Seq<char>)
    ensures
        !last_segment(s).contains('.'),
        last_segment(s) == s <==> !s.contains('.'),
{
    lemma_segment_start(s, s.len() as int);
    let start = segment_start(s, s.len() as int);
    if last_segment(s).contains('.') {
        let i = last_segment(s).index_of('.');
        assert(s[start + i] == '.');
    }
    if s.contains('.') {
        let i = s.index_of('.');
        assert(start > i);
        assert(last_segment(s).len() < s.len());
    } else {
        if start > 0 {
            assert(s.contains(s[start - 1]));
        }
        assert(last_segment(s) =~= s);
    }
}

proof fn lemma_segment_start(s: Seq<char>, n: int)
    requires
        0 <= n <= s.len(),
    ensures
        0 <= segment_start(s, n) <= n,
        segment_start(s, n) > 0 ==> s[segment_start(s, n) - 1] == '.',
        forall|i: int| segment_start(s, n) <= i < n ==> #[trigger] s[i] != '.',
    decreases n,
{
    if n > 0 && s[n - 1] != '.' {
        lemma_segment_start(s, n - 1);
    }
}

} // verus!
