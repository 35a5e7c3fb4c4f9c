//! What the shell and the daemon speak of: identities, states, actions and decisions.
//!
//! Every enumeration that the daemon may extend has an `Unknown` member, which stands for
//! whatever this build does not know.
use vstd::prelude::*;

verus! {

/// A run's identity.
#[derive(Clone, Copy, Debug, PartialEq, Eq, Structural)]
pub struct RunId(pub u128);

/// An approval's identity.
#[derive(Clone, Copy, Debug, PartialEq, Eq, Structural)]
pub struct ApprovalId(pub u128);

/// A document's identity.
#[derive(Clone, Copy, Debug, PartialEq, Eq, Structural)]
pub struct DocumentId(pub u128);

/// A stored artifact's identity.
#[derive(Clone, Copy, Debug, PartialEq, Eq, Structural)]
pub struct ArtifactId(pub u128);

/// A change set's identity, as it is written out.
#[derive(Debug, PartialEq, Eq)]
pub struct ChangeSetId(pub String);

/// A model's name.
#[derive(Debug, PartialEq, Eq)]
pub struct ModelId(pub String);

impl Clone for ChangeSetId {
    fn clone(&self) -> (r: Self)
        ensures
            r == *self,
    {
        ChangeSetId(self.0.clone())
    }
}

impl Clone for ModelId {
    fn clone(&self) -> (r: Self)
        ensures
            r == *self,
    {
        ModelId(self.0.clone())
    }
}

/// How an agent works.
#[derive(Clone, Copy, Debug, PartialEq, Eq, Structural)]
pub enum AgentMode {
    Ask,
    Explore,
    Plan,
    Build,
    Review,
    Unknown,
}

/// Where a run stands.
#[derive(Clone, Copy, Debug, PartialEq, Eq, Structural)]
pub enum RunState {
    Queued,
    Preparing,
    Running,
    WaitingForApproval,
    WaitingForUserInput,
    Paused,
    Recovering,
    Completed,
    Failed,
    Cancelled,
    Unknown,
}

/// How a run ended.
#[derive(Clone, Debug, PartialEq, Eq)]
pub enum RunDisposition {
    Completed { summary: Option<String> },
    Failed { reason: String },
    Cancelled { reason: Option<String> },
    Unknown,
}

/// What a budget is measured in.
#[derive(Clone, Copy, Debug, PartialEq, Eq, Structural)]
pub enum BudgetDimension {
    Tokens,
    Cost,
    WallClock,
    ToolCalls,
    Unknown,
}

/// How much harm an action may do.
#[derive(Clone, Copy, Debug, PartialEq, Eq, Structural)]
pub enum RiskLevel {
    Low,
    Medium,
    High,
    Critical,
    Unknown,
}

/// A risk and why it was judged so.
#[derive(Clone, Debug, PartialEq, Eq)]
pub struct Risk {
    pub level: RiskLevel,
    pub reasons: Vec<String>,
}

/// What an agent wants to do.
#[derive(Clone, Debug, PartialEq, Eq)]
pub enum ProposedAction {
    ReadFiles { paths: Vec<String> },
    WritePatch { patch: String },
    ExecuteCommand {
        program: String,
        args: Vec<String>,
        environment: Vec<(String, String)>,
        cwd: Option<String>,
    },
    NetworkRequest { destination: String },
    GitCommit { repository: String },
    GitPush { remote: String, branch: String },
    Unknown,
}

/// How a tool call ended.
#[derive(Clone, Debug, PartialEq, Eq)]
pub enum ToolOutcome {
    Succeeded,
    Failed { message: String },
    Unknown,
}

/// A stored artifact.
#[derive(Clone, Debug, PartialEq, Eq)]
pub struct ArtifactRef {
    pub id: ArtifactId,
    pub media_type: String,
    pub byte_length: u64,
}

/// What an approval covers.
#[derive(Clone, Copy, Debug, PartialEq, Eq, Structural)]
pub enum ApprovalScope {
    /// This one action.
    Once,
    /// Every such action of the run.
    Run,
}

/// What was decided on an approval.
#[derive(Clone, Copy, Debug, PartialEq, Eq, Structural)]
pub enum ApprovalDecision {
    Approve,
    Reject,
}

/// A change to a document, encoded as it is sent.
#[derive(Clone, Debug, PartialEq, Eq)]
pub struct DocumentMutation {
    pub body: String,
}

/// An event of a session, encoded as it came.
#[derive(Clone, Debug, PartialEq, Eq)]
pub struct SessionEvent {
    pub sequence: u64,
    pub body: String,
}

} // verus!
