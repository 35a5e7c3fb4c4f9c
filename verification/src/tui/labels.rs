//! The words and colors for states, modes, risks and actions.
use vstd::prelude::*;

use crate::tui::protocol::{
    AgentMode, BudgetDimension, ProposedAction, RiskLevel, RunDisposition, RunState,
};
use crate::tui::state::Confidence;
use crate::tui::theme::{Color, Theme};

verus! {

/// The word for a mode.
pub open spec fn mode_word(mode: AgentMode) -> Seq<char> {
    match mode {
        AgentMode::Ask => "Ask"@,
        AgentMode::Explore => "Explore"@,
        AgentMode::Plan => "Plan"@,
        AgentMode::Build => "Build"@,
        AgentMode::Review => "Review"@,
        AgentMode::Unknown => "Unknown"@,
    }
}

/// The word for a mode.
pub fn mode_label(mode: AgentMode) -> (r: &'static str)
    ensures
        r@ == mode_word(mode),
{
    match mode {
        AgentMode::Ask => "Ask",
        AgentMode::Explore => "Explore",
        AgentMode::Plan => "Plan",
        AgentMode::Build => "Build",
        AgentMode::Review => "Review",
        AgentMode::Unknown => "Unknown",
    }
}

/// The word for a run's state.
pub open spec fn state_word(state: RunState) -> Seq<char> {
    match state {
        RunState::Queued => "Queued"@,
        RunState::Preparing => "Preparing"@,
        RunState::Running => "Running"@,
        RunState::WaitingForApproval => "WaitingForApproval"@,
        RunState::WaitingForUserInput => "WaitingForInput"@,
        RunState::Paused => "Paused"@,
        RunState::Recovering => "Recovering"@,
        RunState::Completed => "Completed"@,
        RunState::Failed => "Failed"@,
        RunState::Cancelled => "Cancelled"@,
        RunState::Unknown => "Unknown"@,
    }
}

/// The word for a run's state.
pub fn run_state_label(state: RunState) -> (r: &'static str)
    ensures
        r@ == state_word(state),
{
    match state {
        RunState::Queued => "Queued",
        RunState::Preparing => "Preparing",
        RunState::Running => "Running",
        RunState::WaitingForApproval => "WaitingForApproval",
        RunState::WaitingForUserInput => "WaitingForInput",
        RunState::Paused => "Paused",
        RunState::Recovering => "Recovering",
        RunState::Completed => "Completed",
        RunState::Failed => "Failed",
        RunState::Cancelled => "Cancelled",
        RunState::Unknown => "Unknown",
    }
}

/// The mark for a run's state.
pub open spec fn state_mark(state: RunState) -> Seq<char> {
    match state {
        RunState::Completed => "\u{2713}"@,
        RunState::Failed => "\u{2717}"@,
        RunState::Cancelled => "\u{2298}"@,
        RunState::WaitingForApproval => "\u{25c6}"@,
        RunState::WaitingForUserInput => "\u{25c6}"@,
        RunState::Paused => "\u{23f8}"@,
        _ => "\u{25cf}"@,
    }
}

/// The mark for a run's state.
pub fn run_state_dot(state: RunState) -> (r: &'static str)
    ensures
        r@ == state_mark(state),
{
    match state {
        RunState::Completed => "\u{2713}",
        RunState::Failed => "\u{2717}",
        RunState::Cancelled => "\u{2298}",
        RunState::WaitingForApproval | RunState::WaitingForUserInput => "\u{25c6}",
        RunState::Paused => "\u{23f8}",
        _ => "\u{25cf}",
    }
}

/// The color for a run's state.
pub open spec fn state_color(state: RunState, theme: Theme) -> Color {
    match state {
        RunState::Running => theme.status.running,
        RunState::Preparing => theme.status.running,
        RunState::Completed => theme.status.success,
        RunState::Failed => theme.status.error,
        RunState::Cancelled => theme.text.muted,
        RunState::WaitingForApproval => theme.status.warning,
        RunState::WaitingForUserInput => theme.status.warning,
        RunState::Paused => theme.status.info,
        _ => theme.status.idle,
    }
}

/// The color for a run's state.
pub fn run_state_color(state: RunState, theme: &Theme) -> (r: Color)
    ensures
        r == state_color(state, *theme),
{
    match state {
        RunState::Running | RunState::Preparing => theme.status.running,
        RunState::Completed => theme.status.success,
        RunState::Failed => theme.status.error,
        RunState::Cancelled => theme.text.muted,
        RunState::WaitingForApproval | RunState::WaitingForUserInput => theme.status.warning,
        RunState::Paused => theme.status.info,
        _ => theme.status.idle,
    }
}

/// The word for a risk.
pub open spec fn risk_word(level: RiskLevel) -> Seq<char> {
    match level {
        RiskLevel::Low => "LOW"@,
        RiskLevel::Medium => "MED"@,
        RiskLevel::High => "HIGH"@,
        RiskLevel::Critical => "CRIT"@,
        RiskLevel::Unknown => "????"@,
    }
}

/// The word for a risk.
pub fn risk_label(level: RiskLevel) -> (r: &'static str)
    ensures
        r@ == risk_word(level),
{
    match level {
        RiskLevel::Low => "LOW",
        RiskLevel::Medium => "MED",
        RiskLevel::High => "HIGH",
        RiskLevel::Critical => "CRIT",
        RiskLevel::Unknown => "????",
    }
}

/// The color for a risk.
pub open spec fn risk_hue(level: RiskLevel, theme: Theme) -> Color {
    match level {
        RiskLevel::Low => theme.status.success,
        RiskLevel::Medium => theme.status.warning,
        RiskLevel::High => theme.status.error,
        RiskLevel::Critical => theme.status.error,
        RiskLevel::Unknown => theme.text.muted,
    }
}

/// The color for a risk.
pub fn risk_color(level: RiskLevel, theme: &Theme) -> (r: Color)
    ensures
        r == risk_hue(level, *theme),
{
    match level {
        RiskLevel::Low => theme.status.success,
        RiskLevel::Medium => theme.status.warning,
        RiskLevel::High | RiskLevel::Critical => theme.status.error,
        RiskLevel::Unknown => theme.text.muted,
    }
}

/// The word for a budget's measure.
pub open spec fn budget_word(dimension: BudgetDimension) -> Seq<char> {
    match dimension {
        BudgetDimension::Tokens => "tokens"@,
        BudgetDimension::Cost => "cost"@,
        BudgetDimension::WallClock => "wall-clock"@,
        BudgetDimension::ToolCalls => "tool-calls"@,
        BudgetDimension::Unknown => "budget"@,
    }
}

/// The word for a budget's measure.
pub fn budget_label(dimension: BudgetDimension) -> (r: &'static str)
    ensures
        r@ == budget_word(dimension),
{
    match dimension {
        BudgetDimension::Tokens => "tokens",
        BudgetDimension::Cost => "cost",
        BudgetDimension::WallClock => "wall-clock",
        BudgetDimension::ToolCalls => "tool-calls",
        BudgetDimension::Unknown => "budget",
    }
}

/// `text` behind a colon, if there is any.
pub open spec fn remark(text: Option<String>) -> Seq<char> {
    match text {
        Some(s) => ": "@ + s@,
        None => Seq::<char>::empty(),
    }
}

/// The words and the color for how a run ended.
pub open spec fn ending(disposition: RunDisposition, theme: Theme) -> (Seq<char>, Color) {
    match disposition {
        RunDisposition::Completed { summary } => (
            "run completed"@ + remark(summary),
            theme.status.success,
        ),
        RunDisposition::Failed { reason } => ("run failed: "@ + reason@, theme.status.error),
        RunDisposition::Cancelled { reason } => ("run cancelled"@ + remark(reason), theme.text.muted),
        RunDisposition::Unknown => ("run ended"@, theme.text.muted),
    }
}

fn with_remark(head: &str, text: &Option<String>) -> (r: String)
    ensures
        r@ == head@ + remark(*text),
{
    match text {
        Some(s) => {
            let r: String = crate::text::concat3(head, ": ", s.as_str());
            proof {
                assert(r@ =~= head@ + (": "@ + s@));
            }
            r
        },
        None => {
            let r: String = head.to_owned();
            proof {
                assert(r@ =~= head@ + Seq::<char>::empty());
            }
            r
        },
    }
}

/// The words and the color for how a run ended.
pub fn disposition_display(disposition: &RunDisposition, theme: &Theme) -> (r: (String, Color))
    ensures
        (r.0@, r.1) == ending(*disposition, *theme),
{
    match disposition {
        RunDisposition::Completed { summary } => (
            with_remark("run completed", summary),
            theme.status.success,
        ),
        RunDisposition::Failed { reason } => (
            crate::text::concat2("run failed: ", reason.as_str()),
            theme.status.error,
        ),
        RunDisposition::Cancelled { reason } => (
            with_remark("run cancelled", reason),
            theme.text.muted,
        ),
        RunDisposition::Unknown => ("run ended".to_owned(), theme.text.muted),
    }
}

/// The long dash that stands for a value that is not known.
pub open spec fn dash() -> Seq<char> {
    "\u{2014}"@
}

/// A cost in minor units, as units and two decimals.
pub open spec fn cost_words(cost: Option<u64>) -> Seq<char> {
    match cost {
        Some(c) => "$"@ + crate::text::decimal((c / 100) as nat) + "."@ + crate::text::decimal(
            (c / 10 % 10) as nat,
        ) + crate::text::decimal((c % 10) as nat),
        None => dash(),
    }
}

/// A cost in minor units, as units and two decimals.
pub fn format_cost(cost_minor: Option<u64>) -> (r: String)
    ensures
        r@ == cost_words(cost_minor),
{
    match cost_minor {
        Some(c) => {
            let units: String = crate::text::decimal_text(c / 100);
            let tens: String = crate::text::decimal_text(c / 10 % 10);
            let ones: String = crate::text::decimal_text(c % 10);
            let head: String = crate::text::concat3("$", units.as_str(), ".");
            crate::text::concat3(head.as_str(), tens.as_str(), ones.as_str())
        },
        None => "\u{2014}".to_owned(),
    }
}

/// The words for a kind of action.
pub open spec fn kind_words(action: ProposedAction) -> Seq<char> {
    match action {
        ProposedAction::ReadFiles { .. } => "read files"@,
        ProposedAction::WritePatch { .. } => "apply patch"@,
        ProposedAction::ExecuteCommand { .. } => "run command"@,
        ProposedAction::NetworkRequest { .. } => "network"@,
        ProposedAction::GitCommit { .. } => "git commit"@,
        ProposedAction::GitPush { .. } => "git push"@,
        ProposedAction::Unknown => "unsupported"@,
    }
}

/// The words for a kind of action.
pub fn action_kind(action: &ProposedAction) -> (r: &'static str)
    ensures
        r@ == kind_words(*action),
{
    match action {
        ProposedAction::ReadFiles { .. } => "read files",
        ProposedAction::WritePatch { .. } => "apply patch",
        ProposedAction::ExecuteCommand { .. } => "run command",
        ProposedAction::NetworkRequest { .. } => "network",
        ProposedAction::GitCommit { .. } => "git commit",
        ProposedAction::GitPush { .. } => "git push",
        ProposedAction::Unknown => "unsupported",
    }
}

/// Everything an action would do, line by line: every path, every argument, the working
/// directory and every variable of the environment, exactly as proposed.
pub open spec fn described(action: ProposedAction) -> Seq<Seq<char>> {
    match action {
        ProposedAction::ReadFiles { paths } => seq!["read files:"@] + Seq::new(
            paths@.len(),
            |i: int| "  "@ + paths@[i]@,
        ),
        ProposedAction::WritePatch { patch } => seq!["apply patch: "@ + patch@],
        ProposedAction::ExecuteCommand { program, args, environment, cwd } => {
            seq![
                "command: "@ + program@ + " "@ + crate::text::joined(
                    crate::text::texts(args@),
                    " "@,
                ),
            ] + match cwd {
                Some(dir) => seq!["cwd: "@ + dir@],
                None => Seq::<Seq<char>>::empty(),
            } + Seq::new(
                environment@.len(),
                |i: int| "env: "@ + environment@[i].0@ + "="@ + environment@[i].1@,
            )
        },
        ProposedAction::NetworkRequest { destination } => {
            seq!["network request: "@ + destination@]
        },
        ProposedAction::GitCommit { repository } => seq!["git commit: "@ + repository@],
        ProposedAction::GitPush { remote, branch } => {
            seq!["git push: "@ + remote@ + " "@ + branch@]
        },
        ProposedAction::Unknown => seq!["unsupported action"@],
    }
}

fn one(line: String) -> (r: Vec<String>)
    ensures
        crate::text::texts(r@) == seq![line@],
{
    let mut r: Vec<String> = Vec::new();
    r.push(line);
    proof {
        assert(crate::text::texts(r@) =~= seq![line@]);
    }
    r
}

/// Everything an action would do, line by line.
pub fn describe_action(action: &ProposedAction) -> (r: Vec<String>)
    ensures
        crate::text::texts(r@) == described(*action),
{
    match action {
        ProposedAction::ReadFiles { paths } => {
            let mut r: Vec<String> = one("read files:".to_owned());
            let mut i: usize = 0;
            proof {
                assert(crate::text::texts(r@) =~= seq!["read files:"@] + Seq::new(
                    0,
                    |k: int| "  "@ + paths@[k]@,
                ));
            }
            while i < paths.len()
                invariant
                    i <= paths@.len(),
                    crate::text::texts(r@) == seq!["read files:"@] + Seq::new(
                        i as nat,
                        |k: int| "  "@ + paths@[k]@,
                    ),
                decreases paths@.len() - i,
            {
                let ghost before = crate::text::texts(r@);
                r.push(crate::text::concat2("  ", paths[i].as_str()));
                proof {
                    assert(crate::text::texts(r@) =~= before.push("  "@ + paths@[i as int]@));
                    assert(crate::text::texts(r@) =~= seq!["read files:"@] + Seq::new(
                        (i + 1) as nat,
                        |k: int| "  "@ + paths@[k]@,
                    ));
                }
                i = i + 1;
            }
            r
        },
        ProposedAction::WritePatch { patch } => one(
            crate::text::concat2("apply patch: ", patch.as_str()),
        ),
        ProposedAction::ExecuteCommand { program, args, environment, cwd } => {
            let joined: String = crate::text::join(args, " ");
            let head: String = crate::text::concat3("command: ", program.as_str(), " ");
            let mut r: Vec<String> = one(crate::text::concat2(head.as_str(), joined.as_str()));
            let ghost first = seq![
                "command: "@ + program@ + " "@ + crate::text::joined(
                    crate::text::texts(args@),
                    " "@,
                ),
            ];
            let ghost at = match cwd {
                Some(dir) => seq!["cwd: "@ + dir@],
                None => Seq::<Seq<char>>::empty(),
            };
            if let Some(dir) = cwd {
                r.push(crate::text::concat2("cwd: ", dir.as_str()));
            }
            proof {
                assert(crate::text::texts(r@) =~= first + at);
                assert(crate::text::texts(r@) =~= first + at + Seq::new(
                    0,
                    |k: int| "env: "@ + environment@[k].0@ + "="@ + environment@[k].1@,
                ));
            }
            let mut i: usize = 0;
            while i < environment.len()
                invariant
                    i <= environment@.len(),
                    crate::text::texts(r@) == first + at + Seq::new(
                        i as nat,
                        |k: int| "env: "@ + environment@[k].0@ + "="@ + environment@[k].1@,
                    ),
                decreases environment@.len() - i,
            {
                let ghost before = crate::text::texts(r@);
                let name: String = crate::text::concat3("env: ", environment[i].0.as_str(), "=");
                r.push(crate::text::concat2(name.as_str(), environment[i].1.as_str()));
                proof {
                    let line = "env: "@ + environment@[i as int].0@ + "="@
                        + environment@[i as int].1@;
                    assert(crate::text::texts(r@) =~= before.push(line));
                    assert(crate::text::texts(r@) =~= first + at + Seq::new(
                        (i + 1) as nat,
                        |k: int| "env: "@ + environment@[k].0@ + "="@ + environment@[k].1@,
                    ));
                }
                i = i + 1;
            }
            r
        },
        ProposedAction::NetworkRequest { destination } => one(
            crate::text::concat2("network request: ", destination.as_str()),
        ),
        ProposedAction::GitCommit { repository } => one(
            crate::text::concat2("git commit: ", repository.as_str()),
        ),
        ProposedAction::GitPush { remote, branch } => {
            let head: String = crate::text::concat3("git push: ", remote.as_str(), " ");
            one(crate::text::concat2(head.as_str(), branch.as_str()))
        },
        ProposedAction::Unknown => one("unsupported action".to_owned()),
    }
}

/// The color for a workflow node's state.
pub open spec fn node_hue(state: Seq<char>, theme: Theme) -> Color {
    if state == "completed"@ {
        theme.status.success
    } else if state == "running"@ {
        theme.status.running
    } else if state == "waiting_approval"@ {
        theme.status.warning
    } else if state == "failed"@ || state == "blocked"@ {
        theme.status.error
    } else if state == "pending"@ {
        theme.status.info
    } else {
        theme.text.muted
    }
}

/// The color for a workflow node's state.
pub fn node_state_color(state: &str, theme: &Theme) -> (r: Color)
    ensures
        r == node_hue(state@, *theme),
{
    if crate::text::same_text(state, "completed") {
        theme.status.success
    } else if crate::text::same_text(state, "running") {
        theme.status.running
    } else if crate::text::same_text(state, "waiting_approval") {
        theme.status.warning
    } else if crate::text::same_text(state, "failed") || crate::text::same_text(state, "blocked") {
        theme.status.error
    } else if crate::text::same_text(state, "pending") {
        theme.status.info
    } else {
        theme.text.muted
    }
}

/// The color for a skill's risk.
pub open spec fn skill_hue(risk: Seq<char>, theme: Theme) -> Color {
    if risk == "safe"@ || risk == "low"@ {
        theme.status.success
    } else if risk == "medium"@ {
        theme.status.warning
    } else if risk == "high"@ {
        theme.status.error
    } else {
        theme.text.muted
    }
}

/// The color for a skill's risk.
pub fn skill_risk_color(risk: &str, theme: &Theme) -> (r: Color)
    ensures
        r == skill_hue(risk@, *theme),
{
    if crate::text::same_text(risk, "safe") || crate::text::same_text(risk, "low") {
        theme.status.success
    } else if crate::text::same_text(risk, "medium") {
        theme.status.warning
    } else if crate::text::same_text(risk, "high") {
        theme.status.error
    } else {
        theme.text.muted
    }
}

/// The bits of the single-precision number next to 0.9.
pub const TRUSTED_CONFIDENCE: u32 = 0x3f66_6666;

/// The bits of the single-precision number next to 0.6.
pub const FAIR_CONFIDENCE: u32 = 0x3f19_999a;

/// The bits of infinity.
pub const INFINITE_CONFIDENCE: u32 = 0x7f80_0000;

/// Whether a single-precision number is at least the positive one with the bits `least`. Of
/// two positive numbers the greater has the greater bits; a negative number has the top bit
/// set, and what is no number lies above infinity.
pub open spec fn at_least(bits: u32, least: u32) -> bool {
    least <= bits <= INFINITE_CONFIDENCE
}

/// The color for an edge's confidence: trusted from 0.9 on, fair from 0.6 on.
pub open spec fn confidence_hue(confidence: Confidence, theme: Theme) -> Color {
    if at_least(confidence.bits, TRUSTED_CONFIDENCE) {
        theme.status.success
    } else if at_least(confidence.bits, FAIR_CONFIDENCE) {
        theme.status.warning
    } else {
        theme.text.muted
    }
}

/// The color for an edge's confidence.
pub fn edge_confidence_color(confidence: &Confidence, theme: &Theme) -> (r: Color)
    ensures
        r == confidence_hue(*confidence, *theme),
{
    let bits: u32 = confidence.bits;
    if TRUSTED_CONFIDENCE <= bits && bits <= INFINITE_CONFIDENCE {
        theme.status.success
    } else if FAIR_CONFIDENCE <= bits && bits <= INFINITE_CONFIDENCE {
        theme.status.warning
    } else {
        theme.text.muted
    }
}

/// Every variable that a command would run with is among the described lines, with its
/// value.
pub proof fn law_no_variable_is_hidden(
    program: String,
    args: Vec<String>,
    environment: Vec<(String, String)>,
    cwd: Option<String>,
    i: int,
)
    requires
        0 <= i < environment@.len(),
    ensures
        described(ProposedAction::ExecuteCommand { program, args, environment, cwd }).contains(
            "env: "@ + environment@[i].0@ + "="@ + environment@[i].1@,
        ),
{
    let all = described(ProposedAction::ExecuteCommand { program, args, environment, cwd });
    let before = all.len() - environment@.len();
    assert(all[before + i] == "env: "@ + environment@[i].0@ + "="@ + environment@[i].1@);
}

} // verus!
