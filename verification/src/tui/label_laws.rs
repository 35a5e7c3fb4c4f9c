//! What the words and colors tell apart.
use crate::text_laws::value;
use crate::tui::labels::{
    confidence_hue, cost_words, described, mode_word, node_hue, risk_hue,
    risk_word, skill_hue, state_color, state_mark, state_word, FAIR_CONFIDENCE,
    INFINITE_CONFIDENCE, TRUSTED_CONFIDENCE,
};
use crate::tui::protocol::{AgentMode, ProposedAction, RiskLevel, RunState};
use crate::tui::state::Confidence;
use crate::tui::theme::Theme;
use vstd::prelude::*;

verus! {

/// Two states have the same word only where they are the same state.
pub proof fn law_states_are_told_apart(a: RunState, b: RunState)
    ensures
        state_word(a) == state_word(b) ==> a == b,
{
    reveal_strlit("Queued");
    reveal_strlit("Preparing");
    reveal_strlit("Running");
    reveal_strlit("WaitingForApproval");
    reveal_strlit("WaitingForInput");
    reveal_strlit("Paused");
    reveal_strlit("Recovering");
    reveal_strlit("Completed");
    reveal_strlit("Failed");
    reveal_strlit("Cancelled");
    reveal_strlit("Unknown");
    let s = state_word(a);
    let t = state_word(b);
    if s == t {
        assert(s.len() == t.len());
        assert(s[0] == t[0]);
        assert(s[1] == t[1]);
        assert(s[2] == t[2]);
    }
}

/// A run that failed, one that was cancelled, one that completed, one that waits for somebody and
/// one that is paused each have a mark that no other state has.
pub proof fn law_marks_tell_how_a_run_stands(a: RunState, b: RunState)
    ensures
        state_mark(a) == state_mark(b) ==> {
            &&& a is Completed <==> b is Completed
            &&& a is Failed <==> b is Failed
            &&& a is Cancelled <==> b is Cancelled
            &&& a is Paused <==> b is Paused
            &&& (a is WaitingForApproval || a is WaitingForUserInput) <==> (
            b is WaitingForApproval || b is WaitingForUserInput)
        },
{
    reveal_strlit("\u{2713}");
    reveal_strlit("\u{2717}");
    reveal_strlit("\u{2298}");
    reveal_strlit("\u{25c6}");
    reveal_strlit("\u{23f8}");
    reveal_strlit("\u{25cf}");
    let s = state_mark(a);
    let t = state_mark(b);
    if s == t {
        assert(s[0] == t[0]);
    }
}

/// Only a failure has the color of errors, only a success that of success, and a run that waits
/// for somebody, whatever for, that of warnings, in a theme that tells these apart.
pub proof fn law_colors_tell_how_a_run_stands(state: RunState, theme: Theme)
    requires
        theme.status.error != theme.status.success,
        theme.status.error != theme.status.warning,
        theme.status.error != theme.status.running,
        theme.status.error != theme.status.info,
        theme.status.error != theme.status.idle,
        theme.status.error != theme.text.muted,
        theme.status.success != theme.status.warning,
        theme.status.success != theme.status.running,
        theme.status.success != theme.status.info,
        theme.status.success != theme.status.idle,
        theme.status.success != theme.text.muted,
        theme.status.warning != theme.status.running,
        theme.status.warning != theme.status.info,
        theme.status.warning != theme.status.idle,
        theme.status.warning != theme.text.muted,
        theme.status.running != theme.status.info,
        theme.status.running != theme.status.idle,
        theme.status.running != theme.text.muted,
        theme.status.info != theme.status.idle,
        theme.status.info != theme.text.muted,
    ensures
        state_color(state, theme) == theme.status.error <==> state is Failed,
        state_color(state, theme) == theme.status.success <==> state is Completed,
        state_color(state, theme) == theme.status.warning <==> state is WaitingForApproval
            || state is WaitingForUserInput,
        state_color(state, theme) == theme.status.running <==> state is Running
            || state is Preparing,
        state_color(state, theme) == theme.status.info <==> state is Paused,
{
}

/// Two modes have the same word only where they are the same mode.
pub proof fn law_modes_are_told_apart(a: AgentMode, b: AgentMode)
    ensures
        mode_word(a) == mode_word(b) ==> a == b,
{
    reveal_strlit("Ask");
    reveal_strlit("Explore");
    reveal_strlit("Plan");
    reveal_strlit("Build");
    reveal_strlit("Review");
    reveal_strlit("Unknown");
    let s = mode_word(a);
    let t = mode_word(b);
    if s == t {
        assert(s[0] == t[0]);
    }
}

/// Two risks have the same word only where they are the same risk; what is high or critical has
/// the color of errors.
pub proof fn law_risks_are_told_apart(a: RiskLevel, b: RiskLevel, theme: Theme)
    ensures
        risk_word(a) == risk_word(b) ==> a == b,
        a is High || a is Critical ==> risk_hue(a, theme) == theme.status.error,
        a is Medium ==> risk_hue(a, theme) == theme.status.warning,
        a is Low ==> risk_hue(a, theme) == theme.status.success,
        a is Unknown ==> risk_hue(a, theme) == theme.text.muted,
{
    reveal_strlit("LOW");
    reveal_strlit("MED");
    reveal_strlit("HIGH");
    reveal_strlit("CRIT");
    reveal_strlit("????");
    let s = risk_word(a);
    let t = risk_word(b);
    if s == t {
        assert(s[0] == t[0]);
    }
}

/// A node that failed or is blocked has the color of errors, whatever else it may be called.
pub proof fn law_a_stuck_node_looks_like_one(state: Seq<char>, theme: Theme)
    ensures
        state == "failed"@ || state == "blocked"@ ==> node_hue(state, theme) == theme.status.error,
        state == "completed"@ ==> node_hue(state, theme) == theme.status.success,
        state == "running"@ ==> node_hue(state, theme) == theme.status.running,
        state == "waiting_approval"@ ==> node_hue(state, theme) == theme.status.warning,
        state == "pending"@ ==> node_hue(state, theme) == theme.status.info,
        state == "skipped"@ ==> node_hue(state, theme) == theme.text.muted,
{
    reveal_strlit("failed");
    reveal_strlit("blocked");
    reveal_strlit("completed");
    reveal_strlit("running");
    reveal_strlit("waiting_approval");
    reveal_strlit("pending");
    reveal_strlit("skipped");
    let all = seq![
        "completed"@,
        "running"@,
        "waiting_approval"@,
        "failed"@,
        "blocked"@,
        "pending"@,
        "skipped"@,
    ];
    assert forall|i: int, j: int| 0 <= i < 7 && 0 <= j < 7 && i != j implies #[trigger] all[i]
        != #[trigger] all[j] by {
        assert(all[i][0] != all[j][0] || all[i].len() != all[j].len());
    }
    assert(all[0] == "completed"@ && all[1] == "running"@ && all[2] == "waiting_approval"@ && all[3]
        == "failed"@ && all[4] == "blocked"@ && all[5] == "pending"@ && all[6] == "skipped"@);
}

/// A skill that is safe or of low risk has the color of success, one of high risk that of errors.
pub proof fn law_a_risky_skill_looks_like_one(risk: Seq<char>, theme: Theme)
    ensures
        risk == "safe"@ || risk == "low"@ ==> skill_hue(risk, theme) == theme.status.success,
        risk == "medium"@ ==> skill_hue(risk, theme) == theme.status.warning,
        risk == "high"@ ==> skill_hue(risk, theme) == theme.status.error,
        risk != "safe"@ && risk != "low"@ && risk != "medium"@ && risk != "high"@ ==> skill_hue(
            risk,
            theme,
        ) == theme.text.muted,
{
    reveal_strlit("safe");
    reveal_strlit("low");
    reveal_strlit("medium");
    reveal_strlit("high");
    assert("safe"@[0] != "low"@[0] && "safe"@[0] != "medium"@[0] && "safe"@[0] != "high"@[0]);
    assert("low"@[0] != "medium"@[0] && "low"@[0] != "high"@[0] && "medium"@[0] != "high"@[0]);
}

/// More confidence never looks like less: of two numbers the greater is trusted where the lesser
/// is, and fair or better where the lesser is; what is no number, and what is negative, is neither.
pub proof fn law_confidence_grows(less: Confidence, more: Confidence, theme: Theme)
    requires
        less.bits <= more.bits <= INFINITE_CONFIDENCE,
        theme.status.success != theme.status.warning,
        theme.status.success != theme.text.muted,
        theme.status.warning != theme.text.muted,
    ensures
        confidence_hue(less, theme) == theme.status.success ==> confidence_hue(more, theme)
            == theme.status.success,
        confidence_hue(less, theme) == theme.status.warning ==> confidence_hue(more, theme)
            != theme.text.muted,
        less.bits == TRUSTED_CONFIDENCE ==> confidence_hue(less, theme) == theme.status.success,
        less.bits < TRUSTED_CONFIDENCE ==> confidence_hue(less, theme) != theme.status.success,
        less.bits == FAIR_CONFIDENCE ==> confidence_hue(less, theme) == theme.status.warning,
        less.bits < FAIR_CONFIDENCE ==> confidence_hue(less, theme) == theme.text.muted,
{
}

/// What is no number, and what is negative, is shown as no confidence at all.
pub proof fn law_no_number_is_no_confidence(confidence: Confidence, theme: Theme)
    requires
        confidence.bits > 0x7f80_0000,
    ensures
        confidence_hue(confidence, theme) == theme.text.muted,
{
}

/// A cost is shown as a dollar sign, the whole units, a point and exactly two digits, and what
/// stands there is the cost: a hundred times the units and the two digits add up to it.
pub proof fn law_a_cost_is_shown_exactly(c: u64)
    ensures
        ({
            let s = cost_words(Some(c));
            let n = s.len() as int;
            &&& n >= 5
            &&& s[0] == '$'
            &&& s[n - 3] == '.'
            &&& '0' <= s[n - 2] <= '9'
            &&& '0' <= s[n - 1] <= '9'
            &&& value(s.subrange(1, n - 3)) * 100 + value(s.subrange(n - 2, n)) == c
        }),
{
    let units = crate::text::decimal((c / 100) as nat);
    let tens = crate::text::decimal((c / 10 % 10) as nat);
    let ones = crate::text::decimal((c % 10) as nat);
    let s = cost_words(Some(c));
    let n = s.len() as int;
    reveal_strlit("$");
    reveal_strlit(".");
    crate::text_laws::law_digits_stand_for_the_number((c / 100) as nat);
    crate::text_laws::law_digits_stand_for_the_number((c / 10 % 10) as nat);
    crate::text_laws::law_digits_stand_for_the_number((c % 10) as nat);
    assert(tens.len() == 1 && ones.len() == 1) by {
        reveal_with_fuel(crate::text::decimal, 2);
    }
    assert(s.subrange(1, n - 3) =~= units);
    let two = s.subrange(n - 2, n);
    assert(two =~= tens + ones);
    assert(two.drop_last() =~= tens);
    assert(ones.drop_last() =~= Seq::<char>::empty());
    assert(tens.drop_last() =~= Seq::<char>::empty());
    assert(two.last() == ones.last());
    reveal_with_fuel(value, 3);
}

/// Everything that an action touches is described: every path it reads, the patch, the program
/// with its arguments and the directory it runs in, the destination, the repository, the remote
/// and the branch.
pub proof fn law_nothing_proposed_is_hidden(action: ProposedAction, i: int)
    ensures
        ({
            let lines = described(action);
            match action {
                ProposedAction::ReadFiles { paths } => {
                    &&& lines.len() == 1 + paths@.len()
                    &&& 0 <= i < paths@.len() ==> lines[1 + i] == "  "@ + paths@[i]@
                },
                ProposedAction::WritePatch { patch } => lines == seq!["apply patch: "@ + patch@],
                ProposedAction::ExecuteCommand { program, args, environment, cwd } => {
                    &&& lines[0] == "command: "@ + program@ + " "@ + crate::text::joined(
                        crate::text::texts(args@),
                        " "@,
                    )
                    &&& cwd matches Some(dir) ==> lines[1] == "cwd: "@ + dir@
                    &&& lines.len() == 1 + environment@.len() + if cwd is Some {
                        1int
                    } else {
                        0
                    }
                    &&& 0 <= i < environment@.len() ==> lines[lines.len() - environment@.len() + i]
                        == "env: "@ + environment@[i].0@ + "="@ + environment@[i].1@
                },
                ProposedAction::NetworkRequest { destination } => lines == seq![
                    "network request: "@ + destination@,
                ],
                ProposedAction::GitCommit { repository } => lines == seq![
                    "git commit: "@ + repository@,
                ],
                ProposedAction::GitPush { remote, branch } => lines == seq![
                    "git push: "@ + remote@ + " "@ + branch@,
                ],
                ProposedAction::Unknown => lines.len() == 1,
            }
        }),
{
}

} // verus!
