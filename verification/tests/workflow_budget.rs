//! Costs, limits and verdicts.
use codypendent::number::Double;
use codypendent::workflow::agent::AgentBudget;
use codypendent::workflow::budget::{
    add_measured_cost, check, usd_to_micros, BudgetDimension, BudgetExceeded, BudgetLimits,
    BudgetScope, BudgetVerdict, BudgetWarning, NodeCost,
};
use codypendent::workflow::json::{JsonNumber, JsonValue};
use codypendent::workflow::model::WorkflowBudget;

fn slice(wall: Option<u64>, tools: Option<u64>) -> BudgetLimits {
    BudgetLimits {
        node_max_wall_secs: wall,
        node_max_tool_calls: tools,
        node_max_cost_micros: None,
        workflow_max_wall_secs: None,
        workflow_max_cost_micros: None,
    }
}

fn cost_slice(node_cost: Option<u64>, workflow_cost: Option<u64>) -> BudgetLimits {
    BudgetLimits {
        node_max_wall_secs: None,
        node_max_tool_calls: None,
        node_max_cost_micros: node_cost,
        workflow_max_wall_secs: None,
        workflow_max_cost_micros: workflow_cost,
    }
}

fn nc(wall: u64, tools: u64) -> NodeCost {
    NodeCost {
        wall_time_secs: wall,
        tool_calls: tools,
        cost_micros: None,
    }
}

fn measured_cost(micros: u64) -> NodeCost {
    NodeCost {
        wall_time_secs: 0,
        tool_calls: 0,
        cost_micros: Some(micros),
    }
}

fn usd(value: f64) -> Double {
    Double {
        bits: value.to_bits(),
    }
}

fn object(fields: Vec<(&str, JsonValue)>) -> JsonValue {
    JsonValue::Object(
        fields
            .into_iter()
            .map(|(k, v)| (k.to_owned(), v))
            .collect(),
    )
}

fn number(n: u64) -> JsonValue {
    JsonValue::Number(JsonNumber::Unsigned(n))
}

fn fields(value: &JsonValue) -> usize {
    match value {
        JsonValue::Object(fields) => fields.len(),
        other => panic!("expected an object, got {other:?}"),
    }
}

#[test]
fn cost_json_round_trips_measured_dimensions_and_reads_leniently() {
    let unmeasured = nc(12, 3);
    let json = unmeasured.to_json();
    assert_eq!(fields(&json), 2);
    assert_eq!(json.get("cost_micros"), None);
    assert_eq!(NodeCost::from_json(&json), unmeasured);

    let measured = NodeCost {
        wall_time_secs: 12,
        tool_calls: 3,
        cost_micros: Some(4_500),
    };
    let json = measured.to_json();
    assert_eq!(fields(&json), 3);
    assert_eq!(NodeCost::from_json(&json), measured);
    let zero_cost = NodeCost {
        wall_time_secs: 0,
        tool_calls: 0,
        cost_micros: Some(0),
    };
    assert_eq!(NodeCost::from_json(&zero_cost.to_json()), zero_cost);

    assert_eq!(
        NodeCost::from_json(&object(vec![("tool_calls", number(5))])),
        nc(0, 5)
    );
    assert_eq!(NodeCost::from_json(&nc(1, 2).to_json()).cost_micros, None);
    assert_eq!(
        NodeCost::from_json(&object(vec![("cost_micros", number(7_000))])).cost_micros,
        Some(7_000)
    );
    assert_eq!(
        NodeCost::from_json(&object(vec![(
            "usd",
            JsonValue::Number(JsonNumber::Real("0.02".to_owned()))
        )])),
        NodeCost::zero()
    );
    assert_eq!(NodeCost::zero().cost_micros, None);
}

#[test]
fn within_budget_reports_no_warning_below_eighty_percent() {
    let limits = slice(Some(100), Some(10));
    let verdict = limits.charge(&NodeCost::zero(), &nc(50, 5));
    assert_eq!(verdict, BudgetVerdict::Within { warnings: vec![] });
}

#[test]
fn crossing_eighty_percent_warns_without_exceeding() {
    let limits = slice(None, Some(5));
    let verdict = limits.charge(&NodeCost::zero(), &nc(0, 4));
    match verdict {
        BudgetVerdict::Within { warnings } => {
            assert_eq!(warnings.len(), 1);
            assert_eq!(warnings[0].dimension, BudgetDimension::ToolCalls);
            assert_eq!(warnings[0].scope, BudgetScope::Node);
            assert_eq!((warnings[0].used, warnings[0].limit), (4, 5));
        }
        other => panic!("expected a warning, got {other:?}"),
    }
}

#[test]
fn exceeding_the_node_tool_call_slice_blocks() {
    let limits = slice(None, Some(1));
    let verdict = limits.charge(&NodeCost::zero(), &nc(0, 2));
    assert_eq!(
        verdict,
        BudgetVerdict::Exceeded(BudgetExceeded {
            dimension: BudgetDimension::ToolCalls,
            scope: BudgetScope::Node,
            used: 2,
            limit: 1,
        })
    );
}

#[test]
fn exceeding_the_node_wall_slice_blocks_deterministically() {
    let limits = slice(Some(5), None);
    let verdict = limits.charge(&NodeCost::zero(), &nc(10, 0));
    assert_eq!(
        verdict,
        BudgetVerdict::Exceeded(BudgetExceeded {
            dimension: BudgetDimension::WallTime,
            scope: BudgetScope::Node,
            used: 10,
            limit: 5,
        })
    );
}

#[test]
fn within_the_cost_slice_below_eighty_percent_reports_no_warning() {
    let limits = cost_slice(Some(1_000_000), None);
    let verdict = limits.charge(&NodeCost::zero(), &measured_cost(500_000));
    assert_eq!(verdict, BudgetVerdict::Within { warnings: vec![] });
}

#[test]
fn crossing_eighty_percent_of_the_cost_slice_warns_without_exceeding() {
    let limits = cost_slice(Some(1_000_000), None);
    let verdict = limits.charge(&NodeCost::zero(), &measured_cost(800_000));
    match verdict {
        BudgetVerdict::Within { warnings } => {
            assert_eq!(warnings.len(), 1);
            assert_eq!(warnings[0].dimension, BudgetDimension::Cost);
            assert_eq!(warnings[0].scope, BudgetScope::Node);
            assert_eq!((warnings[0].used, warnings[0].limit), (800_000, 1_000_000));
        }
        other => panic!("expected a cost warning, got {other:?}"),
    }
}

#[test]
fn exceeding_the_node_cost_slice_blocks() {
    let limits = cost_slice(Some(1_000_000), None);
    let verdict = limits.charge(&NodeCost::zero(), &measured_cost(2_000_000));
    assert_eq!(
        verdict,
        BudgetVerdict::Exceeded(BudgetExceeded {
            dimension: BudgetDimension::Cost,
            scope: BudgetScope::Node,
            used: 2_000_000,
            limit: 1_000_000,
        })
    );
}

#[test]
fn the_workflow_cost_envelope_nests_over_all_nodes() {
    let limits = cost_slice(None, Some(1_000_000));
    let verdict = limits.charge(&measured_cost(900_000), &measured_cost(200_000));
    assert_eq!(
        verdict,
        BudgetVerdict::Exceeded(BudgetExceeded {
            dimension: BudgetDimension::Cost,
            scope: BudgetScope::Workflow,
            used: 1_100_000,
            limit: 1_000_000,
        })
    );
}

#[test]
fn an_all_unmeasured_run_charges_no_cost_even_under_a_ceiling() {
    let limits = cost_slice(Some(1_000_000), Some(1_000_000));
    assert!(!limits.is_unbounded(), "the ceilings ARE configured");
    let verdict = limits.charge(&NodeCost::zero(), &NodeCost::zero());
    assert_eq!(verdict, BudgetVerdict::Within { warnings: vec![] });
    let others = NodeCost::zero()
        .saturating_add(&nc(5, 5))
        .saturating_add(&nc(5, 5));
    assert_eq!(
        others.cost_micros, None,
        "unmeasured costs never sum to Some"
    );
    assert_eq!(
        limits.charge(&others, &nc(1, 1)),
        BudgetVerdict::Within { warnings: vec![] }
    );
    assert!(matches!(
        limits.charge(&NodeCost::zero(), &measured_cost(2_000_000)),
        BudgetVerdict::Exceeded(BudgetExceeded {
            dimension: BudgetDimension::Cost,
            ..
        })
    ));
}

#[test]
fn the_workflow_envelope_nests_over_all_nodes() {
    let limits = BudgetLimits {
        node_max_wall_secs: None,
        node_max_tool_calls: None,
        node_max_cost_micros: None,
        workflow_max_wall_secs: Some(100),
        workflow_max_cost_micros: None,
    };
    let verdict = limits.charge(&nc(90, 0), &nc(20, 0));
    assert_eq!(
        verdict,
        BudgetVerdict::Exceeded(BudgetExceeded {
            dimension: BudgetDimension::WallTime,
            scope: BudgetScope::Workflow,
            used: 110,
            limit: 100,
        })
    );
}

#[test]
fn the_pre_gate_detects_an_already_exhausted_envelope() {
    let limits = BudgetLimits {
        node_max_wall_secs: None,
        node_max_tool_calls: None,
        node_max_cost_micros: None,
        workflow_max_wall_secs: Some(100),
        workflow_max_cost_micros: None,
    };
    assert!(matches!(
        limits.charge(&nc(101, 0), &NodeCost::zero()),
        BudgetVerdict::Exceeded(BudgetExceeded {
            scope: BudgetScope::Workflow,
            ..
        })
    ));
}

#[test]
fn the_node_slice_is_checked_before_the_workflow_envelope() {
    let limits = BudgetLimits {
        node_max_wall_secs: Some(5),
        node_max_tool_calls: None,
        node_max_cost_micros: None,
        workflow_max_wall_secs: Some(5),
        workflow_max_cost_micros: None,
    };
    let verdict = limits.charge(&NodeCost::zero(), &nc(10, 0));
    assert!(matches!(
        verdict,
        BudgetVerdict::Exceeded(BudgetExceeded {
            scope: BudgetScope::Node,
            ..
        })
    ));
}

#[test]
fn an_unbounded_budget_charges_nothing() {
    let limits = BudgetLimits::default();
    assert!(limits.is_unbounded());
    assert_eq!(
        limits.charge(&nc(9_999, 9_999), &nc(9_999, 9_999)),
        BudgetVerdict::Within { warnings: vec![] }
    );
}

#[test]
fn resolve_reads_cost_and_both_budgets() {
    let workflow = WorkflowBudget {
        maximum_cost_usd: Some(usd(5.0)),
        maximum_duration_seconds: Some(3600),
        maximum_agents: Some(2),
    };
    let node = AgentBudget {
        maximum_cost_usd: Some(usd(3.0)),
        maximum_duration_seconds: Some(1800),
        maximum_tool_calls: Some(80),
    };
    let limits = BudgetLimits::resolve(&workflow, Some(&node));
    assert_eq!(limits.node_max_wall_secs, Some(1800));
    assert_eq!(limits.node_max_tool_calls, Some(80));
    assert_eq!(limits.node_max_cost_micros, Some(3_000_000));
    assert_eq!(limits.workflow_max_wall_secs, Some(3600));
    assert_eq!(limits.workflow_max_cost_micros, Some(5_000_000));
    let tool = BudgetLimits::resolve(&workflow, None);
    assert_eq!(tool.node_max_wall_secs, None);
    assert_eq!(tool.node_max_tool_calls, None);
    assert_eq!(tool.node_max_cost_micros, None);
    assert_eq!(tool.workflow_max_wall_secs, Some(3600));
    assert_eq!(tool.workflow_max_cost_micros, Some(5_000_000));
}

fn micros(value: f64) -> u64 {
    if !value.is_finite() || value <= 0.0 {
        return 0;
    }
    (value * 1_000_000.0).round() as u64
}

#[test]
fn dollars_become_micros_as_floating_point_rounds_them() {
    let samples = [
        0.0,
        -0.0,
        0.1,
        0.2,
        0.29,
        1.005,
        0.0000005,
        0.0000015,
        0.0000025,
        3.1415926535,
        12345.678901,
        1e-300,
        f64::MIN_POSITIVE,
        5e-324,
        4503599627.370496,
        9007199254740993.0,
        18446744073709.55,
        18446744073709.56,
        1e14,
        1e300,
        f64::MAX,
        f64::INFINITY,
        f64::NEG_INFINITY,
        f64::NAN,
        -1.0,
        -1e300,
    ];
    for value in samples {
        let expected = micros(value);
        assert_eq!(usd_to_micros(usd(value)), expected, "{value}");
    }
    let mut seed: u64 = 0x9e37_79b9_7f4a_7c15;
    for _ in 0..20_000 {
        seed ^= seed << 13;
        seed ^= seed >> 7;
        seed ^= seed << 17;
        let wild = f64::from_bits(seed);
        let expected = micros(wild);
        assert_eq!(usd_to_micros(usd(wild)), expected, "{wild:e}");
        let tame = (seed % 100_000_000) as f64 / 12_345.678;
        let expected = micros(tame);
        assert_eq!(usd_to_micros(usd(tame)), expected, "{tame:e}");
    }
}

#[test]
fn doubles_compare_as_numbers() {
    assert!(usd(1.0).is_positive_finite());
    assert!(usd(5e-324).is_positive_finite());
    for bad in [0.0, -0.0, -1.0, f64::INFINITY, f64::NAN] {
        assert!(!usd(bad).is_positive_finite(), "{bad}");
    }
    assert!(usd(0.0).same_value(usd(-0.0)));
    assert!(!usd(f64::NAN).same_value(usd(f64::NAN)));
    assert!(usd(2.5).same_value(usd(2.5)));
    assert!(!usd(2.5).same_value(usd(-2.5)));
}

#[test]
fn sums_stop_at_the_largest_number() {
    let much = nc(u64::MAX, u64::MAX).saturating_add(&nc(1, 1));
    assert_eq!(much, nc(u64::MAX, u64::MAX));
    assert_eq!(add_measured_cost(None, None), None);
    assert_eq!(add_measured_cost(Some(2), None), Some(2));
    assert_eq!(add_measured_cost(None, Some(3)), Some(3));
    assert_eq!(add_measured_cost(Some(2), Some(3)), Some(5));
    assert_eq!(
        add_measured_cost(Some(u64::MAX), Some(3)),
        Some(u64::MAX)
    );
}

#[test]
fn a_line_is_checked_on_its_own() {
    let mut warnings: Vec<BudgetWarning> = Vec::new();
    let node = BudgetScope::Node;
    let calls = BudgetDimension::ToolCalls;
    assert_eq!(check(node, calls, 9, None, &mut warnings), None);
    assert!(warnings.is_empty());
    assert_eq!(check(node, calls, 7, Some(10), &mut warnings), None);
    assert!(warnings.is_empty());
    assert_eq!(check(node, calls, 10, Some(10), &mut warnings), None);
    assert_eq!(warnings.len(), 1);
    let breach = check(node, calls, 11, Some(10), &mut warnings).expect("over");
    assert_eq!((breach.used, breach.limit), (11, 10));
    assert_eq!(warnings.len(), 1);
    assert_eq!(
        breach.reason(),
        "workflow.budget-exceeded: node budget for `tool_calls` exceeded (11 used, limit 10)"
    );
}
