//! Binding inputs into tool arguments, and the values that are bound.
use codypendent::text_map::TextMap;
use codypendent::workflow::binding::{
    bind_with, find_placeholders, normalize_tool_name, scan_input_refs,
};
use codypendent::workflow::json::{JsonNumber, JsonValue};

fn text(s: &str) -> JsonValue {
    JsonValue::String(s.to_owned())
}

fn number(n: u64) -> JsonValue {
    JsonValue::Number(JsonNumber::Unsigned(n))
}

fn object(fields: Vec<(&str, JsonValue)>) -> JsonValue {
    JsonValue::Object(
        fields
            .into_iter()
            .map(|(k, v)| (k.to_owned(), v))
            .collect(),
    )
}

fn with(fields: Vec<(&str, JsonValue)>) -> TextMap<JsonValue> {
    let mut map = TextMap::new();
    for (k, v) in fields {
        map.insert(k.to_owned(), v);
    }
    map
}

#[test]
fn normalization_is_a_hyphen_to_underscore_alias() {
    assert_eq!(
        normalize_tool_name("github.update-pull-request"),
        "github.update_pull_request"
    );
    assert_eq!(
        normalize_tool_name("github.update_pull_request"),
        "github.update_pull_request"
    );
    assert_eq!(normalize_tool_name("repository.test"), "repository.test");
}

#[test]
fn scan_reports_referenced_inputs_and_rejects_malformed() {
    assert_eq!(
        scan_input_refs("${{ inputs.pull_request }}").unwrap(),
        vec!["pull_request".to_string()]
    );
    assert_eq!(
        scan_input_refs("PR #${{ inputs.pull_request }} on ${{ inputs.repo }}").unwrap(),
        vec!["pull_request".to_string(), "repo".to_string()]
    );
    assert!(scan_input_refs("${{ env.SECRET }}").is_err());
    assert!(scan_input_refs("${{ inputs.x").is_err());
    assert!(scan_input_refs("just text").unwrap().is_empty());
}

#[test]
fn placeholders_are_found_by_byte() {
    let found = find_placeholders("é${{ inputs.x }}!").unwrap();
    assert_eq!(found, vec![(2, 17, "x".to_owned())]);
}

#[test]
fn whole_string_placeholder_preserves_the_input_type() {
    let inputs = object(vec![
        ("pull_request", number(7)),
        ("flag", JsonValue::Bool(true)),
    ]);
    let bound = bind_with(
        &with(vec![
            ("number", text("${{ inputs.pull_request }}")),
            ("enabled", text("${{ inputs.flag }}")),
        ]),
        &inputs,
    )
    .unwrap();
    assert_eq!(bound.get("number"), Some(&number(7)));
    assert_eq!(bound.get("enabled"), Some(&JsonValue::Bool(true)));
}

#[test]
fn embedded_placeholder_substitutes_stringified() {
    let inputs = object(vec![("pull_request", number(7))]);
    let bound = bind_with(
        &with(vec![("body", text("fixes PR #${{ inputs.pull_request }}"))]),
        &inputs,
    )
    .unwrap();
    assert_eq!(bound.get("body"), Some(&text("fixes PR #7")));
}

#[test]
fn non_string_values_pass_through() {
    let inputs = object(vec![]);
    let nested = object(vec![("a", number(1))]);
    let bound = bind_with(
        &with(vec![("count", number(3)), ("nested", nested.clone())]),
        &inputs,
    )
    .unwrap();
    assert_eq!(bound.get("count"), Some(&number(3)));
    assert_eq!(bound.get("nested"), Some(&nested));
}

#[test]
fn an_unknown_input_is_a_legible_binding_error() {
    let inputs = object(vec![("pull_request", number(7))]);
    let err = bind_with(&with(vec![("x", text("${{ inputs.missing }}"))]), &inputs).unwrap_err();
    assert!(err.contains("missing"), "error names the input: {err}");
}

#[test]
fn values_are_written_as_json() {
    let samples = [
        JsonValue::Null,
        JsonValue::Bool(false),
        number(18446744073709551615),
        JsonValue::Number(JsonNumber::Negative(-9223372036854775808)),
        JsonValue::Number(JsonNumber::Real("0.5".to_owned())),
        text("plain"),
        text("a \"quote\" \\ slash / \u{8}\u{c}\n\r\t\u{1}\u{1f}\u{7f} é \u{2028}"),
        JsonValue::Array(vec![number(1), JsonValue::Null, text("x")]),
        JsonValue::Array(vec![]),
        object(vec![]),
        object(vec![
            ("a", JsonValue::Array(vec![object(vec![("b", number(2))])])),
            ("c\n", JsonValue::Bool(true)),
        ]),
    ];
    for value in samples {
        let written = value.to_text();
        let read: serde_json::Value = serde_json::from_str(&written).expect("valid");
        assert_eq!(written, read.to_string());
    }
    assert_eq!(text("a\"b").to_text(), "\"a\\\"b\"");
}

#[test]
fn an_embedded_value_that_is_no_text_is_written_as_json() {
    let inputs = object(vec![("list", JsonValue::Array(vec![number(1), text("é")]))]);
    let bound = bind_with(
        &with(vec![("x", text("got ${{ inputs.list }}."))]),
        &inputs,
    )
    .unwrap();
    assert_eq!(bound.get("x"), Some(&text("got [1,\"é\"].")));
}

#[test]
fn each_argument_is_bound_under_its_own_key() {
    let inputs = object(vec![("pull_request", number(7))]);
    let arguments = with(vec![
        ("number", text("${{ inputs.pull_request }}")),
        ("body", text("old")),
        ("body", text("fixes PR #${{ inputs.pull_request }}")),
    ]);
    assert_eq!(
        arguments.entries(),
        &vec![
            (
                "body".to_owned(),
                text("fixes PR #${{ inputs.pull_request }}")
            ),
            ("number".to_owned(), text("${{ inputs.pull_request }}")),
        ]
    );
    assert_eq!(
        bind_with(&arguments, &inputs),
        Ok(object(vec![
            ("body", text("fixes PR #7")),
            ("number", number(7))
        ]))
    );
}
